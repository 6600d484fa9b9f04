//! The style data of one node, and the steps by which a pass over the node
//! moves it from the style of before the pass to the style it computes.

use vstd::prelude::*;
use crate::restyle::{filled, RestyleData, TRestyleDamage};
use crate::styles::{ElementStyles, PseudoStyles};

verus! {

/// Where the styles of a node stand. Within a pass the states follow each
/// other in one direction only: `Uninitialized`, then `Previous`, then
/// `Current`; the next pass goes on from `Current` to `Previous`.
#[derive(Debug)]
pub enum ElementDataStyles<V> {
    /// No style has been computed for the node yet.
    Uninitialized,
    /// The node holds the styles from before the pass, or none if it is
    /// styled for the first time. This is what styling starts from.
    Previous(Option<ElementStyles<V>>),
    /// The node holds the up-to-date styles. This is what styling produces.
    Current(ElementStyles<V>),
}

impl<V> ElementDataStyles<V> {
    /// Whether the styles from before the pass have been gathered.
    pub open spec fn spec_is_previous(&self) -> bool {
        self is Previous
    }

    /// The state that the start of a pass leaves, where `fallback` is what
    /// the fallback yields. It is only asked where no style was computed
    /// before; the output of the last pass becomes the input of this one,
    /// and a state that was gathered already stays as it is.
    pub open spec fn gathered(self, fallback: Option<ElementStyles<V>>) -> Self {
        match self {
            ElementDataStyles::Uninitialized => ElementDataStyles::Previous(fallback),
            ElementDataStyles::Current(x) => ElementDataStyles::Previous(Some(x)),
            ElementDataStyles::Previous(x) => ElementDataStyles::Previous(x),
        }
    }

    /// Tells whether the styles from before the pass have been gathered.
    #[verifier::when_used_as_spec(spec_is_previous)]
    pub fn is_previous(&self) -> (r: bool)
        ensures
            r == (self is Previous),
    {
        match *self {
            ElementDataStyles::Previous(_) => true,
            _ => false,
        }
    }
}

/// Style data of one node: where its styles stand, and the scratch state of
/// the pass that is at work on it, if there is one. `V` is the type of a
/// computed style, `D` of the damage and `S` of a snapshot.
///
/// Where the styles stand can only be changed by the methods of this type.
#[derive(Debug)]
pub struct ElementData<V, D, S> {
    styles: ElementDataStyles<V>,
    /// The scratch state of the current pass.
    pub restyle_data: Option<RestyleData<D, S>>,
}

impl<V, D, S> ElementData<V, D, S> {
    /// Where the styles of the node stand.
    pub closed spec fn styles(&self) -> ElementDataStyles<V> {
        self.styles
    }

    /// The scratch state of the current pass, as contracts see it.
    pub closed spec fn spec_restyle_data(&self) -> Option<RestyleData<D, S>> {
        self.restyle_data
    }

    /// Whether the node holds up-to-date styles.
    pub open spec fn spec_has_current_styles(&self) -> bool {
        self.styles() is Current
    }

    /// The up-to-date styles, if the node holds them.
    pub open spec fn spec_get_current_styles(&self) -> Option<&ElementStyles<V>> {
        match self.styles() {
            ElementDataStyles::Current(s) => Some(&s),
            _ => None,
        }
    }

    /// The up-to-date styles of a node that holds them.
    pub open spec fn spec_current_styles(&self) -> &ElementStyles<V>
        recommends
            self.styles() is Current,
    {
        &self.styles()->Current_0
    }

    /// The styles from before the pass, if a pass is at work on the node and
    /// the node had styles before.
    pub open spec fn spec_previous_styles(&self) -> Option<&ElementStyles<V>>
        recommends
            self.styles() is Previous,
    {
        match self.styles() {
            ElementDataStyles::Previous(Some(s)) => Some(&s),
            _ => None,
        }
    }

    /// Creates the data of a node that has never been styled.
    pub fn new() -> (r: Self)
        ensures
            r.styles() is Uninitialized,
            !r.has_current_styles(),
            r.get_current_styles() is None,
            r.spec_restyle_data() is None,
    {
        ElementData { styles: ElementDataStyles::Uninitialized, restyle_data: None }
    }

    /// Tells whether the node holds up-to-date styles.
    #[verifier::when_used_as_spec(spec_has_current_styles)]
    pub fn has_current_styles(&self) -> (r: bool)
        ensures
            r == (self.styles() is Current),
    {
        match self.styles {
            ElementDataStyles::Current(_) => true,
            _ => false,
        }
    }

    /// The up-to-date styles, if the node holds them.
    #[verifier::when_used_as_spec(spec_get_current_styles)]
    pub fn get_current_styles(&self) -> (r: Option<&ElementStyles<V>>)
        ensures
            r == self.spec_get_current_styles(),
            r is Some <==> self.has_current_styles(),
    {
        match self.styles {
            ElementDataStyles::Current(ref s) => Some(s),
            _ => None,
        }
    }

    /// The up-to-date styles. They can only be read once styling is finished.
    #[verifier::when_used_as_spec(spec_current_styles)]
    pub fn current_styles(&self) -> (r: &ElementStyles<V>)
        requires
            self.has_current_styles(),
        ensures
            r == self.spec_current_styles(),
    {
        self.get_current_styles().unwrap()
    }

    /// Gives write access to the pseudo-element styles of the up-to-date
    /// styles, for pseudo-elements that are styled after the node itself.
    pub fn current_pseudos_mut(&mut self) -> (r: &mut PseudoStyles<V>)
        requires
            old(self).has_current_styles(),
        ensures
            *r == old(self).current_styles().pseudos,
            final(self).styles() == ElementDataStyles::Current(
                (ElementStyles {
                    primary: old(self).current_styles().primary,
                    pseudos: *final(r),
                }),
            ),
            final(self).spec_restyle_data() == old(self).spec_restyle_data(),
    {
        match self.styles {
            ElementDataStyles::Current(ref mut s) => &mut s.pseudos,
            _ => vstd::pervasive::unreached(),
        }
    }

    /// The styles from before the pass; `None` if the node had none. They
    /// can only be read between the start of a pass and its end.
    #[verifier::when_used_as_spec(spec_previous_styles)]
    pub fn previous_styles(&self) -> (r: Option<&ElementStyles<V>>)
        requires
            self.styles().is_previous(),
        ensures
            r == self.spec_previous_styles(),
            r is Some <==> self.styles()->Previous_0 is Some,
    {
        match self.styles {
            ElementDataStyles::Previous(ref s) => s.as_ref(),
            _ => vstd::pervasive::unreached(),
        }
    }

    /// Gives write access to the styles from before the pass; `None` if the
    /// node had none.
    pub fn previous_styles_mut(&mut self) -> (r: Option<&mut ElementStyles<V>>)
        requires
            old(self).styles().is_previous(),
        ensures
            r is Some <==> old(self).previous_styles() is Some,
            match r {
                Some(s) => Some(&*s) == old(self).previous_styles() && final(self).styles()
                    == ElementDataStyles::Previous(Some(*final(s))),
                None => final(self).styles() == old(self).styles(),
            },
            final(self).spec_restyle_data() == old(self).spec_restyle_data(),
    {
        match self.styles {
            ElementDataStyles::Previous(ref mut s) => s.as_mut(),
            _ => vstd::pervasive::unreached(),
        }
    }

    /// Starts a pass: makes the styles that the node has so far the styles
    /// from before the pass. `f` is only called where the node has never
    /// been styled, and then what it yields is taken for them.
    pub fn gather_previous_styles<F>(&mut self, f: F) where F: FnOnce() -> Option<ElementStyles<V>>
        requires
            old(self).styles() is Uninitialized ==> f.requires(()),
        ensures
            final(self).styles().is_previous(),
            old(self).styles() is Uninitialized ==> f.ensures((), final(self).styles()->Previous_0),
            final(self).styles() == old(self).styles().gathered(final(self).styles()->Previous_0),
            final(self).spec_restyle_data() == old(self).spec_restyle_data(),
    {
        let mut taken = ElementDataStyles::Uninitialized;
        std::mem::swap(&mut self.styles, &mut taken);
        self.styles = match taken {
            ElementDataStyles::Uninitialized => ElementDataStyles::Previous(f()),
            ElementDataStyles::Current(x) => ElementDataStyles::Previous(Some(x)),
            ElementDataStyles::Previous(x) => ElementDataStyles::Previous(x),
        };
    }

    /// The scratch state of the current pass, if there is one.
    pub fn get_restyle_data(&self) -> (r: Option<&RestyleData<D, S>>)
        ensures
            r is Some <==> self.spec_restyle_data() is Some,
            r matches Some(d) ==> Some(*d) == self.spec_restyle_data(),
    {
        self.restyle_data.as_ref()
    }

    /// Gives write access to the slot of the scratch state, to replace what
    /// it holds or to drop it when the node has been processed.
    pub fn restyle_data_mut(&mut self) -> (r: &mut Option<RestyleData<D, S>>)
        ensures
            *r == old(self).spec_restyle_data(),
            final(self).spec_restyle_data() == *final(r),
            final(self).styles() == old(self).styles(),
    {
        &mut self.restyle_data
    }

    /// Hands out the scratch state of the pass, making a fresh one if there
    /// is none yet. What is handed out is the slot itself: what the caller
    /// writes there is what the next request finds.
    pub fn ensure_restyle_data(&mut self) -> (r: &mut RestyleData<D, S>) where D: TRestyleDamage
        ensures
            old(self).spec_restyle_data() is None ==> r.is_fresh(),
            Some(*r) == filled(old(self).spec_restyle_data(), *r),
            final(self).spec_restyle_data() == Some(*final(r)),
            final(self).styles() == old(self).styles(),
    {
        if self.restyle_data.is_none() {
            self.restyle_data = Some(RestyleData::new());
        }
        let result = self.restyle_data.as_mut().unwrap();
        result
    }

    /// Ends a pass: the node now holds `styles` as its up-to-date styles.
    /// The styles from before the pass must have been gathered.
    pub fn finish_styling(&mut self, styles: ElementStyles<V>)
        requires
            old(self).styles().is_previous(),
        ensures
            final(self).styles() == ElementDataStyles::Current(styles),
            final(self).has_current_styles(),
            *final(self).current_styles() == styles,
            final(self).spec_restyle_data() == old(self).spec_restyle_data(),
    {
        self.styles = ElementDataStyles::Current(styles);
    }
}

/// Starting a pass a second time changes nothing, whatever the fallback
/// would yield then.
pub proof fn lemma_gather_twice<V>(
    s: ElementDataStyles<V>,
    first: Option<ElementStyles<V>>,
    second: Option<ElementStyles<V>>,
)
    ensures
        s.gathered(first).gathered(second) == s.gathered(first),
{
}

/// The fallback only matters for a node that has never been styled.
pub proof fn lemma_gather_ignores_fallback<V>(
    s: ElementDataStyles<V>,
    a: Option<ElementStyles<V>>,
    b: Option<ElementStyles<V>>,
)
    requires
        !(s is Uninitialized),
    ensures
        s.gathered(a) == s.gathered(b),
{
}

/// After the start of a pass the node holds no up-to-date styles, and the
/// styles of the last pass, if it had any, are the styles from before.
pub proof fn lemma_gather_gives_previous<V>(
    s: ElementDataStyles<V>,
    fallback: Option<ElementStyles<V>>,
)
    ensures
        s.gathered(fallback) is Previous,
        s matches ElementDataStyles::Current(x) ==> s.gathered(fallback)
            == ElementDataStyles::Previous(Some(x)),
        s is Uninitialized ==> s.gathered(fallback) == ElementDataStyles::Previous(fallback),
{
}

} // verus!
