//! The styles that styling has computed for a node: its own, and those of
//! its pseudo-elements.

use vstd::prelude::*;
use fnv::FnvHasher;
use std::collections::HashMap;
use std::hash::BuildHasherDefault;
use std::ops::{Deref, DerefMut};
use std::sync::Arc;

verus! {

/// `fnv::FnvHasher`, the hasher of the pseudo-element maps. Nothing is
/// claimed of it; it is only named so that the map type can be written.
#[verifier::external_type_specification]
#[verifier::external_body]
pub struct ExFnvHasher(FnvHasher);

/// `std::hash::BuildHasherDefault`, which makes a hasher by the hasher
/// type's `Default`. Nothing is claimed of it; it is only named so that the
/// map type can be written.
#[verifier::external_type_specification]
#[verifier::external_body]
#[verifier::reject_recursive_types(H)]
pub struct ExBuildHasherDefault<H>(BuildHasherDefault<H>);

/// Identifier of a pseudo-element of a node. Which pseudo-element a number
/// stands for is up to the code that computes the styles.
pub type PseudoElement = u64;

/// The map that holds the styles of the pseudo-elements of a node: a hash
/// map that hashes its keys with FNV.
pub type PseudoStylesInner<V> = HashMap<PseudoElement, Arc<V>, BuildHasherDefault<FnvHasher>>;

/// The styles of the pseudo-elements of a node, by pseudo-element. Each
/// pseudo-element has at most one entry, and the entries have no order.
/// `V` is the type of a computed style; a style is shared, never changed,
/// and never looked into here.
#[derive(Clone, Debug)]
pub struct PseudoStyles<V>(PseudoStylesInner<V>);

impl<V> View for PseudoStyles<V> {
    type V = Map<PseudoElement, Arc<V>>;

    /// The styles as a mathematical map from pseudo-element to style.
    open spec fn view(&self) -> Map<PseudoElement, Arc<V>> {
        self.inner()@
    }
}

impl<V> PseudoStyles<V> {
    /// The hash map that holds the entries.
    pub closed spec fn inner(&self) -> PseudoStylesInner<V> {
        self.0
    }

    /// Creates the styles of a node without pseudo-elements.
    pub fn empty() -> (r: Self)
        ensures
            (r@ == Map::<PseudoElement, Arc<V>>::empty()),
    {
        PseudoStyles(HashMap::default())
    }
}

impl<V> Deref for PseudoStyles<V> {
    type Target = PseudoStylesInner<V>;

    /// Gives read access to the hash map that holds the entries.
    fn deref(&self) -> (r: &Self::Target)
        ensures
            *r == self.inner(),
    {
        &self.0
    }
}

impl<V> DerefMut for PseudoStyles<V> {
    /// Gives write access to the hash map that holds the entries.
    fn deref_mut(&mut self) -> (r: &mut Self::Target)
        ensures
            *r == old(self).inner(),
            final(self).inner() == *final(r),
    {
        &mut self.0
    }
}

/// The styles of a node: its own, and those of its pseudo-elements. `V` is
/// the type of a computed style.
#[derive(Clone, Debug)]
pub struct ElementStyles<V> {
    /// The style computed for the node itself.
    pub primary: Arc<V>,
    /// The style computed for each pseudo-element of the node, if it has any.
    pub pseudos: PseudoStyles<V>,
}

impl<V> ElementStyles<V> {
    /// Creates the styles of a node from its own style, without any for
    /// pseudo-elements.
    pub fn new(primary: Arc<V>) -> (r: Self)
        ensures
            r.primary == primary,
            (r.pseudos@ == Map::<PseudoElement, Arc<V>>::empty()),
    {
        ElementStyles { primary: primary, pseudos: PseudoStyles::empty() }
    }
}

} // verus!
