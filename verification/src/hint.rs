//! Restyle hints: what has to be restyled at a node and below it, how such
//! obligations are merged, and what of them reaches a child.

use vstd::prelude::*;

verus! {

/// How far below a node a restyle obligation reaches.
///
/// The three values are ordered `Empty < Children < Descendants`.
#[derive(Clone, Copy, Debug, PartialEq, Eq, Structural)]
pub enum DescendantRestyleHint {
    /// No descendant has to be restyled.
    Empty,
    /// The direct children have to be restyled.
    Children,
    /// The whole subtree has to be restyled.
    Descendants,
}

impl DescendantRestyleHint {
    /// Position of the value in the order `Empty < Children < Descendants`.
    pub open spec fn rank(self) -> nat {
        match self {
            DescendantRestyleHint::Empty => 0,
            DescendantRestyleHint::Children => 1,
            DescendantRestyleHint::Descendants => 2,
        }
    }

    /// The greater of two values.
    pub open spec fn spec_union(self, other: Self) -> Self {
        if self.rank() >= other.rank() {
            self
        } else {
            other
        }
    }

    /// What a child inherits: an obligation on the whole subtree goes on,
    /// anything less ends one level down.
    pub open spec fn spec_propagate(self) -> Self {
        if self == DescendantRestyleHint::Descendants {
            DescendantRestyleHint::Descendants
        } else {
            DescendantRestyleHint::Empty
        }
    }

    /// Propagates this descendant behavior to a child element.
    pub fn propagate(self) -> (r: Self)
        ensures
            r == self.spec_propagate(),
    {
        if self == DescendantRestyleHint::Descendants {
            DescendantRestyleHint::Descendants
        } else {
            DescendantRestyleHint::Empty
        }
    }

    /// Merges two values into the greater one.
    pub fn union(self, other: Self) -> (r: Self)
        ensures
            r == self.spec_union(other),
    {
        if self == DescendantRestyleHint::Descendants
            || other == DescendantRestyleHint::Descendants {
            DescendantRestyleHint::Descendants
        } else if self == DescendantRestyleHint::Children
            || other == DescendantRestyleHint::Children {
            DescendantRestyleHint::Children
        } else {
            DescendantRestyleHint::Empty
        }
    }
}

/// A restyle hint as the observer of mutations hands it over: three flags
/// that are set independently of each other.
#[derive(Clone, Copy, Debug, PartialEq, Eq, Structural)]
pub struct RestyleHint {
    /// The element itself has to be restyled.
    pub restyle_self: bool,
    /// All descendants of the element have to be restyled.
    pub restyle_descendants: bool,
    /// The hint has been taken to the later siblings of the element. This is
    /// the work of whoever hands the hint over, and a hint is only stored
    /// with this flag set.
    pub restyle_later_siblings: bool,
}

/// Restyle hint as it is stored on a node, in a form that can be handed down
/// the tree.
#[derive(Debug)]
pub struct StoredRestyleHint {
    /// The node itself has to be restyled.
    pub restyle_self: bool,
    /// How far below the node the obligation reaches.
    pub descendants: DescendantRestyleHint,
}

impl Clone for StoredRestyleHint {
    fn clone(&self) -> (r: Self)
        ensures
            r == *self,
    {
        StoredRestyleHint { restyle_self: self.restyle_self, descendants: self.descendants }
    }
}

impl StoredRestyleHint {
    /// The hint that asks for nothing.
    pub open spec fn spec_empty() -> Self {
        StoredRestyleHint { restyle_self: false, descendants: DescendantRestyleHint::Empty }
    }

    /// Whether the hint asks for nothing.
    pub open spec fn spec_is_empty(&self) -> bool {
        *self == Self::spec_empty()
    }

    /// The hint of a child under a parent with this hint: the child is to be
    /// restyled exactly if the parent's hint reaches no descendant, and the
    /// child's own reach is the parent's, handed down.
    pub open spec fn spec_propagate(&self) -> Self {
        StoredRestyleHint {
            restyle_self: self.descendants == DescendantRestyleHint::Empty,
            descendants: self.descendants.spec_propagate(),
        }
    }

    /// Two hints for one node taken together.
    pub open spec fn spec_insert(self, other: Self) -> Self {
        StoredRestyleHint {
            restyle_self: self.restyle_self || other.restyle_self,
            descendants: self.descendants.spec_union(other.descendants),
        }
    }

    /// What a raw hint asks for, once its sibling part has been dealt with.
    pub open spec fn spec_from(hint: RestyleHint) -> Self {
        StoredRestyleHint {
            restyle_self: hint.restyle_self,
            descendants: if hint.restyle_descendants {
                DescendantRestyleHint::Descendants
            } else {
                DescendantRestyleHint::Empty
            },
        }
    }

    /// Propagates this restyle hint to a child element.
    pub fn propagate(&self) -> (r: Self)
        ensures
            r == self.spec_propagate(),
    {
        StoredRestyleHint {
            restyle_self: self.descendants == DescendantRestyleHint::Empty,
            descendants: self.descendants.propagate(),
        }
    }

    /// Creates the hint that asks for nothing.
    pub fn empty() -> (r: Self)
        ensures
            r == Self::spec_empty(),
    {
        StoredRestyleHint { restyle_self: false, descendants: DescendantRestyleHint::Empty }
    }

    /// Tells whether the hint asks for nothing.
    #[verifier::when_used_as_spec(spec_is_empty)]
    pub fn is_empty(&self) -> (r: bool)
        ensures
            r == self.spec_is_empty(),
    {
        !self.restyle_self && self.descendants == DescendantRestyleHint::Empty
    }

    /// Adds the obligations of `other` to this hint.
    pub fn insert(&mut self, other: &Self)
        ensures
            *final(self) == old(self).spec_insert(*other),
    {
        self.restyle_self = self.restyle_self || other.restyle_self;
        self.descendants = self.descendants.union(other.descendants);
    }

    /// Converts a raw hint into the form that is stored. The caller has to
    /// have taken the hint to the later siblings first, and the raw hint has
    /// to say so. The flags for the element and for its descendants carry
    /// over; a raw hint never asks for the children alone.
    pub fn from(hint: RestyleHint) -> (r: Self)
        requires
            hint.restyle_later_siblings,
        ensures
            r == Self::spec_from(hint),
    {
        StoredRestyleHint {
            restyle_self: hint.restyle_self,
            descendants: if hint.restyle_descendants {
                DescendantRestyleHint::Descendants
            } else {
                DescendantRestyleHint::Empty
            },
        }
    }
}

impl Default for StoredRestyleHint {
    fn default() -> (r: Self)
        ensures
            r == Self::spec_empty(),
    {
        StoredRestyleHint { restyle_self: false, descendants: DescendantRestyleHint::Empty }
    }
}

/// Merging two reaches does not depend on their order.
pub proof fn lemma_union_commutative(a: DescendantRestyleHint, b: DescendantRestyleHint)
    ensures
        a.spec_union(b) == b.spec_union(a),
{
}

/// Merging three reaches does not depend on how they are grouped.
pub proof fn lemma_union_associative(
    a: DescendantRestyleHint,
    b: DescendantRestyleHint,
    c: DescendantRestyleHint,
)
    ensures
        a.spec_union(b).spec_union(c) == a.spec_union(b.spec_union(c)),
{
}

/// Merging a reach with itself changes nothing.
pub proof fn lemma_union_idempotent(a: DescendantRestyleHint)
    ensures
        a.spec_union(a) == a,
{
}

/// `Empty` is the identity of the merge.
pub proof fn lemma_union_identity(a: DescendantRestyleHint)
    ensures
        a.spec_union(DescendantRestyleHint::Empty) == a,
        DescendantRestyleHint::Empty.spec_union(a) == a,
{
}

/// `Descendants` absorbs whatever it is merged with.
pub proof fn lemma_union_absorbing(a: DescendantRestyleHint)
    ensures
        a.spec_union(DescendantRestyleHint::Descendants) == DescendantRestyleHint::Descendants,
        DescendantRestyleHint::Descendants.spec_union(a) == DescendantRestyleHint::Descendants,
{
}

/// The merge of two reaches is their least upper bound: it is one of the
/// two, and neither is greater than it.
pub proof fn lemma_union_is_maximum(a: DescendantRestyleHint, b: DescendantRestyleHint)
    ensures
        a.spec_union(b) == a || a.spec_union(b) == b,
        a.rank() <= a.spec_union(b).rank(),
        b.rank() <= a.spec_union(b).rank(),
{
}

/// Only a reach over the whole subtree goes past the children: the reach
/// handed to a child is never `Children`, and it is `Descendants` exactly
/// if the parent's is.
pub proof fn lemma_propagate_reach(a: DescendantRestyleHint)
    ensures
        a.spec_propagate() != DescendantRestyleHint::Children,
        a.spec_propagate() == DescendantRestyleHint::Descendants <==> a
            == DescendantRestyleHint::Descendants,
        a.spec_propagate().spec_propagate() == a.spec_propagate(),
{
}

/// Inserting `b` into `a` gives the same hint as inserting `a` into `b`.
pub proof fn lemma_insert_commutative(a: StoredRestyleHint, b: StoredRestyleHint)
    ensures
        a.spec_insert(b) == b.spec_insert(a),
{
}

/// Inserting several hints gives the same hint however they are grouped.
pub proof fn lemma_insert_associative(a: StoredRestyleHint, b: StoredRestyleHint, c: StoredRestyleHint)
    ensures
        a.spec_insert(b).spec_insert(c) == a.spec_insert(b.spec_insert(c)),
{
}

/// Inserting a hint into itself changes nothing.
pub proof fn lemma_insert_idempotent(a: StoredRestyleHint)
    ensures
        a.spec_insert(a) == a,
{
}

/// Inserting the empty hint, or inserting into it, changes nothing.
pub proof fn lemma_insert_identity(a: StoredRestyleHint)
    ensures
        a.spec_insert(StoredRestyleHint::spec_empty()) == a,
        StoredRestyleHint::spec_empty().spec_insert(a) == a,
{
}

/// What a child is handed depends on the parent's reach alone. The child is
/// to be restyled itself exactly if that reach is `Empty`, and the child's
/// reach is `Descendants` if the parent's is and `Empty` otherwise.
pub proof fn lemma_propagate_rule(h: StoredRestyleHint)
    ensures
        h.spec_propagate().restyle_self <==> h.descendants == DescendantRestyleHint::Empty,
        h.descendants == DescendantRestyleHint::Descendants ==> h.spec_propagate().descendants
            == DescendantRestyleHint::Descendants,
        h.descendants != DescendantRestyleHint::Descendants ==> h.spec_propagate().descendants
            == DescendantRestyleHint::Empty,
{
}

/// A raw hint never asks for the children alone, and it is stored as the
/// empty hint exactly if it asks neither for the element nor for its
/// descendants.
pub proof fn lemma_from_raw(hint: RestyleHint)
    ensures
        StoredRestyleHint::spec_from(hint).descendants != DescendantRestyleHint::Children,
        StoredRestyleHint::spec_from(hint).spec_is_empty() <==> !hint.restyle_self
            && !hint.restyle_descendants,
{
}

} // verus!
