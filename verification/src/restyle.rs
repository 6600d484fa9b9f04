//! Scratch state of one pass over one node.

use vstd::prelude::*;
use crate::hint::StoredRestyleHint;

verus! {

/// A classification of what a change of style costs further down the
/// pipeline. This crate only ever makes the empty one and stores what it is
/// given.
pub trait TRestyleDamage: Sized {
    /// The damage of a change that costs nothing.
    fn empty() -> Self;
}

/// A handle on a node of the tree, as far as this crate needs one.
pub trait TElement {
    /// What a capture of the node's state is.
    type Snapshot;

    /// Captures the state of the node as it can be observed now.
    fn create_snapshot(&self) -> Self::Snapshot;
}

/// Transient data of the restyle of one node. It is made before or during
/// the pass over the node and dropped when the node has been processed.
/// `D` is the type of the damage and `S` the type of a snapshot; neither is
/// looked into here.
#[derive(Debug)]
pub struct RestyleData<D, S> {
    /// The hint to apply in this pass.
    pub hint: StoredRestyleHint,
    /// The damage that the pass has found so far.
    pub damage: D,
    /// The state of the node before it was mutated, once it was asked for.
    pub snapshot: Option<S>,
}

/// What a slot that is filled on the first request holds after a request,
/// where `fresh` is what the request would put into an empty slot: what is
/// there stays, and only an empty slot takes the fresh value.
pub open spec fn filled<T>(slot: Option<T>, fresh: T) -> Option<T> {
    match slot {
        Some(t) => Some(t),
        None => Some(fresh),
    }
}

impl<D, S> RestyleData<D, S> {
    /// Whether this is scratch state as a pass starts out with it: no hint,
    /// the damage that `D::empty` gives, and no snapshot.
    pub open spec fn is_fresh(&self) -> bool where D: TRestyleDamage {
        &&& self.hint == StoredRestyleHint::spec_empty()
        &&& call_ensures(D::empty, (), self.damage)
        &&& self.snapshot is None
    }

    /// Creates the scratch state that a pass starts out with.
    pub fn new() -> (r: Self) where D: TRestyleDamage
        ensures
            r.is_fresh(),
    {
        RestyleData { hint: StoredRestyleHint::default(), damage: D::empty(), snapshot: None }
    }

    /// Hands out the snapshot of this pass, capturing it from `element` if
    /// this is the first request. What is handed out is the slot itself:
    /// what the caller writes there is what the next request finds.
    pub fn ensure_snapshot<E: TElement<Snapshot = S>>(&mut self, element: E) -> (r: &mut S)
        ensures
            old(self).snapshot is None ==> call_ensures(E::create_snapshot, (&element,), *r),
            Some(*r) == filled(old(self).snapshot, *r),
            final(self).snapshot == Some(*final(r)),
            final(self).hint == old(self).hint,
            final(self).damage == old(self).damage,
    {
        if self.snapshot.is_none() {
            self.snapshot = Some(element.create_snapshot());
        }
        self.snapshot.as_mut().unwrap()
    }
}

/// A slot is filled once: a request always leaves a value in the slot, and a
/// second request finds what the first one left, whatever it would have put
/// there itself. So the snapshot of a pass is captured once, and the scratch
/// state of a pass is made once.
pub proof fn lemma_filled_once<T>(slot: Option<T>, first: T, second: T)
    ensures
        filled(slot, first) is Some,
        filled(filled(slot, first), second) == filled(slot, first),
{
}

} // verus!
