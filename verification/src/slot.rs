use vstd::prelude::*;

use crate::action::DeferredAction;

verus! {

/// A slot that owns exactly one deferred action.
///
/// The action is stored by [`Defer::new`] and is executed exactly once,
/// when the slot is dropped at the end of its owning scope — on every exit
/// path, normal or early. Nothing can mutate the slot after construction,
/// and nothing can run the action before the drop.
#[must_use]
pub struct Defer<A: DeferredAction> {
    action: Option<A>,
}

impl<A: DeferredAction> Defer<A> {
    /// The action the slot still holds.
    pub closed spec fn pending(&self) -> Option<A> {
        self.action
    }

    /// A slot is well formed while it still holds its action. Every slot
    /// is well formed from construction until its own teardown: an empty
    /// slot can never be observed.
    pub open spec fn wf(&self) -> bool {
        self.pending() is Some
    }

    /// Stores `deferred` in a fresh slot; the slot holds exactly that
    /// action and will run it when dropped.
    pub fn new(deferred: A) -> (slot: Self)
        ensures
            slot.wf(),
            slot.pending() == Some(deferred),
    {
        Defer { action: Some(deferred) }
    }
}

impl<A: DeferredAction> Drop for Defer<A> {
    /// Takes the stored action out and runs it. Ownership guarantees a
    /// single drop, so the action runs exactly once.
    fn drop(&mut self)
        ensures
            final(self).pending() is None,
        opens_invariants none
        no_unwind
    {
        let mut taken: Option<A> = None;
        core::mem::swap(&mut self.action, &mut taken);
        match taken {
            Some(action) => action.run(),
            None => {}
        }
    }
}

} // verus!
