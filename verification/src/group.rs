use vstd::prelude::*;

use crate::action::DeferredAction;
use crate::history::Registration;
use crate::history::apply_registration;

verus! {

/// The pending actions of a group, in drain order: the first entry runs
/// first. Owned recursively, so the drain can take each entry out by plain
/// moves.
enum ActionList<A> {
    Empty,
    Entry(A, Box<ActionList<A>>),
}

impl<A> ActionList<A> {
    /// The number of pending entries.
    spec fn len(self) -> nat
        decreases self,
    {
        match self {
            ActionList::Empty => 0,
            ActionList::Entry(_, rest) => 1 + rest.len(),
        }
    }

    /// The pending entries as a sequence, head first.
    spec fn view(self) -> Seq<A>
        decreases self,
    {
        match self {
            ActionList::Empty => Seq::empty(),
            ActionList::Entry(action, rest) => seq![action] + rest.view(),
        }
    }
}

/// An ordered group of deferred actions.
///
/// The group keeps one sequence of pending actions, `self@`, and drains it
/// head to tail, exactly once, when the group is dropped at the end of its
/// owning scope. [`DeferGroup::add`] inserts at the head ("run first"),
/// [`DeferGroup::push`] inserts at the tail ("run last"), so the drain
/// order of any call pattern is the insertion history replayed onto a
/// double-ended sequence (see [`crate::history`]).
///
/// A group never spans two scopes by itself: to register work against an
/// ancestor scope, inner code holds a mutable borrow of the ancestor's
/// group and calls `add` or `push` through it. The group does not track
/// where an entry came from; it drains when its own owner is dropped. The
/// borrow checker enforces that such a handle cannot outlive the group.
///
/// Groups are single-threaded: all operations run to completion on the
/// calling thread, and the drain order is determined purely by scope
/// nesting and insertion history.
#[must_use]
pub struct DeferGroup<A: DeferredAction> {
    pending: ActionList<A>,
}

impl<A: DeferredAction> View for DeferGroup<A> {
    type V = Seq<A>;

    /// The pending actions in drain order: the head runs first.
    closed spec fn view(&self) -> Seq<A> {
        self.pending.view()
    }
}

impl<A: DeferredAction> DeferGroup<A> {
    /// Creates an empty group: nothing is pending.
    pub fn new() -> (group: Self)
        ensures
            group@ == Seq::<A>::empty(),
    {
        DeferGroup { pending: ActionList::Empty }
    }

    /// Registers `action` to run first: it lands at the head of the
    /// pending sequence and everything already pending shifts one place
    /// towards the tail.
    pub fn add(&mut self, action: A)
        ensures
            final(self)@ == old(self)@.insert(0, action),
            final(self)@ == apply_registration(old(self)@, Registration::Prepend(action)),
    {
        let mut rest = ActionList::Empty;
        core::mem::swap(&mut self.pending, &mut rest);
        self.pending = ActionList::Entry(action, Box::new(rest));
        proof {
            assert(self@ =~= old(self)@.insert(0, action));
        }
    }

    /// Registers `action` to run last: it lands at the tail of the pending
    /// sequence, after everything already pending.
    pub fn push(&mut self, action: A)
        ensures
            final(self)@ == old(self)@.push(action),
            final(self)@ == apply_registration(old(self)@, Registration::Append(action)),
    {
        Self::append(&mut self.pending, action);
    }

    /// Walks to the tail of `list` and hangs `action` there.
    fn append(list: &mut ActionList<A>, action: A)
        ensures
            final(list).view() == old(list).view().push(action),
        decreases old(list).len(),
    {
        match list {
            ActionList::Empty => {
                *list = ActionList::Entry(action, Box::new(ActionList::Empty));
                proof {
                    assert(list.view() =~= old(list).view().push(action));
                }
            },
            ActionList::Entry(_, rest) => {
                Self::append(rest, action);
                proof {
                    assert(list.view() =~= old(list).view().push(action));
                }
            },
        }
    }
}

impl<A: DeferredAction> Drop for DeferGroup<A> {
    /// Drains the pending sequence from head to tail, taking each entry
    /// out and running it exactly once. Ownership guarantees a single
    /// drop, so no entry is ever visited twice.
    fn drop(&mut self)
        ensures
            final(self)@ == Seq::<A>::empty(),
        opens_invariants none
        no_unwind
    {
        let mut current = ActionList::Empty;
        core::mem::swap(&mut self.pending, &mut current);
        loop
            decreases current.len(),
        {
            match current {
                ActionList::Empty => {
                    break;
                },
                ActionList::Entry(action, rest) => {
                    action.run();
                    current = *rest;
                },
            }
        }
    }
}

} // verus!
