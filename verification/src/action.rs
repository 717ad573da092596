use vstd::prelude::*;

verus! {

/// A single-use, argument-free unit of deferred work.
///
/// An action is consumed when it runs, so it can never run twice. The
/// containers of this crate ([`crate::Defer`], [`crate::DeferGroup`]) run
/// their pending actions from their `Drop` implementations, and a `Drop`
/// body must not unwind; an implementation of `run` therefore promises not
/// to panic.
pub trait DeferredAction {
    /// Consumes the action and performs its work.
    fn run(self)
        opens_invariants none
        no_unwind when true;
}

/// A single-use target that is invoked with one argument.
///
/// This is the shape of deferred work of the form "call this target with
/// this argument". Together with [`EagerCall`] it lets the argument be
/// evaluated at registration time rather than at execution time.
pub trait DeferredCall<T> {
    /// Consumes the target and invokes it with `arg`.
    fn call_with(self, arg: T)
        opens_invariants none
        no_unwind when true;
}

/// An action whose argument was evaluated when the action was built.
///
/// `EagerCall::new(target, argument)` freezes `argument` at the moment of
/// registration; running the action later invokes `target` with that frozen
/// value, whatever the surrounding state has become in the meantime. For
/// execution-time (lazy) evaluation, implement [`DeferredAction`] directly
/// and read the surrounding state inside `run`.
pub struct EagerCall<T, C: DeferredCall<T>> {
    target: C,
    argument: T,
}

impl<T, C: DeferredCall<T>> EagerCall<T, C> {
    /// The target that will be invoked when the action runs.
    pub closed spec fn callee(&self) -> C {
        self.target
    }

    /// The argument value frozen at registration time.
    pub closed spec fn frozen_argument(&self) -> T {
        self.argument
    }

    /// Builds an action that will invoke `target` with `argument`.
    ///
    /// `argument` is evaluated by the caller, here and now; the value the
    /// action carries is pinned to what was passed in, not to any later
    /// state.
    pub fn new(target: C, argument: T) -> (action: Self)
        ensures
            action.callee() == target,
            action.frozen_argument() == argument,
    {
        EagerCall { target, argument }
    }
}

impl<T, C: DeferredCall<T>> DeferredAction for EagerCall<T, C> {
    fn run(self) {
        self.target.call_with(self.argument)
    }
}

} // verus!
