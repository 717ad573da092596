//! Scoped deferred execution.
//!
//! A *deferred action* is a single-use, argument-free unit of work that is
//! scheduled to run later, when the value that owns it is dropped. Two
//! containers own such actions:
//!
//! - [`Defer`] owns exactly one action and runs it exactly once when the
//!   slot is dropped.
//! - [`DeferGroup`] owns an ordered sequence of actions and runs all of
//!   them, head first, exactly once when the group is dropped. Actions can
//!   be placed at the head ([`DeferGroup::add`]) or at the tail
//!   ([`DeferGroup::push`]), so the same container gives both stack-like
//!   ("undo in reverse of setup") and queue-like ("run in the order
//!   scheduled") teardown.
//!
//! Actions implement [`DeferredAction`]. When the deferred work is "call
//! this target with this argument", the argument can be evaluated either at
//! registration time, by wrapping the target in an [`EagerCall`], or at
//! execution time, by reading the surrounding state inside
//! [`DeferredAction::run`] itself.
//!
//! The [`history`] module states and proves the ordering laws: a group
//! drains in exactly the order obtained by replaying its insertion history
//! onto a double-ended sequence.

mod action;
mod group;
pub mod history;
mod slot;

pub use action::DeferredAction;
pub use action::DeferredCall;
pub use action::EagerCall;
pub use group::DeferGroup;
pub use slot::Defer;
