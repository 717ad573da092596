//! The insertion-history model of a group's ordering.
//!
//! A [`crate::DeferGroup`] keeps its pending actions as one sequence and
//! drains it head to tail. Each registration either lands at the current
//! head ([`Registration::Prepend`]) or at the current tail
//! ([`Registration::Append`]), so the drain order of any call pattern is
//! obtained by replaying the insertion history onto a double-ended
//! sequence. The lemmas below prove the ordering laws of that model:
//! appends drain first-in first-out, prepends drain last-in first-out, and
//! mixed patterns compose accordingly.

use vstd::prelude::*;

verus! {

/// One registration made on a group: where the action lands.
pub enum Registration<A> {
    /// The action is inserted at the current head; it will run before
    /// everything that was pending when it was registered.
    Prepend(A),
    /// The action is inserted at the current tail; it will run after
    /// everything that was pending when it was registered.
    Append(A),
}

/// The pending sequence after one registration on `pending`.
pub open spec fn apply_registration<A>(pending: Seq<A>, reg: Registration<A>) -> Seq<A> {
    match reg {
        Registration::Prepend(action) => pending.insert(0, action),
        Registration::Append(action) => pending.push(action),
    }
}

/// The pending sequence after a whole history of registrations, oldest
/// first, has been applied to `pending`.
pub open spec fn replay<A>(pending: Seq<A>, history: Seq<Registration<A>>) -> Seq<A>
    decreases history.len(),
{
    if history.len() == 0 {
        pending
    } else {
        replay(apply_registration(pending, history[0]), history.drop_first())
    }
}

/// The history that appends each of `actions` in turn.
pub open spec fn appends_of<A>(actions: Seq<A>) -> Seq<Registration<A>> {
    actions.map_values(|action: A| Registration::Append(action))
}

/// The history that prepends each of `actions` in turn.
pub open spec fn prepends_of<A>(actions: Seq<A>) -> Seq<Registration<A>> {
    actions.map_values(|action: A| Registration::Prepend(action))
}

/// Replaying a combined history is replaying its parts in turn. Together
/// with the registration contracts of [`crate::DeferGroup::add`] and
/// [`crate::DeferGroup::push`], this makes the pending sequence of any
/// mixed call pattern fully determined by its insertion history.
pub proof fn lemma_replay_concat<A>(
    pending: Seq<A>,
    first: Seq<Registration<A>>,
    second: Seq<Registration<A>>,
)
    ensures
        replay(pending, first + second) == replay(replay(pending, first), second),
    decreases first.len(),
{
    if first.len() == 0 {
        assert(first + second =~= second);
    } else {
        assert((first + second)[0] == first[0]);
        assert((first + second).drop_first() =~= first.drop_first() + second);
        lemma_replay_concat(apply_registration(pending, first[0]), first.drop_first(), second);
    }
}

/// Appending a run of actions leaves what was already pending in place and
/// schedules the new actions after it, in registration order.
pub proof fn lemma_replay_appends<A>(pending: Seq<A>, actions: Seq<A>)
    ensures
        replay(pending, appends_of(actions)) == pending + actions,
    decreases actions.len(),
{
    if actions.len() == 0 {
        assert(appends_of(actions).len() == 0);
        assert(pending + actions =~= pending);
    } else {
        let rest = actions.drop_first();
        assert(appends_of(actions).drop_first() =~= appends_of(rest));
        lemma_replay_appends(pending.push(actions[0]), rest);
        assert(pending.push(actions[0]) + rest =~= pending + actions);
    }
}

/// FIFO law: draining a group that was filled from empty purely by
/// appending `actions` runs them in exactly their registration order.
pub proof fn lemma_append_fifo<A>(actions: Seq<A>)
    ensures
        replay(Seq::empty(), appends_of(actions)) == actions,
{
    lemma_replay_appends(Seq::empty(), actions);
    assert(Seq::empty() + actions =~= actions);
}

/// Prepending a run of actions schedules them, most recent first, before
/// everything that was already pending.
pub proof fn lemma_replay_prepends<A>(pending: Seq<A>, actions: Seq<A>)
    ensures
        replay(pending, prepends_of(actions)) == actions.reverse() + pending,
    decreases actions.len(),
{
    if actions.len() == 0 {
        assert(actions.reverse() + pending =~= pending);
    } else {
        let rest = actions.drop_first();
        assert(prepends_of(actions).drop_first() =~= prepends_of(rest));
        lemma_replay_prepends(pending.insert(0, actions[0]), rest);
        assert(rest.reverse() + pending.insert(0, actions[0]) =~= actions.reverse() + pending);
    }
}

/// LIFO law: draining a group that was filled from empty purely by
/// prepending `actions` runs them in reverse registration order.
pub proof fn lemma_prepend_lifo<A>(actions: Seq<A>)
    ensures
        replay(Seq::empty(), prepends_of(actions)) == actions.reverse(),
{
    lemma_replay_prepends(Seq::empty(), actions);
    assert(actions.reverse() + Seq::empty() =~= actions.reverse());
}

/// Mixed-order composition: each prepend lands at the current front and
/// each append at the current back, so `append(a); prepend(b); append(c);
/// prepend(d)` on an empty group drains as `d, b, a, c`.
pub proof fn lemma_mixed_composition<A>(a: A, b: A, c: A, d: A)
    ensures
        replay(
            Seq::empty(),
            seq![
                Registration::Append(a),
                Registration::Prepend(b),
                Registration::Append(c),
                Registration::Prepend(d),
            ],
        ) == seq![d, b, a, c],
{
    let h0 = seq![
        Registration::Append(a),
        Registration::Prepend(b),
        Registration::Append(c),
        Registration::Prepend(d),
    ];
    let h1 = h0.drop_first();
    let h2 = h1.drop_first();
    let h3 = h2.drop_first();
    let h4 = h3.drop_first();
    let s1 = Seq::<A>::empty().push(a);
    let s2 = s1.insert(0, b);
    let s3 = s2.push(c);
    let s4 = s3.insert(0, d);
    assert(replay(Seq::<A>::empty(), h0) == replay(s1, h1));
    assert(replay(s1, h1) == replay(s2, h2));
    assert(replay(s2, h2) == replay(s3, h3));
    assert(replay(s3, h3) == replay(s4, h4));
    assert(h4.len() == 0);
    assert(replay(s4, h4) == s4);
    assert(s4 =~= seq![d, b, a, c]);
}

} // verus!
