//! What the tunnel's state machines have in common: a transition relation
//! from state and event to next state and action, and what a sequence of
//! events leads to.

use vstd::prelude::*;

verus! {

/// A state of a machine that answers every event with an action.
pub trait Machine: Sized {
    /// The outcome of an action, as the driver reports it.
    type Event;

    /// What the driver is asked to do.
    type Action;

    /// Whether `event` is an outcome of the action that this state waits on.
    spec fn awaits(self, event: Self::Event) -> bool;

    /// The state that follows `event`, and the action that answers it.
    spec fn next(self, event: Self::Event) -> (Self, Self::Action);
}

/// The state that `events`, taken in order, lead to from `start`.
pub open spec fn run<M: Machine>(start: M, events: Seq<M::Event>) -> M
    decreases events.len(),
{
    if events.len() == 0 {
        start
    } else {
        run(start, events.drop_last()).next(events.last()).0
    }
}

/// The action that answers each of `events`, in order.
pub open spec fn actions<M: Machine>(start: M, events: Seq<M::Event>) -> Seq<M::Action>
    decreases events.len(),
{
    if events.len() == 0 {
        Seq::empty()
    } else {
        actions(start, events.drop_last()).push(
            run(start, events.drop_last()).next(events.last()).1,
        )
    }
}

/// Whether each of `events` is an outcome of the action that was outstanding
/// when it came. These are the traces that a driver produces: it performs the
/// action it was given and reports what came of it.
pub open spec fn conforms<M: Machine>(start: M, events: Seq<M::Event>) -> bool
    decreases events.len(),
{
    events.len() == 0 || (conforms(start, events.drop_last()) && run(
        start,
        events.drop_last(),
    ).awaits(events.last()))
}

/// Every event is answered by one action.
pub proof fn lemma_actions_len<M: Machine>(start: M, events: Seq<M::Event>)
    ensures
        actions(start, events).len() == events.len(),
    decreases events.len(),
{
    if events.len() > 0 {
        lemma_actions_len(start, events.drop_last());
    }
}

/// The `i`-th action is the answer of the state that the first `i` events
/// lead to.
pub proof fn lemma_action_at<M: Machine>(start: M, events: Seq<M::Event>, i: int)
    requires
        0 <= i < events.len(),
    ensures
        actions(start, events).len() == events.len(),
        actions(start, events)[i] == run(start, events.take(i)).next(events[i]).1,
    decreases events.len(),
{
    let front = events.drop_last();
    lemma_actions_len(start, events);
    lemma_actions_len(start, front);
    if i < front.len() {
        lemma_action_at(start, front, i);
        assert(front.take(i) =~= events.take(i));
    } else {
        assert(events.take(i) =~= front);
    }
}

/// One more event moves the machine one step on from where it stood.
pub proof fn lemma_run_step<M: Machine>(start: M, events: Seq<M::Event>, i: int)
    requires
        0 <= i < events.len(),
    ensures
        run(start, events.take(i + 1)) == run(start, events.take(i)).next(events[i]).0,
{
    assert(events.take(i + 1).drop_last() =~= events.take(i));
}

/// A trace that a driver produces begins with traces that a driver produces.
pub proof fn lemma_conforms_prefix<M: Machine>(start: M, events: Seq<M::Event>, i: int)
    requires
        conforms(start, events),
        0 <= i <= events.len(),
    ensures
        conforms(start, events.take(i)),
        i < events.len() ==> run(start, events.take(i)).awaits(events[i]),
    decreases events.len(),
{
    if events.len() > 0 {
        let front = events.drop_last();
        if i < front.len() {
            lemma_conforms_prefix(start, front, i);
            assert(front.take(i) =~= events.take(i));
        } else if i == front.len() {
            assert(events.take(i) =~= front);
        } else {
            assert(events.take(i) =~= events);
        }
    } else {
        assert(events.take(i) =~= events);
    }
}

} // verus!
