use vstd::prelude::*;
use crate::session::{next, ActionView, EventView, SessionView};

verus! {

/// The session reached from `session` once the driver has reported
/// `events`, one after the other.
pub open spec fn state_after(session: SessionView, events: Seq<EventView>) -> SessionView
    decreases events.len(),
{
    if events.len() == 0 {
        session
    } else {
        state_after(next(session, events[0]).0, events.drop_first())
    }
}

/// The actions that `session` asks for while the driver reports `events`,
/// one for each event and in the same order.
pub open spec fn actions_of(session: SessionView, events: Seq<EventView>) -> Seq<ActionView>
    decreases events.len(),
{
    if events.len() == 0 {
        Seq::empty()
    } else {
        seq![next(session, events[0]).1] + actions_of(
            next(session, events[0]).0,
            events.drop_first(),
        )
    }
}

/// The lines that a sequence of actions writes, in order.
pub open spec fn printed(actions: Seq<ActionView>) -> Seq<Seq<char>>
    decreases actions.len(),
{
    if actions.len() == 0 {
        Seq::empty()
    } else {
        match actions[0] {
            ActionView::Print(line) => seq![line] + printed(actions.drop_first()),
            _ => printed(actions.drop_first()),
        }
    }
}

/// The lengths of the suspensions in a sequence of actions, in order.
pub open spec fn sleeps(actions: Seq<ActionView>) -> Seq<u64>
    decreases actions.len(),
{
    if actions.len() == 0 {
        Seq::empty()
    } else {
        match actions[0] {
            ActionView::Sleep(seconds) => seq![seconds] + sleeps(actions.drop_first()),
            _ => sleeps(actions.drop_first()),
        }
    }
}

/// How often a sequence of actions asks to stop the scan.
pub open spec fn stops(actions: Seq<ActionView>) -> nat
    decreases actions.len(),
{
    if actions.len() == 0 {
        0
    } else {
        stops(actions.drop_first()) + if actions[0] is StopScan {
            1nat
        } else {
            0nat
        }
    }
}

/// A run on one event followed by others is one step followed by the run
/// on the others.
pub proof fn run_unfolds(session: SessionView, event: EventView, rest: Seq<EventView>)
    ensures
        state_after(session, seq![event] + rest) == state_after(next(session, event).0, rest),
        actions_of(session, seq![event] + rest) == seq![next(session, event).1] + actions_of(
            next(session, event).0,
            rest,
        ),
{
    let events = seq![event] + rest;
    assert(events[0] == event);
    assert(events.drop_first() =~= rest);
}

/// What a sequence of actions writes, suspends and stops, told from its
/// first action and from the others.
pub proof fn effects_unfold(action: ActionView, rest: Seq<ActionView>)
    ensures
        printed(seq![action] + rest) == match action {
            ActionView::Print(line) => seq![line] + printed(rest),
            _ => printed(rest),
        },
        sleeps(seq![action] + rest) == match action {
            ActionView::Sleep(seconds) => seq![seconds] + sleeps(rest),
            _ => sleeps(rest),
        },
        stops(seq![action] + rest) == stops(rest) + if action is StopScan {
            1nat
        } else {
            0nat
        },
{
    let actions = seq![action] + rest;
    assert(actions[0] == action);
    assert(actions.drop_first() =~= rest);
}

/// One step of a run, with its effects: the combination of `run_unfolds`
/// and `effects_unfold`.
pub proof fn step_unfolds(session: SessionView, event: EventView, rest: Seq<EventView>)
    ensures
        state_after(session, seq![event] + rest) == state_after(next(session, event).0, rest),
        actions_of(session, seq![event] + rest) == seq![next(session, event).1] + actions_of(
            next(session, event).0,
            rest,
        ),
        printed(actions_of(session, seq![event] + rest)) == match next(session, event).1 {
            ActionView::Print(line) => seq![line] + printed(
                actions_of(next(session, event).0, rest),
            ),
            _ => printed(actions_of(next(session, event).0, rest)),
        },
        sleeps(actions_of(session, seq![event] + rest)) == match next(session, event).1 {
            ActionView::Sleep(seconds) => seq![seconds] + sleeps(
                actions_of(next(session, event).0, rest),
            ),
            _ => sleeps(actions_of(next(session, event).0, rest)),
        },
        stops(actions_of(session, seq![event] + rest)) == stops(
            actions_of(next(session, event).0, rest),
        ) + if next(session, event).1 is StopScan {
            1nat
        } else {
            0nat
        },
{
    run_unfolds(session, event, rest);
    effects_unfold(next(session, event).1, actions_of(next(session, event).0, rest));
}

} // verus!
