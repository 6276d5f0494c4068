use vstd::prelude::*;
use crate::error::ScanError;
use crate::locator::{first_match, first_match_is_first, is_target};
use crate::run::{actions_of, printed, sleeps, state_after, step_unfolds, stops};
use crate::session::{
    initial, is_over, is_polling, next, outcome, poll_interval, positions_in_range,
    wanted_address, ActionView,
    CommandView, EventView, SessionView, Stage, LOCATE_WINDOW_SECS,
};
use crate::snapshot::{line_text, report_text, PropertiesView};
use crate::text::signed_decimal;

verus! {

/// An ended command stays ended: whatever is reported, the session does not
/// change and the only action is to finish with the same outcome.
pub proof fn ended_stays_ended(session: SessionView, event: EventView)
    requires
        is_over(session.stage),
    ensures
        next(session, event) == (session, ActionView::Finish(outcome(session.stage))),
{
}

/// A step never changes what was asked for.
pub proof fn command_is_kept(session: SessionView, event: EventView)
    ensures
        next(session, event).0.command == session.command,
{
}

/// A step keeps the positions of a stage inside the list of peripherals.
pub proof fn positions_stay_in_range(session: SessionView, event: EventView)
    requires
        positions_in_range(session.stage),
    ensures
        positions_in_range(next(session, event).0.stage),
{
}

/// Before a command has ended, a reported failure ends it with
/// `AdapterError`.
pub proof fn failure_ends_command(session: SessionView)
    requires
        !is_over(session.stage),
    ensures
        next(session, EventView::Failed).0.stage == Stage::Failed(ScanError::AdapterError),
        next(session, EventView::Failed).1 == ActionView::Finish(Err(ScanError::AdapterError)),
{
}

/// Once a device is being watched, the command keeps watching that same
/// device until the radio stack fails: it never goes back to locating, and it
/// never ends normally.
pub proof fn polling_goes_on(session: SessionView, event: EventView)
    requires
        is_polling(session.stage),
    ensures
        ({
            let after = next(session, event).0.stage;
            ||| is_polling(after) && watched(after) == watched(session.stage)
            ||| after == Stage::Failed(ScanError::AdapterError)
        }),
{
}

/// The position of the peripheral that a polling stage watches.
pub open spec fn watched(stage: Stage) -> usize {
    match stage {
        Stage::Polling { index } => index,
        Stage::Emitting { index } => index,
        Stage::Pausing { index } => index,
        _ => 0,
    }
}

/// A poll that finds a signal strength writes it as a bare integer and then
/// suspends for the interval.
pub proof fn poll_with_signal(
    command: CommandView,
    index: usize,
    snapshot: PropertiesView,
    rssi: i16,
)
    requires
        snapshot.rssi == Some(rssi),
    ensures
        ({
            let polling = SessionView { command, stage: Stage::Polling { index } };
            let emitting = SessionView { command, stage: Stage::Emitting { index } };
            let pausing = SessionView { command, stage: Stage::Pausing { index } };
            &&& next(polling, EventView::Snapshot(snapshot)) == (
                emitting,
                ActionView::Print(signed_decimal(rssi as int)),
            )
            &&& next(emitting, EventView::Done) == (
                pausing,
                ActionView::Sleep(poll_interval(command)),
            )
            &&& next(pausing, EventView::Done) == (polling, ActionView::FetchProperties(index))
        }),
{
}

/// A poll that finds no signal strength writes nothing and is no error: the
/// command suspends for the interval and polls again.
pub proof fn poll_without_signal(command: CommandView, index: usize, snapshot: PropertiesView)
    requires
        snapshot.rssi is None,
    ensures
        ({
            let polling = SessionView { command, stage: Stage::Polling { index } };
            let pausing = SessionView { command, stage: Stage::Pausing { index } };
            &&& next(polling, EventView::Snapshot(snapshot)) == (
                pausing,
                ActionView::Sleep(poll_interval(command)),
            )
            &&& next(pausing, EventView::Done) == (polling, ActionView::FetchProperties(index))
        }),
{
}

/// The largest number by which the lines written from a stage on can exceed
/// the suspensions from that stage on.
pub open spec fn lead(stage: Stage) -> int {
    if stage is Polling || stage is Pausing {
        1
    } else {
        0
    }
}

/// While a device is watched, at most one line is written for each
/// suspension: over any run that begins in a polling stage, the lines
/// written exceed the suspensions by one at most, and every suspension lasts
/// the interval.
pub proof fn one_line_for_each_interval(session: SessionView, events: Seq<EventView>)
    requires
        is_polling(session.stage) || is_over(session.stage),
    ensures
        printed(actions_of(session, events)).len() <= sleeps(actions_of(session, events)).len()
            + lead(session.stage),
        forall|i: int|
            0 <= i < sleeps(actions_of(session, events)).len() ==> #[trigger] sleeps(
                actions_of(session, events),
            )[i] == poll_interval(session.command),
    decreases events.len(),
{
    if events.len() > 0 {
        let rest = events.drop_first();
        assert(events =~= seq![events[0]] + rest);
        step_unfolds(session, events[0], rest);
        one_line_for_each_interval(next(session, events[0]).0, rest);
    }
}

/// What the driver reports while a scan lists `snapshots`: for each
/// peripheral its snapshot and that its line is written, and at the end that
/// the scan has stopped.
pub open spec fn listing_events(snapshots: Seq<PropertiesView>) -> Seq<EventView>
    decreases snapshots.len(),
{
    if snapshots.len() == 0 {
        seq![EventView::Done]
    } else {
        seq![EventView::Snapshot(snapshots[0])] + (seq![EventView::Done] + listing_events(
            snapshots.drop_first(),
        ))
    }
}

/// What the driver reports while a device is looked for among `snapshots`:
/// the snapshot of each peripheral, in order.
pub open spec fn locating_events(snapshots: Seq<PropertiesView>) -> Seq<EventView>
    decreases snapshots.len(),
{
    if snapshots.len() == 0 {
        Seq::empty()
    } else {
        seq![EventView::Snapshot(snapshots[0])] + locating_events(snapshots.drop_first())
    }
}

/// What the driver reports up to the list of peripherals, followed by
/// `then`: the host has `adapters` adapters, the scan has started, the
/// discovery window has passed, and `count` peripherals were discovered.
pub open spec fn opening_events(adapters: usize, count: usize, then: Seq<EventView>) -> Seq<
    EventView,
> {
    seq![EventView::Adapters(adapters)] + (seq![EventView::Done] + (seq![EventView::Done] + (
        seq![EventView::Peripherals(count)] + then)))
}

/// The effects of a run from `session` on `events`: what it writes, how it
/// suspends, how often it stops the scan, and where it ends.
pub open spec fn run_gives(
    session: SessionView,
    events: Seq<EventView>,
    lines: Seq<Seq<char>>,
    pauses: Seq<u64>,
    stopped: nat,
    end: Stage,
) -> bool {
    &&& printed(actions_of(session, events)) =~= lines
    &&& sleeps(actions_of(session, events)) =~= pauses
    &&& stops(actions_of(session, events)) == stopped
    &&& state_after(session, events).stage == end
    &&& state_after(session, events).command == session.command
}

/// A run on one event and then others has the effects of the step and then
/// those of the run on the others.
proof fn run_gives_step(
    session: SessionView,
    event: EventView,
    rest: Seq<EventView>,
    lines: Seq<Seq<char>>,
    pauses: Seq<u64>,
    stopped: nat,
    end: Stage,
)
    requires
        run_gives(next(session, event).0, rest, lines, pauses, stopped, end),
    ensures
        run_gives(
            session,
            seq![event] + rest,
            match next(session, event).1 {
                ActionView::Print(line) => seq![line] + lines,
                _ => lines,
            },
            match next(session, event).1 {
                ActionView::Sleep(seconds) => seq![seconds] + pauses,
                _ => pauses,
            },
            if next(session, event).1 is StopScan {
                stopped + 1
            } else {
                stopped
            },
            end,
        ),
{
    step_unfolds(session, event, rest);
}

/// From the fetch of peripheral `index` on, a scan writes the line of each
/// remaining peripheral, stops the scan once and ends normally.
proof fn listing_from(
    command: CommandView,
    index: usize,
    count: usize,
    snapshots: Seq<PropertiesView>,
)
    requires
        snapshots.len() > 0,
        index + snapshots.len() == count,
    ensures
        run_gives(
            SessionView { command, stage: Stage::Fetching { index, count } },
            listing_events(snapshots),
            report_text(snapshots),
            Seq::empty(),
            1,
            Stage::Finished,
        ),
    decreases snapshots.len(),
{
    let fetching = SessionView { command, stage: Stage::Fetching { index, count } };
    let printing = SessionView { command, stage: Stage::Printing { index, count } };
    let rest = snapshots.drop_first();
    let tail = listing_events(rest);
    assert(report_text(snapshots) =~= seq![line_text(snapshots[0])] + report_text(rest));
    if rest.len() == 0 {
        let stopping = SessionView { command, stage: Stage::Stopping };
        let finished = SessionView { command, stage: Stage::Finished };
        assert(tail =~= seq![EventView::Done] + Seq::<EventView>::empty());
        assert(run_gives(finished, Seq::empty(), Seq::empty(), Seq::empty(), 0, Stage::Finished));
        run_gives_step(
            stopping,
            EventView::Done,
            Seq::empty(),
            Seq::empty(),
            Seq::empty(),
            0,
            Stage::Finished,
        );
        run_gives_step(printing, EventView::Done, tail, Seq::empty(), Seq::empty(), 0, Stage::Finished);
    } else {
        listing_from(command, (index + 1) as usize, count, rest);
        run_gives_step(
            printing,
            EventView::Done,
            tail,
            report_text(rest),
            Seq::empty(),
            1,
            Stage::Finished,
        );
    }
    run_gives_step(
        fetching,
        EventView::Snapshot(snapshots[0]),
        seq![EventView::Done] + tail,
        report_text(rest),
        Seq::empty(),
        1,
        Stage::Finished,
    );
}

/// A scan on a host with an adapter suspends once, for the duration asked
/// for, then writes one line for each peripheral that the adapter reports,
/// in the adapter's order, stops the scan once and ends normally.
pub proof fn scan_lists_every_peripheral(
    duration: u64,
    adapters: usize,
    snapshots: Seq<PropertiesView>,
)
    requires
        adapters > 0,
        snapshots.len() <= usize::MAX,
    ensures
        run_gives(
            initial(CommandView::Scan { duration }),
            opening_events(adapters, snapshots.len() as usize, listing_events(snapshots)),
            report_text(snapshots),
            seq![duration],
            1,
            Stage::Finished,
        ),
        report_text(snapshots).len() == snapshots.len(),
{
    let command = CommandView::Scan { duration };
    let count = snapshots.len() as usize;
    let then = listing_events(snapshots);
    let listing = SessionView { command, stage: Stage::Listing };
    let settling = SessionView { command, stage: Stage::Settling };
    let starting = SessionView { command, stage: Stage::Starting };
    if count == 0 {
        let stopping = SessionView { command, stage: Stage::Stopping };
        let finished = SessionView { command, stage: Stage::Finished };
        assert(then =~= seq![EventView::Done] + Seq::<EventView>::empty());
        assert(report_text(snapshots) =~= Seq::<Seq<char>>::empty());
        assert(run_gives(finished, Seq::empty(), Seq::empty(), Seq::empty(), 0, Stage::Finished));
        run_gives_step(
            stopping,
            EventView::Done,
            Seq::empty(),
            Seq::empty(),
            Seq::empty(),
            0,
            Stage::Finished,
        );
    } else {
        listing_from(command, 0, count, snapshots);
    }
    let lines = report_text(snapshots);
    run_gives_step(listing, EventView::Peripherals(count), then, lines, Seq::empty(), if count == 0 {
        0
    } else {
        1
    }, Stage::Finished);
    let e3 = seq![EventView::Peripherals(count)] + then;
    run_gives_step(settling, EventView::Done, e3, lines, Seq::empty(), 1, Stage::Finished);
    let e2 = seq![EventView::Done] + e3;
    run_gives_step(starting, EventView::Done, e2, lines, Seq::empty(), 1, Stage::Finished);
    let e1 = seq![EventView::Done] + e2;
    run_gives_step(
        initial(command),
        EventView::Adapters(adapters),
        e1,
        lines,
        seq![duration],
        1,
        Stage::Finished,
    );
}

/// On a host without an adapter every command ends at once with
/// `NoAdapterFound`: no scan is started and nothing is written.
pub proof fn no_adapter_ends_command(command: CommandView)
    ensures
        next(initial(command), EventView::Adapters(0)) == (
            SessionView { command, stage: Stage::Failed(ScanError::NoAdapterFound) },
            ActionView::Finish(Err(ScanError::NoAdapterFound)),
        ),
{
}

/// From the fetch of peripheral `index` on, the search goes through the
/// remaining peripherals in order. It settles on the first that the wanted
/// address names without fetching any further snapshot, and fails with
/// `DeviceNotFound` after the last where none does.
proof fn locating_from(
    command: CommandView,
    index: usize,
    count: usize,
    snapshots: Seq<PropertiesView>,
)
    requires
        snapshots.len() > 0,
        index + snapshots.len() == count,
    ensures
        match first_match(snapshots, wanted_address(command)) {
            Some(i) => 0 <= i < snapshots.len() && run_gives(
                SessionView { command, stage: Stage::Locating { index, count } },
                locating_events(snapshots.take(i + 1)),
                Seq::empty(),
                Seq::empty(),
                0,
                Stage::Polling { index: (index + i) as usize },
            ),
            None => run_gives(
                SessionView { command, stage: Stage::Locating { index, count } },
                locating_events(snapshots),
                Seq::empty(),
                Seq::empty(),
                0,
                Stage::Failed(ScanError::DeviceNotFound),
            ),
        },
    decreases snapshots.len(),
{
    let wanted = wanted_address(command);
    let locating = SessionView { command, stage: Stage::Locating { index, count } };
    let rest = snapshots.drop_first();
    let event = EventView::Snapshot(snapshots[0]);
    first_match_is_first(snapshots, wanted);
    if is_target(snapshots[0], wanted) {
        let polling = SessionView { command, stage: Stage::Polling { index } };
        assert(snapshots.take(1).drop_first() =~= Seq::<PropertiesView>::empty());
        assert(snapshots.take(1)[0] == snapshots[0]);
        assert(locating_events(snapshots.take(1).drop_first()) =~= Seq::<EventView>::empty());
        assert(locating_events(snapshots.take(1)) =~= seq![event] + Seq::<EventView>::empty());
        assert(run_gives(
            polling,
            Seq::empty(),
            Seq::empty(),
            Seq::empty(),
            0,
            Stage::Polling { index },
        ));
        run_gives_step(
            locating,
            event,
            Seq::empty(),
            Seq::empty(),
            Seq::empty(),
            0,
            Stage::Polling { index },
        );
    } else if rest.len() == 0 {
        let failed = SessionView { command, stage: Stage::Failed(ScanError::DeviceNotFound) };
        assert(locating_events(rest) =~= Seq::<EventView>::empty());
        assert(locating_events(snapshots) =~= seq![event] + Seq::<EventView>::empty());
        assert(run_gives(
            failed,
            Seq::empty(),
            Seq::empty(),
            Seq::empty(),
            0,
            Stage::Failed(ScanError::DeviceNotFound),
        ));
        run_gives_step(
            locating,
            event,
            Seq::empty(),
            Seq::empty(),
            Seq::empty(),
            0,
            Stage::Failed(ScanError::DeviceNotFound),
        );
    } else {
        locating_from(command, (index + 1) as usize, count, rest);
        match first_match(rest, wanted) {
            Some(i) => {
                let seen = snapshots.take(i + 2);
                assert(seen[0] == snapshots[0]);
                assert(seen.drop_first() =~= rest.take(i + 1));
                run_gives_step(
                    locating,
                    event,
                    locating_events(rest.take(i + 1)),
                    Seq::empty(),
                    Seq::empty(),
                    0,
                    Stage::Polling { index: (index + 1 + i) as usize },
                );
            },
            None => {
                run_gives_step(
                    locating,
                    event,
                    locating_events(rest),
                    Seq::empty(),
                    Seq::empty(),
                    0,
                    Stage::Failed(ScanError::DeviceNotFound),
                );
            },
        }
    }
}

/// A watch on a host with an adapter suspends once, for the locate window,
/// and then goes through the discovered peripherals in order. Where the
/// wanted address names one of them, whatever the case of its letters, the
/// command starts to poll the first such peripheral, having fetched no
/// snapshot beyond it. Where it names none, the command ends with
/// `DeviceNotFound` and does nothing more: it writes nothing and does not
/// stop the scan.
pub proof fn watch_locates_first_match(
    address: Seq<char>,
    interval: u64,
    adapters: usize,
    snapshots: Seq<PropertiesView>,
)
    requires
        adapters > 0,
        snapshots.len() <= usize::MAX,
    ensures
        match first_match(snapshots, address) {
            Some(i) => 0 <= i < snapshots.len() && run_gives(
                initial(CommandView::Watch { address, interval }),
                opening_events(
                    adapters,
                    snapshots.len() as usize,
                    locating_events(snapshots.take(i + 1)),
                ),
                Seq::empty(),
                seq![LOCATE_WINDOW_SECS],
                0,
                Stage::Polling { index: i as usize },
            ),
            None => run_gives(
                initial(CommandView::Watch { address, interval }),
                opening_events(adapters, snapshots.len() as usize, locating_events(snapshots)),
                Seq::empty(),
                seq![LOCATE_WINDOW_SECS],
                0,
                Stage::Failed(ScanError::DeviceNotFound),
            ),
        },
{
    let command = CommandView::Watch { address, interval };
    let count = snapshots.len() as usize;
    let listing = SessionView { command, stage: Stage::Listing };
    let settling = SessionView { command, stage: Stage::Settling };
    let starting = SessionView { command, stage: Stage::Starting };
    let found = first_match(snapshots, address);
    let then = match found {
        Some(i) => locating_events(snapshots.take(i + 1)),
        None => locating_events(snapshots),
    };
    let end = match found {
        Some(i) => Stage::Polling { index: i as usize },
        None => Stage::Failed(ScanError::DeviceNotFound),
    };
    first_match_is_first(snapshots, address);
    if count == 0 {
        let failed = SessionView { command, stage: Stage::Failed(ScanError::DeviceNotFound) };
        assert(then =~= Seq::<EventView>::empty());
        assert(run_gives(failed, then, Seq::empty(), Seq::empty(), 0, end));
    } else {
        locating_from(command, 0, count, snapshots);
    }
    run_gives_step(listing, EventView::Peripherals(count), then, Seq::empty(), Seq::empty(), 0, end);
    let e3 = seq![EventView::Peripherals(count)] + then;
    run_gives_step(settling, EventView::Done, e3, Seq::empty(), Seq::empty(), 0, end);
    let e2 = seq![EventView::Done] + e3;
    run_gives_step(starting, EventView::Done, e2, Seq::empty(), Seq::empty(), 0, end);
    let e1 = seq![EventView::Done] + e2;
    run_gives_step(
        initial(command),
        EventView::Adapters(adapters),
        e1,
        Seq::empty(),
        seq![LOCATE_WINDOW_SECS],
        0,
        end,
    );
}

} // verus!
