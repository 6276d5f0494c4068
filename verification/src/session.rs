use vstd::prelude::*;
use vstd::string::*;
use crate::error::ScanError;
use crate::locator::{is_target, matches_target};
use crate::snapshot::{line_text, scan_line, Properties, PropertiesView};
use crate::text::{render_rssi, signed_decimal};

verus! {

/// How long discovery runs before a device is looked up, in seconds.
pub const LOCATE_WINDOW_SECS: u64 = 2;

/// What the user asked for.
#[derive(Clone, Debug, PartialEq, Eq)]
pub enum Command {
    /// Discover for `duration` seconds, then list what was seen.
    Scan { duration: u64 },
    /// Find the device with this address, then report its signal strength
    /// every `interval` seconds.
    Watch { address: String, interval: u64 },
}

/// The mathematical content of a [`Command`].
pub enum CommandView {
    Scan { duration: u64 },
    Watch { address: Seq<char>, interval: u64 },
}

impl View for Command {
    type V = CommandView;

    open spec fn view(&self) -> CommandView {
        match *self {
            Command::Scan { duration } => CommandView::Scan { duration },
            Command::Watch { address, interval } => CommandView::Watch {
                address: address@,
                interval,
            },
        }
    }
}

/// What the driver has to do next. The driver performs it and reports back
/// with an [`Event`].
#[derive(Debug, PartialEq, Eq)]
pub enum Action {
    /// Ask the host for its radio adapters; answered by `Adapters`.
    ResolveAdapter,
    /// Start an unfiltered discovery scan on the adapter at this position of
    /// the host's list; answered by `Done`.
    StartScan { adapter: usize },
    /// Suspend for this many seconds; answered by `Done`.
    Sleep(u64),
    /// Ask the adapter for the peripherals discovered so far; answered by
    /// `Peripherals`.
    ListPeripherals,
    /// Fetch the latest snapshot of the peripheral at this position of the
    /// list; answered by `Snapshot`.
    FetchProperties(usize),
    /// Write this line to standard output; answered by `Done`.
    Print(String),
    /// Stop the discovery scan; answered by `Done`.
    StopScan,
    /// End the command with this outcome. Nothing follows.
    Finish(Result<(), ScanError>),
}

/// The mathematical content of an [`Action`].
pub enum ActionView {
    ResolveAdapter,
    StartScan { adapter: usize },
    Sleep(u64),
    ListPeripherals,
    FetchProperties(usize),
    Print(Seq<char>),
    StopScan,
    Finish(Result<(), ScanError>),
}

impl View for Action {
    type V = ActionView;

    open spec fn view(&self) -> ActionView {
        match *self {
            Action::ResolveAdapter => ActionView::ResolveAdapter,
            Action::StartScan { adapter } => ActionView::StartScan { adapter },
            Action::Sleep(seconds) => ActionView::Sleep(seconds),
            Action::ListPeripherals => ActionView::ListPeripherals,
            Action::FetchProperties(index) => ActionView::FetchProperties(index),
            Action::Print(line) => ActionView::Print(line@),
            Action::StopScan => ActionView::StopScan,
            Action::Finish(outcome) => ActionView::Finish(outcome),
        }
    }
}

/// What the driver reports after performing an [`Action`].
#[derive(Clone, Debug)]
pub enum Event {
    /// The host has this many radio adapters.
    Adapters(usize),
    /// The scan was started or stopped, the sleep is over, or the line is
    /// written.
    Done,
    /// The adapter has discovered this many peripherals.
    Peripherals(usize),
    /// The snapshot that was asked for: the peripheral's address, and its
    /// name and signal strength as far as it has advertised them.
    Snapshot(Properties),
    /// The radio stack reported an error.
    Failed,
}

/// The mathematical content of an [`Event`].
pub enum EventView {
    Adapters(usize),
    Done,
    Peripherals(usize),
    Snapshot(PropertiesView),
    Failed,
}

impl View for Event {
    type V = EventView;

    open spec fn view(&self) -> EventView {
        match *self {
            Event::Adapters(count) => EventView::Adapters(count),
            Event::Done => EventView::Done,
            Event::Peripherals(count) => EventView::Peripherals(count),
            Event::Snapshot(snapshot) => EventView::Snapshot(snapshot@),
            Event::Failed => EventView::Failed,
        }
    }
}

/// Where a command stands: which answer it is waiting for.
#[derive(Clone, Copy, Debug, PartialEq, Eq, Structural)]
pub enum Stage {
    /// Waiting for the host's adapters.
    Resolving,
    /// Waiting for the scan to start.
    Starting,
    /// Waiting for the discovery window to pass.
    Settling,
    /// Waiting for the list of peripherals.
    Listing,
    /// Listing: waiting for the snapshot of peripheral `index` of `count`.
    Fetching { index: usize, count: usize },
    /// Listing: waiting for the line of peripheral `index` to be written.
    Printing { index: usize, count: usize },
    /// Listing: waiting for the scan to stop.
    Stopping,
    /// Locating: waiting for the snapshot of peripheral `index` of `count`.
    Locating { index: usize, count: usize },
    /// Polling: waiting for the snapshot of the located peripheral.
    Polling { index: usize },
    /// Polling: waiting for the signal strength to be written.
    Emitting { index: usize },
    /// Polling: waiting for the interval to pass.
    Pausing { index: usize },
    /// The command ended normally.
    Finished,
    /// The command ended with this error.
    Failed(ScanError),
}

/// One run of a command: what was asked and how far it has come.
#[derive(Clone, Debug, PartialEq, Eq)]
pub struct Session {
    pub command: Command,
    pub stage: Stage,
}

/// The mathematical content of a [`Session`].
pub struct SessionView {
    pub command: CommandView,
    pub stage: Stage,
}

impl View for Session {
    type V = SessionView;

    open spec fn view(&self) -> SessionView {
        SessionView { command: self.command@, stage: self.stage }
    }
}

/// The length of the discovery window of a command, in seconds.
pub open spec fn window(command: CommandView) -> u64 {
    match command {
        CommandView::Scan { duration } => duration,
        CommandView::Watch { .. } => LOCATE_WINDOW_SECS,
    }
}

/// The session in which a command begins.
pub open spec fn initial(command: CommandView) -> SessionView {
    SessionView { command, stage: Stage::Resolving }
}

/// The command has ended: nothing but `Finish` follows.
pub open spec fn is_over(stage: Stage) -> bool {
    stage is Finished || stage is Failed
}

/// The outcome that an ended command keeps reporting.
pub open spec fn outcome(stage: Stage) -> Result<(), ScanError> {
    match stage {
        Stage::Failed(e) => Err(e),
        _ => Ok(()),
    }
}

/// The command is watching a located device.
pub open spec fn is_polling(stage: Stage) -> bool {
    stage is Polling || stage is Emitting || stage is Pausing
}

/// The positions that a stage holds lie inside the list they refer to.
pub open spec fn positions_in_range(stage: Stage) -> bool {
    match stage {
        Stage::Fetching { index, count } => index < count,
        Stage::Printing { index, count } => index < count,
        Stage::Locating { index, count } => index < count,
        _ => true,
    }
}

/// The adapter to use where the host has `count` of them: the first, and
/// none where there is none.
pub open spec fn chosen_adapter(count: usize) -> Result<usize, ScanError> {
    if count == 0 {
        Err(ScanError::NoAdapterFound)
    } else {
        Ok(0)
    }
}

/// The address that a command looks for; a scan looks for none.
pub open spec fn wanted_address(command: CommandView) -> Seq<char> {
    match command {
        CommandView::Watch { address, .. } => address,
        CommandView::Scan { .. } => Seq::empty(),
    }
}

/// The stage and action with which a command ends in error.
pub open spec fn fail(error: ScanError) -> (Stage, ActionView) {
    (Stage::Failed(error), ActionView::Finish(Err(error)))
}

/// The stage that follows `stage` on `event`, and the action to perform.
///
/// An ended command stays as it is. Before that, a reported failure, or an
/// event that does not answer the action that was asked for, ends the
/// command with `AdapterError`.
pub open spec fn transition(command: CommandView, stage: Stage, event: EventView) -> (
    Stage,
    ActionView,
) {
    match (stage, event) {
        (Stage::Finished, _) => (stage, ActionView::Finish(Ok(()))),
        (Stage::Failed(e), _) => (stage, ActionView::Finish(Err(e))),
        (Stage::Resolving, EventView::Adapters(count)) => match chosen_adapter(count) {
            Ok(adapter) => (Stage::Starting, ActionView::StartScan { adapter }),
            Err(e) => fail(e),
        },
        (Stage::Starting, EventView::Done) => (Stage::Settling, ActionView::Sleep(window(command))),
        (Stage::Settling, EventView::Done) => (Stage::Listing, ActionView::ListPeripherals),
        (Stage::Listing, EventView::Peripherals(count)) => match command {
            CommandView::Scan { .. } => if count == 0 {
                (Stage::Stopping, ActionView::StopScan)
            } else {
                (Stage::Fetching { index: 0, count }, ActionView::FetchProperties(0))
            },
            CommandView::Watch { .. } => if count == 0 {
                fail(ScanError::DeviceNotFound)
            } else {
                (Stage::Locating { index: 0, count }, ActionView::FetchProperties(0))
            },
        },
        (Stage::Fetching { index, count }, EventView::Snapshot(snapshot)) => (
            Stage::Printing { index, count },
            ActionView::Print(line_text(snapshot)),
        ),
        (Stage::Printing { index, count }, EventView::Done) => if index + 1 < count {
            (
                Stage::Fetching { index: (index + 1) as usize, count },
                ActionView::FetchProperties((index + 1) as usize),
            )
        } else {
            (Stage::Stopping, ActionView::StopScan)
        },
        (Stage::Stopping, EventView::Done) => (Stage::Finished, ActionView::Finish(Ok(()))),
        (Stage::Locating { index, count }, EventView::Snapshot(snapshot)) => {
            if is_target(snapshot, wanted_address(command)) {
                (Stage::Polling { index }, ActionView::FetchProperties(index))
            } else if index + 1 < count {
                (
                    Stage::Locating { index: (index + 1) as usize, count },
                    ActionView::FetchProperties((index + 1) as usize),
                )
            } else {
                fail(ScanError::DeviceNotFound)
            }
        },
        (Stage::Polling { index }, EventView::Snapshot(snapshot)) => match snapshot.rssi {
            Some(v) => (Stage::Emitting { index }, ActionView::Print(signed_decimal(v as int))),
            None => (Stage::Pausing { index }, ActionView::Sleep(poll_interval(command))),
        },
        (Stage::Emitting { index }, EventView::Done) => (
            Stage::Pausing { index },
            ActionView::Sleep(poll_interval(command)),
        ),
        (Stage::Pausing { index }, EventView::Done) => (
            Stage::Polling { index },
            ActionView::FetchProperties(index),
        ),
        _ => fail(ScanError::AdapterError),
    }
}

/// The time between two polls of a watched device, in seconds.
pub open spec fn poll_interval(command: CommandView) -> u64 {
    match command {
        CommandView::Watch { interval, .. } => interval,
        CommandView::Scan { .. } => 0,
    }
}

/// The session that follows `session` on `event`, and the action to perform.
pub open spec fn next(session: SessionView, event: EventView) -> (SessionView, ActionView) {
    let (stage, action) = transition(session.command, session.stage, event);
    (SessionView { command: session.command, stage }, action)
}

/// Picks the adapter to use among the `count` that the host reported, by
/// its position in the host's list: the first one. Fails with
/// `NoAdapterFound` where the host has none.
pub fn select_adapter(count: usize) -> (choice: Result<usize, ScanError>)
    ensures
        choice == chosen_adapter(count),
{
    if count == 0 {
        Err(ScanError::NoAdapterFound)
    } else {
        Ok(0)
    }
}

impl Command {
    /// The length of the discovery window, in seconds.
    pub fn window(&self) -> (seconds: u64)
        ensures
            seconds == window(self@),
    {
        match self {
            Command::Scan { duration } => *duration,
            Command::Watch { .. } => LOCATE_WINDOW_SECS,
        }
    }

    /// The time between two polls, in seconds.
    pub fn poll_interval(&self) -> (seconds: u64)
        ensures
            seconds == poll_interval(self@),
    {
        match self {
            Command::Scan { .. } => 0,
            Command::Watch { interval, .. } => *interval,
        }
    }

    /// Tells whether a peripheral is the device that the command looks for.
    pub fn wants(&self, snapshot: &Properties) -> (found: bool)
        ensures
            found == is_target(snapshot@, wanted_address(self@)),
    {
        match self {
            Command::Scan { .. } => {
                proof {
                    reveal_strlit("");
                }
                matches_target(snapshot, "")
            },
            Command::Watch { address, .. } => matches_target(snapshot, address.as_str()),
        }
    }
}

impl Session {
    /// Begins a command: the session awaits the host's adapters, and the
    /// first thing to do is to ask for them.
    pub fn start(command: Command) -> (opening: (Session, Action))
        ensures
            opening.0@ == initial(command@),
            opening.1@ == ActionView::ResolveAdapter,
    {
        (Session { command, stage: Stage::Resolving }, Action::ResolveAdapter)
    }

    /// Ends the command in error.
    fn fail(&mut self, error: ScanError) -> (action: Action)
        ensures
            final(self).command == old(self).command,
            (final(self).stage, action@) == fail(error),
    {
        self.stage = Stage::Failed(error);
        Action::Finish(Err(error))
    }

    /// Takes the driver's report on the last action, moves the session on and
    /// says what to do next.
    pub fn step(&mut self, event: Event) -> (action: Action)
        ensures
            (final(self)@, action@) == next(old(self)@, event@),
    {
        match (self.stage, event) {
            (Stage::Finished, _) => Action::Finish(Ok(())),
            (Stage::Failed(e), _) => Action::Finish(Err(e)),
            (Stage::Resolving, Event::Adapters(count)) => match select_adapter(count) {
                Ok(adapter) => {
                    self.stage = Stage::Starting;
                    Action::StartScan { adapter }
                },
                Err(e) => self.fail(e),
            },
            (Stage::Starting, Event::Done) => {
                self.stage = Stage::Settling;
                Action::Sleep(self.command.window())
            },
            (Stage::Settling, Event::Done) => {
                self.stage = Stage::Listing;
                Action::ListPeripherals
            },
            (Stage::Listing, Event::Peripherals(count)) => {
                let listing = match &self.command {
                    Command::Scan { .. } => true,
                    Command::Watch { .. } => false,
                };
                if count == 0 {
                    if listing {
                        self.stage = Stage::Stopping;
                        Action::StopScan
                    } else {
                        self.fail(ScanError::DeviceNotFound)
                    }
                } else {
                    if listing {
                        self.stage = Stage::Fetching { index: 0, count };
                    } else {
                        self.stage = Stage::Locating { index: 0, count };
                    }
                    Action::FetchProperties(0)
                }
            },
            (Stage::Fetching { index, count }, Event::Snapshot(snapshot)) => {
                self.stage = Stage::Printing { index, count };
                Action::Print(scan_line(&snapshot))
            },
            (Stage::Printing { index, count }, Event::Done) => {
                if count > 0 && index < count - 1 {
                    self.stage = Stage::Fetching { index: index + 1, count };
                    Action::FetchProperties(index + 1)
                } else {
                    self.stage = Stage::Stopping;
                    Action::StopScan
                }
            },
            (Stage::Stopping, Event::Done) => {
                self.stage = Stage::Finished;
                Action::Finish(Ok(()))
            },
            (Stage::Locating { index, count }, Event::Snapshot(snapshot)) => {
                if self.command.wants(&snapshot) {
                    self.stage = Stage::Polling { index };
                    Action::FetchProperties(index)
                } else if count > 0 && index < count - 1 {
                    self.stage = Stage::Locating { index: index + 1, count };
                    Action::FetchProperties(index + 1)
                } else {
                    self.fail(ScanError::DeviceNotFound)
                }
            },
            (Stage::Polling { index }, Event::Snapshot(snapshot)) => {
                match snapshot.rssi {
                    Some(v) => {
                        self.stage = Stage::Emitting { index };
                        Action::Print(render_rssi(v))
                    },
                    None => {
                        self.stage = Stage::Pausing { index };
                        Action::Sleep(self.command.poll_interval())
                    },
                }
            },
            (Stage::Emitting { index }, Event::Done) => {
                self.stage = Stage::Pausing { index };
                Action::Sleep(self.command.poll_interval())
            },
            (Stage::Pausing { index }, Event::Done) => {
                self.stage = Stage::Polling { index };
                Action::FetchProperties(index)
            },
            _ => self.fail(ScanError::AdapterError),
        }
    }
}

} // verus!
