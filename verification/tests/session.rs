use ble_scanner::error::ScanError;
use ble_scanner::session::{select_adapter, Action, Command, Event, Session, Stage, LOCATE_WINDOW_SECS};
use ble_scanner::snapshot::Properties;

fn sensor(rssi: Option<i16>) -> Properties {
    Properties {
        address: String::from("AA:BB:CC:DD:EE:FF"),
        name: Some(String::from("Sensor1")),
        rssi,
    }
}

fn other() -> Properties {
    Properties { address: String::from("11:22:33:44:55:66"), name: None, rssi: Some(-71) }
}

/// A peripheral that has advertised nothing yet.
fn silent(address: &str) -> Properties {
    Properties { address: String::from(address), name: None, rssi: None }
}

fn watch(address: &str, interval: u64) -> Command {
    Command::Watch { address: String::from(address), interval }
}

/// Feeds the events to a fresh session and gives the actions asked for,
/// the opening one first.
fn run(command: Command, events: Vec<Event>) -> (Session, Vec<Action>) {
    let (mut session, first) = Session::start(command);
    let mut actions = vec![first];
    for event in events {
        actions.push(session.step(event));
    }
    (session, actions)
}

fn printed(actions: &[Action]) -> Vec<String> {
    let mut lines = Vec::new();
    for action in actions {
        if let Action::Print(line) = action {
            lines.push(line.clone());
        }
    }
    lines
}

#[test]
fn first_adapter_is_chosen() {
    assert_eq!(select_adapter(0), Err(ScanError::NoAdapterFound));
    assert_eq!(select_adapter(1), Ok(0));
    assert_eq!(select_adapter(3), Ok(0));
    assert_eq!(select_adapter(usize::MAX), Ok(0));
}

#[test]
fn command_begins_by_resolving_the_adapter() {
    let (session, action) = Session::start(Command::Scan { duration: 10 });
    assert_eq!(action, Action::ResolveAdapter);
    assert_eq!(session.stage, Stage::Resolving);
    assert_eq!(session.command, Command::Scan { duration: 10 });
}

#[test]
fn scan_of_one_sensor_prints_its_line() {
    let (session, actions) = run(
        Command::Scan { duration: 1 },
        vec![
            Event::Adapters(1),
            Event::Done,
            Event::Done,
            Event::Peripherals(1),
            Event::Snapshot(sensor(Some(-60))),
            Event::Done,
            Event::Done,
        ],
    );
    assert_eq!(
        actions,
        vec![
            Action::ResolveAdapter,
            Action::StartScan { adapter: 0 },
            Action::Sleep(1),
            Action::ListPeripherals,
            Action::FetchProperties(0),
            Action::Print(String::from("AA:BB:CC:DD:EE:FF\t-60\tSensor1")),
            Action::StopScan,
            Action::Finish(Ok(())),
        ]
    );
    assert_eq!(session.stage, Stage::Finished);
}

#[test]
fn scan_prints_one_line_for_each_peripheral() {
    let (session, actions) = run(
        Command::Scan { duration: 10 },
        vec![
            Event::Adapters(2),
            Event::Done,
            Event::Done,
            Event::Peripherals(3),
            Event::Snapshot(other()),
            Event::Done,
            Event::Snapshot(silent("0A:0B:0C:0D:0E:0F")),
            Event::Done,
            Event::Snapshot(sensor(None)),
            Event::Done,
            Event::Done,
        ],
    );
    assert_eq!(
        printed(&actions),
        vec![
            String::from("11:22:33:44:55:66\t-71\t"),
            String::from("0A:0B:0C:0D:0E:0F\t\t"),
            String::from("AA:BB:CC:DD:EE:FF\t\tSensor1"),
        ]
    );
    assert_eq!(actions[2], Action::Sleep(10));
    assert_eq!(actions[6], Action::FetchProperties(1));
    assert_eq!(actions[8], Action::FetchProperties(2));
    assert_eq!(actions[10], Action::StopScan);
    assert_eq!(actions[11], Action::Finish(Ok(())));
    assert_eq!(session.stage, Stage::Finished);
}

#[test]
fn scan_of_zero_seconds_still_lists_and_stops() {
    let (session, actions) = run(
        Command::Scan { duration: 0 },
        vec![Event::Adapters(1), Event::Done, Event::Done, Event::Peripherals(0), Event::Done],
    );
    assert_eq!(
        actions,
        vec![
            Action::ResolveAdapter,
            Action::StartScan { adapter: 0 },
            Action::Sleep(0),
            Action::ListPeripherals,
            Action::StopScan,
            Action::Finish(Ok(())),
        ]
    );
    assert_eq!(session.stage, Stage::Finished);
}

#[test]
fn host_without_adapter_ends_the_command() {
    let (session, actions) = run(Command::Scan { duration: 5 }, vec![Event::Adapters(0)]);
    assert_eq!(actions[1], Action::Finish(Err(ScanError::NoAdapterFound)));
    assert_eq!(session.stage, Stage::Failed(ScanError::NoAdapterFound));
    let (session, actions) = run(watch("AA:BB:CC:DD:EE:FF", 1), vec![Event::Adapters(0)]);
    assert_eq!(actions[1], Action::Finish(Err(ScanError::NoAdapterFound)));
    assert_eq!(session.stage, Stage::Failed(ScanError::NoAdapterFound));
}

#[test]
fn failure_of_the_stack_ends_the_command_at_every_stage() {
    let script = vec![
        Event::Adapters(1),
        Event::Done,
        Event::Done,
        Event::Peripherals(2),
        Event::Snapshot(other()),
        Event::Done,
        Event::Snapshot(sensor(Some(-60))),
        Event::Done,
        Event::Done,
    ];
    for cut in 0..script.len() {
        let mut events: Vec<Event> = script[..cut].to_vec();
        events.push(Event::Failed);
        let (session, actions) = run(Command::Scan { duration: 3 }, events);
        assert_eq!(actions[cut + 1], Action::Finish(Err(ScanError::AdapterError)));
        assert_eq!(session.stage, Stage::Failed(ScanError::AdapterError));
        assert_eq!(printed(&actions).len(), if cut < 5 { 0 } else if cut < 7 { 1 } else { 2 });
    }
}

#[test]
fn failed_fetch_keeps_the_lines_already_printed_and_does_not_stop_the_scan() {
    let (_, actions) = run(
        Command::Scan { duration: 3 },
        vec![
            Event::Adapters(1),
            Event::Done,
            Event::Done,
            Event::Peripherals(2),
            Event::Snapshot(other()),
            Event::Done,
            Event::Failed,
        ],
    );
    assert_eq!(printed(&actions), vec![String::from("11:22:33:44:55:66\t-71\t")]);
    assert!(!actions.contains(&Action::StopScan));
    assert_eq!(actions[7], Action::Finish(Err(ScanError::AdapterError)));
}

#[test]
fn watch_locates_ignoring_case_and_prints_the_signal_at_each_interval() {
    let (mut session, actions) = run(
        watch("aa:bb:cc:dd:ee:ff", 2),
        vec![
            Event::Adapters(1),
            Event::Done,
            Event::Done,
            Event::Peripherals(2),
            Event::Snapshot(other()),
            Event::Snapshot(sensor(Some(-60))),
        ],
    );
    assert_eq!(
        actions,
        vec![
            Action::ResolveAdapter,
            Action::StartScan { adapter: 0 },
            Action::Sleep(LOCATE_WINDOW_SECS),
            Action::ListPeripherals,
            Action::FetchProperties(0),
            Action::FetchProperties(1),
            Action::FetchProperties(1),
        ]
    );
    assert_eq!(session.stage, Stage::Polling { index: 1 });
    for _ in 0..5 {
        assert_eq!(
            session.step(Event::Snapshot(sensor(Some(-60)))),
            Action::Print(String::from("-60"))
        );
        assert_eq!(session.step(Event::Done), Action::Sleep(2));
        assert_eq!(session.step(Event::Done), Action::FetchProperties(1));
        assert_eq!(session.stage, Stage::Polling { index: 1 });
    }
}

#[test]
fn locate_window_is_two_seconds() {
    assert_eq!(LOCATE_WINDOW_SECS, 2);
    assert_eq!(watch("x", 9).window(), 2);
    assert_eq!(watch("x", 9).poll_interval(), 9);
    assert_eq!(Command::Scan { duration: 7 }.window(), 7);
}

#[test]
fn watch_stops_looking_at_the_first_match() {
    let (session, actions) = run(
        watch("AA:BB:CC:DD:EE:FF", 1),
        vec![
            Event::Adapters(1),
            Event::Done,
            Event::Done,
            Event::Peripherals(3),
            Event::Snapshot(sensor(None)),
        ],
    );
    assert_eq!(actions[5], Action::FetchProperties(0));
    assert_eq!(session.stage, Stage::Polling { index: 0 });
}

#[test]
fn watch_without_a_match_fails_and_does_nothing_more() {
    let (mut session, actions) = run(
        watch("AA:BB:CC:DD:EE:F0", 1),
        vec![
            Event::Adapters(1),
            Event::Done,
            Event::Done,
            Event::Peripherals(2),
            Event::Snapshot(other()),
            Event::Snapshot(sensor(Some(-60))),
        ],
    );
    assert_eq!(actions[6], Action::Finish(Err(ScanError::DeviceNotFound)));
    assert_eq!(session.stage, Stage::Failed(ScanError::DeviceNotFound));
    assert!(printed(&actions).is_empty());
    assert!(!actions.contains(&Action::StopScan));
    for event in [Event::Done, Event::Failed, Event::Snapshot(sensor(Some(-60))), Event::Adapters(1)]
    {
        assert_eq!(session.step(event), Action::Finish(Err(ScanError::DeviceNotFound)));
        assert_eq!(session.stage, Stage::Failed(ScanError::DeviceNotFound));
    }
}

#[test]
fn watch_for_the_empty_address_finds_no_peripheral() {
    let (session, actions) = run(
        watch("", 1),
        vec![
            Event::Adapters(1),
            Event::Done,
            Event::Done,
            Event::Peripherals(1),
            Event::Snapshot(silent("AA:BB:CC:DD:EE:FF")),
        ],
    );
    assert_eq!(actions[5], Action::Finish(Err(ScanError::DeviceNotFound)));
    assert_eq!(session.stage, Stage::Failed(ScanError::DeviceNotFound));
    assert!(printed(&actions).is_empty());
}

#[test]
fn watch_locates_a_peripheral_that_has_advertised_nothing() {
    let (session, actions) = run(
        watch("aa:bb:cc:dd:ee:ff", 1),
        vec![
            Event::Adapters(1),
            Event::Done,
            Event::Done,
            Event::Peripherals(1),
            Event::Snapshot(silent("AA:BB:CC:DD:EE:FF")),
        ],
    );
    assert_eq!(actions[5], Action::FetchProperties(0));
    assert_eq!(session.stage, Stage::Polling { index: 0 });
}

#[test]
fn scan_lists_a_silent_peripheral_under_its_address() {
    let (_, actions) = run(
        Command::Scan { duration: 1 },
        vec![
            Event::Adapters(1),
            Event::Done,
            Event::Done,
            Event::Peripherals(1),
            Event::Snapshot(silent("AA:BB:CC:DD:EE:FF")),
            Event::Done,
            Event::Done,
        ],
    );
    assert_eq!(printed(&actions), vec![String::from("AA:BB:CC:DD:EE:FF\t\t")]);
}

#[test]
fn watch_with_no_peripheral_at_all_fails() {
    let (session, actions) = run(
        watch("AA:BB:CC:DD:EE:FF", 1),
        vec![Event::Adapters(1), Event::Done, Event::Done, Event::Peripherals(0)],
    );
    assert_eq!(actions[4], Action::Finish(Err(ScanError::DeviceNotFound)));
    assert_eq!(session.stage, Stage::Failed(ScanError::DeviceNotFound));
}

#[test]
fn poll_without_signal_prints_nothing_and_goes_on() {
    let mut session = Session { command: watch("AA:BB:CC:DD:EE:FF", 1), stage: Stage::Polling { index: 4 } };
    assert_eq!(session.step(Event::Snapshot(sensor(None))), Action::Sleep(1));
    assert_eq!(session.stage, Stage::Pausing { index: 4 });
    assert_eq!(session.step(Event::Done), Action::FetchProperties(4));
    assert_eq!(session.step(Event::Snapshot(silent("AA:BB:CC:DD:EE:FF"))), Action::Sleep(1));
    assert_eq!(session.step(Event::Done), Action::FetchProperties(4));
    assert_eq!(session.step(Event::Snapshot(sensor(Some(-48)))), Action::Print(String::from("-48")));
    assert_eq!(session.stage, Stage::Emitting { index: 4 });
    assert_eq!(session.step(Event::Done), Action::Sleep(1));
    assert_eq!(session.step(Event::Done), Action::FetchProperties(4));
    assert_eq!(session.stage, Stage::Polling { index: 4 });
}

#[test]
fn watch_prints_at_most_one_line_for_each_interval() {
    let (mut session, _) = run(
        watch("aa:bb:cc:dd:ee:ff", 1),
        vec![
            Event::Adapters(1),
            Event::Done,
            Event::Done,
            Event::Peripherals(1),
            Event::Snapshot(sensor(Some(-60))),
        ],
    );
    let readings = [Some(-60), None, Some(-61), Some(-61), None, None, Some(-59)];
    let mut lines = 0;
    let mut pauses = 0;
    for reading in readings {
        let mut action = session.step(Event::Snapshot(sensor(reading)));
        if let Action::Print(_) = action {
            lines += 1;
            assert!(lines <= pauses + 1);
            action = session.step(Event::Done);
        }
        assert_eq!(action, Action::Sleep(1));
        pauses += 1;
        assert_eq!(session.step(Event::Done), Action::FetchProperties(0));
    }
    assert_eq!(lines, 4);
    assert_eq!(pauses, 7);
}

#[test]
fn failed_poll_ends_the_watch() {
    let mut session = Session { command: watch("AA:BB:CC:DD:EE:FF", 1), stage: Stage::Polling { index: 0 } };
    assert_eq!(session.step(Event::Failed), Action::Finish(Err(ScanError::AdapterError)));
    assert_eq!(session.stage, Stage::Failed(ScanError::AdapterError));
}

#[test]
fn event_that_answers_nothing_counts_as_a_failure() {
    let mut session = Session { command: Command::Scan { duration: 1 }, stage: Stage::Resolving };
    assert_eq!(session.step(Event::Done), Action::Finish(Err(ScanError::AdapterError)));
    let mut session = Session { command: Command::Scan { duration: 1 }, stage: Stage::Listing };
    assert_eq!(session.step(Event::Adapters(1)), Action::Finish(Err(ScanError::AdapterError)));
    let mut session =
        Session { command: Command::Scan { duration: 1 }, stage: Stage::Fetching { index: 0, count: 1 } };
    assert_eq!(session.step(Event::Peripherals(1)), Action::Finish(Err(ScanError::AdapterError)));
    assert_eq!(session.stage, Stage::Failed(ScanError::AdapterError));
}

#[test]
fn finished_scan_stays_finished() {
    let mut session = Session { command: Command::Scan { duration: 1 }, stage: Stage::Finished };
    for event in [Event::Done, Event::Failed, Event::Peripherals(3), Event::Snapshot(other())] {
        assert_eq!(session.step(event), Action::Finish(Ok(())));
        assert_eq!(session.stage, Stage::Finished);
    }
}

#[test]
fn last_peripheral_of_the_largest_list_ends_the_listing() {
    let mut session = Session {
        command: Command::Scan { duration: 1 },
        stage: Stage::Printing { index: usize::MAX - 1, count: usize::MAX },
    };
    assert_eq!(session.step(Event::Done), Action::StopScan);
    let mut session = Session {
        command: Command::Scan { duration: 1 },
        stage: Stage::Printing { index: usize::MAX - 2, count: usize::MAX },
    };
    assert_eq!(session.step(Event::Done), Action::FetchProperties(usize::MAX - 1));
}
