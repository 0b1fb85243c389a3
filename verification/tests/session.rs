use roastcraft::config::{Config, Modbus, Serial, Tcp};
use roastcraft::devices::DeviceKind;
use roastcraft::error::{AcquisitionError, ProtocolFault};
use roastcraft::reading::{find_value, Decimal, Reading, Snapshot};
use roastcraft::session::{
    Phase, PollOutcome, Session, StartAction, StopAction, TickAction, POLL_DEADLINE_SECS, TICK_INTERVAL_SECS,
};

fn fieldbus_config() -> Config {
    let mut config = Config::new();
    config.serial = Some(Serial {
        port: "/dev/ttyUSB0".to_string(),
        baud_rate: 9600,
        data_bits: 8,
        parity: "none".to_string(),
        stop_bits: 1,
        modbus: Some(Modbus { protocol: "modbus-rtu".to_string(), slave: vec![] }),
        ta612c: None,
    });
    config.tcp = Some(Tcp { ip: "10.0.0.1".to_string(), port: 80, modbus: None, http: None });
    config
}

fn snapshot() -> Snapshot {
    Snapshot::Readings(vec![Reading { channel_id: "BT".to_string(), value: Decimal { digits: 2150, places: 2 } }])
}

fn running() -> (Session, u64) {
    let mut session = Session::with_config(fieldbus_config());
    let run = match session.start() {
        StartAction::Launch { run, .. } => run,
        other => panic!("expected a launch, got {:?}", other),
    };
    assert!(session.device_ready(run));
    (session, run)
}

#[test]
fn loop_ticks_every_two_seconds_under_a_ten_second_deadline() {
    assert_eq!(TICK_INTERVAL_SECS, 2);
    assert_eq!(POLL_DEADLINE_SECS, 10);
}

#[test]
fn new_session_is_idle_and_blank() {
    let session = Session::new();
    assert_eq!(session.phase(), Phase::Idle);
    assert_eq!(*session.config(), Config::new());
    let session = Session::with_config(fieldbus_config());
    assert_eq!(session.phase(), Phase::Idle);
    assert_eq!(*session.config(), fieldbus_config());
}

#[test]
fn start_launches_the_selected_device() {
    let mut session = Session::with_config(fieldbus_config());
    assert_eq!(session.start(), StartAction::Launch { run: 1, kind: DeviceKind::Fieldbus });
    assert_eq!(session.phase(), Phase::Starting);
    assert!(!session.tick(1));
    assert!(session.device_ready(1));
    assert_eq!(session.phase(), Phase::Running);
    assert!(session.tick(1));

    let mut blank = Session::new();
    assert_eq!(blank.start(), StartAction::Launch { run: 1, kind: DeviceKind::Http });
}

#[test]
fn second_start_is_a_no_op() {
    let mut session = Session::with_config(fieldbus_config());
    assert_eq!(session.start(), StartAction::Launch { run: 1, kind: DeviceKind::Fieldbus });
    assert_eq!(session.start(), StartAction::AlreadyActive);
    assert_eq!(session.phase(), Phase::Starting);
    assert!(session.device_ready(1));
    assert_eq!(session.start(), StartAction::AlreadyActive);
    assert_eq!(session.start(), StartAction::AlreadyActive);
    assert_eq!(session.phase(), Phase::Running);
    assert!(session.tick(1));
    assert!(!session.tick(2));
}

#[test]
fn stop_cancels_the_running_loop() {
    let (mut session, run) = running();
    assert_eq!(session.stop(), StopAction::Cancel { run });
    assert_eq!(session.phase(), Phase::Idle);
    assert!(!session.tick(run));
}

#[test]
fn stop_cancels_a_loop_that_is_still_starting() {
    let mut session = Session::with_config(fieldbus_config());
    session.start();
    assert_eq!(session.stop(), StopAction::Cancel { run: 1 });
    assert_eq!(session.phase(), Phase::Idle);
    assert!(!session.device_ready(1));
    assert_eq!(session.phase(), Phase::Idle);
}

#[test]
fn stop_while_idle_is_a_no_op() {
    let mut session = Session::new();
    assert_eq!(session.stop(), StopAction::NotRunning);
    assert_eq!(session.phase(), Phase::Idle);
    let (mut session, _) = running();
    session.stop();
    assert_eq!(session.stop(), StopAction::NotRunning);
}

#[test]
fn start_after_stop_launches_a_fresh_run() {
    let (mut session, first) = running();
    assert_eq!(session.stop(), StopAction::Cancel { run: first });
    let second = match session.start() {
        StartAction::Launch { run, kind } => {
            assert_eq!(kind, DeviceKind::Fieldbus);
            run
        },
        other => panic!("expected a launch, got {:?}", other),
    };
    assert_ne!(second, first);
    assert_eq!(session.phase(), Phase::Starting);
    assert!(!session.device_ready(first));
    assert_eq!(session.phase(), Phase::Starting);
    assert!(session.device_ready(second));
    assert!(!session.tick(first));
    assert!(session.tick(second));
    assert!(matches!(session.poll_finished(first, PollOutcome::Completed(snapshot())), TickAction::Halt));
}

#[test]
fn device_that_cannot_be_built_leaves_the_session_idle() {
    let mut session = Session::with_config(fieldbus_config());
    session.start();
    assert_eq!(
        session.device_failed(1, AcquisitionError::DeviceConstruction),
        Some(AcquisitionError::DeviceConstruction)
    );
    assert_eq!(session.phase(), Phase::Idle);
    assert!(!session.tick(1));
    assert_eq!(session.start(), StartAction::Launch { run: 2, kind: DeviceKind::Fieldbus });
}

#[test]
fn failure_of_a_stale_run_is_not_shown() {
    let (mut session, run) = running();
    assert_eq!(session.device_failed(run, AcquisitionError::DeviceConstruction), None);
    assert_eq!(session.phase(), Phase::Running);
    assert_eq!(session.device_failed(run + 1, AcquisitionError::Configuration), None);
    session.stop();
    session.start();
    assert_eq!(session.device_failed(run, AcquisitionError::Configuration), None);
    assert_eq!(session.phase(), Phase::Starting);
    assert_eq!(
        session.device_failed(run + 1, AcquisitionError::Configuration),
        Some(AcquisitionError::Configuration)
    );
}

#[test]
fn completed_poll_is_published() {
    let (session, run) = running();
    match session.poll_finished(run, PollOutcome::Completed(snapshot())) {
        TickAction::Publish(Snapshot::Readings(readings)) => {
            assert_eq!(readings.len(), 1);
            assert_eq!(readings[0].channel_id, "BT");
            assert_eq!(readings[0].value, Decimal { digits: 2150, places: 2 });
        },
        other => panic!("expected a publication, got {:?}", other),
    }
    assert!(matches!(
        session.poll_finished(run, PollOutcome::Completed(Snapshot::Empty)),
        TickAction::Publish(Snapshot::Empty)
    ));
}

#[test]
fn deadline_gives_a_timeout_and_the_loop_goes_on() {
    let (session, run) = running();
    match session.poll_finished(run, PollOutcome::DeadlineExceeded) {
        TickAction::Skip(error) => assert_eq!(error, AcquisitionError::Timeout),
        other => panic!("expected a skipped tick, got {:?}", other),
    }
    assert_eq!(session.phase(), Phase::Running);
    assert!(session.tick(run));
    assert!(matches!(session.poll_finished(run, PollOutcome::Completed(snapshot())), TickAction::Publish(_)));
}

#[test]
fn failed_poll_is_skipped_and_the_loop_goes_on() {
    let (session, run) = running();
    let checksum = AcquisitionError::Protocol(ProtocolFault::Checksum);
    match session.poll_finished(run, PollOutcome::Failed(checksum)) {
        TickAction::Skip(error) => assert_eq!(error, checksum),
        other => panic!("expected a skipped tick, got {:?}", other),
    }
    match session.poll_finished(run, PollOutcome::Failed(AcquisitionError::Transport)) {
        TickAction::Skip(error) => assert_eq!(error, AcquisitionError::Transport),
        other => panic!("expected a skipped tick, got {:?}", other),
    }
    assert!(session.tick(run));
    assert!(matches!(session.poll_finished(run, PollOutcome::Completed(snapshot())), TickAction::Publish(_)));
}

#[test]
fn poll_of_a_loop_that_is_not_ticking_is_halted() {
    let mut session = Session::with_config(fieldbus_config());
    assert!(matches!(session.poll_finished(0, PollOutcome::Completed(snapshot())), TickAction::Halt));
    session.start();
    assert!(matches!(session.poll_finished(1, PollOutcome::Completed(snapshot())), TickAction::Halt));
    session.device_ready(1);
    assert!(matches!(session.poll_finished(2, PollOutcome::DeadlineExceeded), TickAction::Halt));
    session.stop();
    assert!(matches!(session.poll_finished(1, PollOutcome::DeadlineExceeded), TickAction::Halt));
}

#[test]
fn snapshot_gives_each_channel_its_last_reading() {
    let bt = "BT".to_string();
    let et = "ET".to_string();
    let readings = Snapshot::Readings(vec![
        Reading { channel_id: "BT".to_string(), value: Decimal { digits: 2150, places: 2 } },
        Reading { channel_id: "ET".to_string(), value: Decimal { digits: 100, places: 2 } },
        Reading { channel_id: "BT".to_string(), value: Decimal { digits: 30, places: 2 } },
    ]);
    assert_eq!(readings.value_of(&bt), Some(Decimal { digits: 30, places: 2 }));
    assert_eq!(readings.value_of(&et), Some(Decimal { digits: 100, places: 2 }));
    assert_eq!(readings.value_of(&"IN".to_string()), None);
    assert_eq!(Snapshot::Readings(vec![]).value_of(&bt), None);
    assert_eq!(Snapshot::Empty.value_of(&bt), None);
    assert_eq!(Snapshot::Document(serde_json::Value::from(1)).value_of(&bt), None);
}

#[test]
fn find_value_compares_whole_names() {
    let readings = vec![
        Reading { channel_id: "BT".to_string(), value: Decimal { digits: 200, places: 1 } },
        Reading { channel_id: "BT2".to_string(), value: Decimal { digits: 300, places: 1 } },
    ];
    assert_eq!(find_value(&readings, &"BT".to_string()), Some(Decimal { digits: 200, places: 1 }));
    assert_eq!(find_value(&readings, &"BT2".to_string()), Some(Decimal { digits: 300, places: 1 }));
    assert_eq!(find_value(&readings, &"bt".to_string()), None);
    assert_eq!(find_value(&readings, &"".to_string()), None);
}
