use packet_capture::consumer::{Consumer, ConsumerAction, ConsumerEvent, ConsumerPhase};
use packet_capture::device::{labels, CaptureDevice, Device};
use packet_capture::persist::PacketRecord;
use packet_capture::session::{
    build_config, select_device, Coordinator, CoordinatorAction, CoordinatorEvent,
    CoordinatorPhase, SessionError,
};
use packet_capture::source::PacketSource;
use packet_capture::text::decode_payload;

fn device(name: &str, desc: Option<&str>) -> Device {
    Device { name: name.to_string(), desc: desc.map(|d| d.to_string()) }
}

#[test]
fn labels_follow_catalog_order() {
    let devices = vec![device("eth0", None), device("wlan0", Some("Wireless"))];
    let shown = CaptureDevice::into(&devices);
    assert_eq!(shown.len(), 2);
    assert_eq!(shown[1].0.name, "wlan0");
    assert_eq!(labels(&shown), vec!["No description - (eth0)", "Wireless - (wlan0)"]);
}

#[test]
fn empty_catalog_gives_no_labels() {
    assert!(CaptureDevice::into(&vec![]).is_empty());
}

#[test]
fn config_requires_a_name() {
    assert!(matches!(build_config(String::new()), Err(SessionError::InvalidSelection)));
    assert_eq!(build_config("lo".to_string()).unwrap().device_name(), "lo");
}

#[test]
fn selection_out_of_range_is_invalid() {
    let devices = vec![device("eth0", None)];
    assert!(matches!(select_device(&devices, 1), Err(SessionError::InvalidSelection)));
    assert!(matches!(select_device(&vec![], 0), Err(SessionError::InvalidSelection)));
    assert!(matches!(
        select_device(&vec![device("", None)], 0),
        Err(SessionError::InvalidSelection)
    ));
}

#[test]
fn single_device_single_packet() {
    let devices = vec![device("eth0", None)];
    let shown = CaptureDevice::into(&devices);
    assert_eq!(shown[0].label(), "No description - (eth0)");
    let config = select_device(&devices, 0).unwrap();
    assert_eq!(config.device_name(), "eth0");
    let coordinator = Coordinator::start(true).unwrap();
    assert_eq!(coordinator.phase(), CoordinatorPhase::Running);

    let mut consumer = Consumer::new();
    let rec = PacketRecord {
        id: "abc123".to_string(),
        source: PacketSource::Client,
        payload: vec![0x01, 0x02],
    };
    let plan = match consumer.handle(ConsumerEvent::Received(rec)) {
        ConsumerAction::Write(plan) => plan,
        _ => panic!("expected a write"),
    };
    assert!(plan.path.contains("abc123"));
    assert_eq!(decode_payload(&plan.content), Some(vec![0x01, 0x02]));
    assert!(plan.summary.contains("Client -> Server: abc123 of length 2 bytes"));
    assert!(matches!(consumer.handle(ConsumerEvent::Written), ConsumerAction::ReceiveNext));
    assert!(matches!(consumer.handle(ConsumerEvent::Closed), ConsumerAction::Finish));
}

#[test]
fn failed_start_launches_nothing() {
    assert!(matches!(Coordinator::start(false), Err(SessionError::Start)));
}

#[test]
fn interrupt_with_enqueued_records_drains_them() {
    let mut coordinator = Coordinator::start(true).unwrap();
    let mut consumer = Consumer::new();
    assert_eq!(coordinator.handle(CoordinatorEvent::Interrupt), CoordinatorAction::SendStop);
    assert_eq!(
        coordinator.handle(CoordinatorEvent::StopSent(true)),
        CoordinatorAction::AwaitDrain
    );
    assert_eq!(coordinator.phase(), CoordinatorPhase::Draining);

    let mut written = Vec::new();
    for id in ["r1", "r2", "r3"] {
        let rec = PacketRecord { id: id.to_string(), source: PacketSource::Server, payload: vec![9] };
        match consumer.handle(ConsumerEvent::Received(rec)) {
            ConsumerAction::Write(plan) => written.push(plan.path),
            _ => panic!("expected a write"),
        }
        assert!(matches!(consumer.handle(ConsumerEvent::Written), ConsumerAction::ReceiveNext));
    }
    assert!(matches!(consumer.handle(ConsumerEvent::Closed), ConsumerAction::Finish));
    assert_eq!(consumer.phase(), ConsumerPhase::Done);
    assert_eq!(written.len(), 3);

    assert_eq!(coordinator.handle(CoordinatorEvent::Drained), CoordinatorAction::Exit);
    assert_eq!(coordinator.phase(), CoordinatorPhase::Stopped);
    assert!(coordinator.outcome().is_ok());
}

#[test]
fn second_interrupt_is_ignored() {
    let mut coordinator = Coordinator::start(true).unwrap();
    assert_eq!(coordinator.handle(CoordinatorEvent::Interrupt), CoordinatorAction::SendStop);
    assert_eq!(coordinator.handle(CoordinatorEvent::Interrupt), CoordinatorAction::Ignore);
    assert_eq!(coordinator.phase(), CoordinatorPhase::ShuttingDown);
    coordinator.handle(CoordinatorEvent::StopSent(true));
    assert_eq!(coordinator.handle(CoordinatorEvent::Interrupt), CoordinatorAction::Ignore);
    coordinator.handle(CoordinatorEvent::Drained);
    assert_eq!(coordinator.handle(CoordinatorEvent::Interrupt), CoordinatorAction::Ignore);
    assert_eq!(coordinator.phase(), CoordinatorPhase::Stopped);
}

#[test]
fn undelivered_stop_signal_is_reported() {
    let mut coordinator = Coordinator::start(true).unwrap();
    coordinator.handle(CoordinatorEvent::Interrupt);
    assert_eq!(
        coordinator.handle(CoordinatorEvent::StopSent(false)),
        CoordinatorAction::AwaitDrain
    );
    assert_eq!(coordinator.handle(CoordinatorEvent::Drained), CoordinatorAction::Exit);
    assert_eq!(coordinator.outcome(), Err(SessionError::ShutdownSignal));
}

#[test]
fn drained_before_interrupt_is_ignored() {
    let mut coordinator = Coordinator::start(true).unwrap();
    assert_eq!(coordinator.handle(CoordinatorEvent::Drained), CoordinatorAction::Ignore);
    assert_eq!(coordinator.phase(), CoordinatorPhase::Running);
}
