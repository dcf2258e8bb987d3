use hr_osc_bridge::advertisement::{AdvertisementEvent, ManufacturerData};
use hr_osc_bridge::codec::{connection_status_message, heart_rate_message};
use hr_osc_bridge::config::{TARGET_COMPANY_ID, UNKNOWN_DEVICE_NAME};
use hr_osc_bridge::decoder::HeartRateReading;
use hr_osc_bridge::pipeline::{Pipeline, Step};
use hr_osc_bridge::sink::{dispatch, Dispatch, MessageKind, Report};

fn broadcast(name: &str, vendor_id: u16, bytes: &[u8]) -> AdvertisementEvent {
    AdvertisementEvent {
        device_name: Some(name.to_string()),
        signal_strength: Some(-48),
        manufacturer: Some(ManufacturerData { vendor_id, bytes: bytes.to_vec() }),
    }
}

/// Runs one broadcast as a driver would, over a transport that delivers everything.
/// Returns the datagrams sent and the number of confirmation lines.
fn run(pipeline: &mut Pipeline, event: &AdvertisementEvent) -> (Vec<Vec<u8>>, usize) {
    let mut sent = Vec::new();
    let mut confirmations = 0;
    if let Step::Forward { heart_rate, connection_status, .. } = pipeline.process(event) {
        let messages = [
            (MessageKind::HeartRate, heart_rate),
            (MessageKind::ConnectionStatus, connection_status),
        ];
        for (kind, message) in messages {
            match dispatch(&message) {
                Dispatch::Transmit(bytes) => {
                    sent.push(bytes);
                    if pipeline.record(kind, true) == Report::Confirmation {
                        confirmations += 1;
                    }
                },
                Dispatch::EncodingFailed(_) => {},
            }
        }
    }
    (sent, confirmations)
}

#[test]
fn new_pipeline_has_nothing_locked_or_logged() {
    let pipeline = Pipeline::new();
    assert!(!pipeline.lock().is_set());
    assert!(!pipeline.log().is_logged(MessageKind::HeartRate));
    assert!(!pipeline.log().is_logged(MessageKind::ConnectionStatus));
}

#[test]
fn first_event_locks_decodes_and_yields_both_messages() {
    let mut pipeline = Pipeline::new();
    let step = pipeline.process(&broadcast("Ring A", TARGET_COMPANY_ID, &[0, 0, 0, 80]));
    let reading = HeartRateReading { raw_byte: 80, normalized: (80.0_f32 * 0.005_f32).to_bits() };
    assert_eq!(
        step,
        Step::Forward {
            device_name: "Ring A".to_string(),
            signal_strength: -48,
            first_sighting: true,
            reading,
            heart_rate: heart_rate_message(&reading),
            connection_status: connection_status_message(),
        },
    );
    assert_eq!(format!("{:.3}", f32::from_bits(reading.normalized)), "0.400");
    assert_eq!(pipeline.lock().name(), Some("Ring A".to_string()));
    // nothing is logged before a send is reported
    assert!(!pipeline.log().is_logged(MessageKind::HeartRate));
    assert!(!pipeline.log().is_logged(MessageKind::ConnectionStatus));
}

#[test]
fn end_to_end_three_events() {
    let mut pipeline = Pipeline::new();

    let (sent, confirmations) =
        run(&mut pipeline, &broadcast("Ring A", TARGET_COMPANY_ID, &[0, 0, 0, 80]));
    assert_eq!(pipeline.lock().name(), Some("Ring A".to_string()));
    assert_eq!(sent.len(), 2);
    assert_eq!(sent[0], b"/avatar/parameters/hr_percent\0\0\0,f\0\0\x3E\xCC\xCC\xCC".to_vec());
    assert_eq!(sent[1], b"/avatar/parameters/hr_connected\0,T\0\0".to_vec());
    assert_eq!(confirmations, 2);
    assert!(pipeline.log().is_logged(MessageKind::HeartRate));
    assert!(pipeline.log().is_logged(MessageKind::ConnectionStatus));

    let (sent, confirmations) = run(&mut pipeline, &broadcast("Ring A", 0x004C, &[0, 0, 0, 80]));
    assert!(sent.is_empty());
    assert_eq!(confirmations, 0);
    assert_eq!(pipeline.lock().name(), Some("Ring A".to_string()));

    let (sent, confirmations) =
        run(&mut pipeline, &broadcast("Ring B", TARGET_COMPANY_ID, &[0, 0, 0, 80]));
    assert!(sent.is_empty());
    assert_eq!(confirmations, 0);
    assert_eq!(pipeline.lock().name(), Some("Ring A".to_string()));
}

#[test]
fn vendor_mismatch_is_rejected_with_nothing_sent() {
    let mut pipeline = Pipeline::new();
    assert_eq!(pipeline.process(&broadcast("Ring A", 0x0059, &[0, 0, 0, 80])), Step::Rejected);
    assert!(!pipeline.lock().is_set());
    run(&mut pipeline, &broadcast("Ring A", TARGET_COMPANY_ID, &[0, 0, 0, 80]));
    assert_eq!(pipeline.process(&broadcast("Ring A", 0x0059, &[0, 0, 0, 80])), Step::Rejected);
    assert_eq!(pipeline.lock().name(), Some("Ring A".to_string()));
}

#[test]
fn other_name_is_rejected_despite_a_valid_payload() {
    let mut pipeline = Pipeline::new();
    run(&mut pipeline, &broadcast("Ring A", TARGET_COMPANY_ID, &[0, 0, 0, 80]));
    assert_eq!(
        pipeline.process(&broadcast("Ring B", TARGET_COMPANY_ID, &[0, 0, 0, 80])),
        Step::Rejected,
    );
    assert_eq!(pipeline.lock().name(), Some("Ring A".to_string()));
}

#[test]
fn later_events_are_sent_without_confirmation() {
    let mut pipeline = Pipeline::new();
    let (_, confirmations) =
        run(&mut pipeline, &broadcast("Ring A", TARGET_COMPANY_ID, &[0, 0, 0, 80]));
    assert_eq!(confirmations, 2);
    for raw in [81u8, 82, 0, 255] {
        let (sent, confirmations) =
            run(&mut pipeline, &broadcast("Ring A", TARGET_COMPANY_ID, &[0, 0, 0, raw]));
        assert_eq!(sent.len(), 2);
        assert_eq!(&sent[0][36..], &(raw as f32 * 0.005_f32).to_be_bytes());
        assert_eq!(confirmations, 0);
    }
}

#[test]
fn short_payload_sends_nothing_but_still_locks() {
    for length in 0..4usize {
        let mut pipeline = Pipeline::new();
        let bytes = vec![80u8; length];
        let step = pipeline.process(&broadcast("Ring A", TARGET_COMPANY_ID, &bytes));
        assert_eq!(
            step,
            Step::InsufficientData {
                device_name: "Ring A".to_string(),
                signal_strength: -48,
                first_sighting: true,
                observed_len: length,
                required_len: 4,
            },
        );
        assert_eq!(pipeline.lock().name(), Some("Ring A".to_string()));
        assert!(!pipeline.log().is_logged(MessageKind::HeartRate));
        assert!(!pipeline.log().is_logged(MessageKind::ConnectionStatus));
        let (sent, confirmations) =
            run(&mut pipeline, &broadcast("Ring A", TARGET_COMPANY_ID, &bytes));
        assert!(sent.is_empty());
        assert_eq!(confirmations, 0);
    }
}

#[test]
fn short_payload_of_a_rejected_device_changes_nothing() {
    let mut pipeline = Pipeline::new();
    assert_eq!(pipeline.process(&broadcast("Ring A", 0x0006, &[1, 2])), Step::Rejected);
    assert!(!pipeline.lock().is_set());
    run(&mut pipeline, &broadcast("Ring A", TARGET_COMPANY_ID, &[0, 0, 0, 80]));
    assert_eq!(pipeline.process(&broadcast("Ring B", TARGET_COMPANY_ID, &[1, 2])), Step::Rejected);
    assert_eq!(pipeline.lock().name(), Some("Ring A".to_string()));
}

#[test]
fn second_sighting_is_not_a_first_sighting() {
    let mut pipeline = Pipeline::new();
    pipeline.process(&broadcast("Ring A", TARGET_COMPANY_ID, &[]));
    match pipeline.process(&broadcast("Ring A", TARGET_COMPANY_ID, &[0, 0, 0, 90])) {
        Step::Forward { first_sighting, reading, .. } => {
            assert!(!first_sighting);
            assert_eq!(reading.raw_byte, 90);
        },
        other => panic!("unexpected step {:?}", other),
    }
    match pipeline.process(&broadcast("Ring A", TARGET_COMPANY_ID, &[1, 2, 3])) {
        Step::InsufficientData { first_sighting, observed_len, required_len, .. } => {
            assert!(!first_sighting);
            assert_eq!((observed_len, required_len), (3, 4));
        },
        other => panic!("unexpected step {:?}", other),
    }
}

#[test]
fn missing_name_and_signal_strength_have_defaults() {
    let mut pipeline = Pipeline::new();
    let event = AdvertisementEvent {
        device_name: None,
        signal_strength: None,
        manufacturer: Some(ManufacturerData {
            vendor_id: TARGET_COMPANY_ID,
            bytes: vec![0, 0, 0, 100],
        }),
    };
    match pipeline.process(&event) {
        Step::Forward { device_name, signal_strength, reading, .. } => {
            assert_eq!(device_name, UNKNOWN_DEVICE_NAME);
            assert_eq!(signal_strength, 0);
            assert_eq!(f32::from_bits(reading.normalized), 0.5);
        },
        other => panic!("unexpected step {:?}", other),
    }
    assert_eq!(pipeline.lock().name(), Some(UNKNOWN_DEVICE_NAME.to_string()));
}

#[test]
fn failed_sends_are_reported_and_confirmed_later() {
    let mut pipeline = Pipeline::new();
    pipeline.process(&broadcast("Ring A", TARGET_COMPANY_ID, &[0, 0, 0, 80]));
    assert_eq!(pipeline.record(MessageKind::HeartRate, false), Report::SendFailure);
    assert_eq!(pipeline.record(MessageKind::ConnectionStatus, true), Report::Confirmation);
    assert!(!pipeline.log().is_logged(MessageKind::HeartRate));
    assert!(pipeline.log().is_logged(MessageKind::ConnectionStatus));
    assert_eq!(pipeline.record(MessageKind::HeartRate, true), Report::Confirmation);
    assert_eq!(pipeline.record(MessageKind::HeartRate, true), Report::Silent);
    assert_eq!(pipeline.record(MessageKind::ConnectionStatus, true), Report::Silent);
    assert_eq!(pipeline.lock().name(), Some("Ring A".to_string()));
}
