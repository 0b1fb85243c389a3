use roastcraft::config::{Channel, Config, Serial, Ta612c};
use roastcraft::devices::ta612c::{decode_probe, decode_response, request_frame, Ta612cDevice};
use roastcraft::devices::{Device, DeviceKind};
use roastcraft::error::{AcquisitionError, ProtocolFault};
use roastcraft::reading::{Decimal, Reading, Snapshot};
use roastcraft::transfer::{Outcome, Transfer};

/// Thirteen bytes, every probe at 200.
const ALL_AT_200: [u8; 13] = [0xAA, 0x55, 0x01, 0x03, 0xC8, 0x00, 0xC8, 0x00, 0xC8, 0x00, 0xC8, 0x00, 0x00];

fn channel(id: &str) -> Channel {
    Channel { channel_id: id.to_string(), label: id.to_string(), color: "#00ff00".to_string(), ror_color: None }
}

fn channels(ids: &[&str]) -> Vec<Channel> {
    ids.iter().map(|id| channel(id)).collect()
}

fn config(ids: &[&str]) -> Config {
    let mut config = Config::new();
    config.serial = Some(Serial {
        port: "COM3".to_string(),
        baud_rate: 9600,
        data_bits: 8,
        parity: "none".to_string(),
        stop_bits: 1,
        modbus: None,
        ta612c: Some(Ta612c { channel: channels(ids) }),
    });
    config
}

fn tenths(id: &str, digits: u32) -> Reading {
    Reading { channel_id: id.to_string(), value: Decimal { digits, places: 1 } }
}

fn finished(ask: Transfer) -> Vec<Reading> {
    match ask {
        Transfer::Finish(Snapshot::Readings(readings)) => readings,
        other => panic!("expected readings, got {:?}", other),
    }
}

#[test]
fn request_is_the_fixed_five_bytes() {
    assert_eq!(request_frame(), vec![0xAA, 0x55, 0x01, 0x03, 0x03]);
}

#[test]
fn fixed_frame_decodes_four_channels_at_twenty() {
    let readings = decode_response(&channels(&["T1", "T2", "T3", "T4"]), &ALL_AT_200);
    assert_eq!(readings, vec![tenths("T1", 200), tenths("T2", 200), tenths("T3", 200), tenths("T4", 200)]);
    for reading in &readings {
        assert_eq!(reading.value.digits as f64 / 10.0, 20.0);
    }
}

#[test]
fn header_bytes_do_not_matter() {
    let mut frame = ALL_AT_200;
    frame[0] = 0x00;
    frame[1] = 0xFF;
    frame[2] = 0x7E;
    frame[3] = 0x10;
    frame[12] = 0x99;
    let readings = decode_response(&channels(&["T1", "T2", "T3", "T4"]), &frame);
    assert_eq!(readings, vec![tenths("T1", 200), tenths("T2", 200), tenths("T3", 200), tenths("T4", 200)]);
}

#[test]
fn probes_sit_at_bytes_four_six_eight_and_ten() {
    let frame: [u8; 13] = [0xAA, 0x55, 0x01, 0x03, 0x01, 0x00, 0x02, 0x00, 0x03, 0x00, 0x04, 0x00, 0x00];
    assert_eq!(decode_probe(&frame, 0), Decimal { digits: 1, places: 1 });
    assert_eq!(decode_probe(&frame, 1), Decimal { digits: 2, places: 1 });
    assert_eq!(decode_probe(&frame, 2), Decimal { digits: 3, places: 1 });
    assert_eq!(decode_probe(&frame, 3), Decimal { digits: 4, places: 1 });
}

#[test]
fn low_byte_comes_first() {
    let frame: [u8; 13] = [0xAA, 0x55, 0x01, 0x03, 0x03, 0x00, 0x00, 0xC8, 0x00, 0xC8, 0x00, 0xC8, 0x00];
    assert_eq!(decode_probe(&frame, 0), Decimal { digits: 3, places: 1 });
    assert_eq!(decode_probe(&frame, 1), Decimal { digits: 51200, places: 1 });
    let frame: [u8; 13] = [0, 0, 0, 0, 0xFF, 0xFF, 0x34, 0x12, 0, 0, 0, 0, 0];
    assert_eq!(decode_probe(&frame, 0), Decimal { digits: 65535, places: 1 });
    assert_eq!(decode_probe(&frame, 1), Decimal { digits: 0x1234, places: 1 });
}

#[test]
fn fewer_channels_give_fewer_readings() {
    assert_eq!(decode_response(&channels(&["T1", "T2"]), &ALL_AT_200), vec![tenths("T1", 200), tenths("T2", 200)]);
    assert_eq!(decode_response(&channels(&[]), &ALL_AT_200), vec![]);
}

#[test]
fn channels_beyond_the_fourth_are_ignored() {
    let readings = decode_response(&channels(&["T1", "T2", "T3", "T4", "T5", "T6"]), &ALL_AT_200);
    assert_eq!(readings, vec![tenths("T1", 200), tenths("T2", 200), tenths("T3", 200), tenths("T4", 200)]);
}

#[test]
fn answer_that_stops_short_reads_as_zeros() {
    let readings = decode_response(&channels(&["T1", "T2", "T3", "T4"]), &ALL_AT_200[..7]);
    assert_eq!(readings, vec![tenths("T1", 200), tenths("T2", 200), tenths("T3", 0), tenths("T4", 0)]);
    let readings = decode_response(&channels(&["T1"]), &[]);
    assert_eq!(readings, vec![tenths("T1", 0)]);
}

#[test]
fn device_needs_the_thermometer_on_a_serial_line() {
    assert_eq!(Ta612cDevice::new(Config::new()).err(), Some(AcquisitionError::Configuration));
    let mut bare = config(&["T1"]);
    bare.serial.as_mut().unwrap().ta612c = None;
    assert_eq!(Ta612cDevice::new(bare).err(), Some(AcquisitionError::Configuration));
    assert!(Ta612cDevice::new(config(&[])).is_ok());
}

#[test]
fn poll_sends_the_request_and_reads_thirteen_bytes() {
    let mut device = Ta612cDevice::new(config(&["T1", "T2", "T3", "T4"])).unwrap();
    match device.begin() {
        Transfer::Send(bytes) => assert_eq!(bytes, vec![0xAA, 0x55, 0x01, 0x03, 0x03]),
        other => panic!("expected the request, got {:?}", other),
    }
    match device.resume(Outcome::Sent) {
        Transfer::ReceiveOnce(count) => assert_eq!(count, 13),
        other => panic!("expected a read, got {:?}", other),
    }
    let readings = finished(device.resume(Outcome::Received(ALL_AT_200.to_vec())));
    assert_eq!(readings, vec![tenths("T1", 200), tenths("T2", 200), tenths("T3", 200), tenths("T4", 200)]);
}

#[test]
fn failed_write_is_passed_over() {
    let mut device = Ta612cDevice::new(config(&["T1"])).unwrap();
    device.begin();
    match device.resume(Outcome::Failed) {
        Transfer::ReceiveOnce(count) => assert_eq!(count, 13),
        other => panic!("expected a read, got {:?}", other),
    }
    assert_eq!(finished(device.resume(Outcome::Received(ALL_AT_200.to_vec()))), vec![tenths("T1", 200)]);
}

#[test]
fn failed_read_completes_the_poll_with_no_reading() {
    let mut device = Ta612cDevice::new(config(&["T1", "T2"])).unwrap();
    device.begin();
    device.resume(Outcome::Sent);
    assert_eq!(finished(device.resume(Outcome::Failed)), vec![]);
    device.begin();
    device.resume(Outcome::Sent);
    assert_eq!(
        finished(device.resume(Outcome::Received(ALL_AT_200.to_vec()))),
        vec![tenths("T1", 200), tenths("T2", 200)]
    );
}

#[test]
fn thermometer_refuses_outcomes_out_of_step() {
    let mut device = Ta612cDevice::new(config(&["T1"])).unwrap();
    let out_of_step = AcquisitionError::Protocol(ProtocolFault::OutOfStep);
    assert!(matches!(device.resume(Outcome::Sent), Transfer::Abort(e) if e == out_of_step));
    device.begin();
    assert!(matches!(device.resume(Outcome::Received(vec![])), Transfer::Abort(e) if e == out_of_step));
    device.begin();
    device.resume(Outcome::Sent);
    assert!(matches!(device.resume(Outcome::Sent), Transfer::Abort(e) if e == out_of_step));
    assert!(matches!(device.resume(Outcome::Failed), Transfer::Abort(e) if e == out_of_step));
}

#[test]
fn uniform_device_polls_the_thermometer() {
    let mut device = Device::new(config(&["T1"])).unwrap();
    assert_eq!(device.kind(), DeviceKind::FixedFrame);
    device.begin();
    device.resume(Outcome::Sent);
    assert_eq!(finished(device.resume(Outcome::Received(ALL_AT_200.to_vec()))), vec![tenths("T1", 200)]);
}
