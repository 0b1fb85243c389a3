use roastcraft::config::{Config, Serial};
use roastcraft::error::{AcquisitionError, ProtocolFault};
use roastcraft::serial::{
    data_bits_of, is_word, parity_of, stop_bits_of, DataBits, Parity, SerialSettings, StopBits,
};

#[test]
fn blank_configuration_holds_nothing() {
    let config = Config::new();
    assert_eq!(config.version, "");
    assert_eq!(config.brand, "");
    assert_eq!(config.model, "");
    assert_eq!(config.temperature_unit, "");
    assert!(config.alarms.is_empty());
    assert!(config.serial.is_none());
    assert!(config.tcp.is_none());
    assert!(config.manual_channel.is_none());
}

#[test]
fn data_bits_default_to_eight() {
    assert_eq!(data_bits_of(5), DataBits::Five);
    assert_eq!(data_bits_of(6), DataBits::Six);
    assert_eq!(data_bits_of(7), DataBits::Seven);
    assert_eq!(data_bits_of(8), DataBits::Eight);
    assert_eq!(data_bits_of(0), DataBits::Eight);
    assert_eq!(data_bits_of(9), DataBits::Eight);
    assert_eq!(data_bits_of(65535), DataBits::Eight);
}

#[test]
fn stop_bits_default_to_one() {
    assert_eq!(stop_bits_of(1), StopBits::One);
    assert_eq!(stop_bits_of(2), StopBits::Two);
    assert_eq!(stop_bits_of(0), StopBits::One);
    assert_eq!(stop_bits_of(3), StopBits::One);
}

#[test]
fn parity_is_read_in_any_case() {
    assert_eq!(parity_of("even"), Parity::Even);
    assert_eq!(parity_of("EVEN"), Parity::Even);
    assert_eq!(parity_of("Even"), Parity::Even);
    assert_eq!(parity_of("odd"), Parity::Odd);
    assert_eq!(parity_of("oDD"), Parity::Odd);
    assert_eq!(parity_of("none"), Parity::NoParity);
    assert_eq!(parity_of("None"), Parity::NoParity);
}

#[test]
fn unknown_parity_is_no_parity() {
    assert_eq!(parity_of(""), Parity::NoParity);
    assert_eq!(parity_of("even "), Parity::NoParity);
    assert_eq!(parity_of("eve"), Parity::NoParity);
    assert_eq!(parity_of("mark"), Parity::NoParity);
    assert_eq!(parity_of("\u{e9}ven"), Parity::NoParity);
}

#[test]
fn words_compare_letter_by_letter() {
    assert!(is_word("Odd", "odd"));
    assert!(is_word("", ""));
    assert!(is_word("a-1", "A-1"));
    assert!(!is_word("odd", "od"));
    assert!(!is_word("od", "odd"));
    assert!(!is_word("@dd", "`dd"));
    assert!(!is_word("[", "{"));
}

#[test]
fn settings_follow_the_configuration() {
    let serial = Serial {
        port: "/dev/ttyS1".to_string(),
        baud_rate: 57600,
        data_bits: 7,
        parity: "ODD".to_string(),
        stop_bits: 2,
        modbus: None,
        ta612c: None,
    };
    assert_eq!(
        SerialSettings::from_serial(&serial),
        SerialSettings {
            port: "/dev/ttyS1".to_string(),
            baud_rate: 57600,
            data_bits: DataBits::Seven,
            parity: Parity::Odd,
            stop_bits: StopBits::Two,
            timeout_secs: 1,
        }
    );
}

#[test]
fn errors_met_while_polling_are_recoverable() {
    assert!(!AcquisitionError::Configuration.recoverable());
    assert!(!AcquisitionError::DeviceConstruction.recoverable());
    assert!(AcquisitionError::Timeout.recoverable());
    assert!(AcquisitionError::Transport.recoverable());
    assert!(AcquisitionError::Protocol(ProtocolFault::Checksum).recoverable());
    assert!(AcquisitionError::Protocol(ProtocolFault::OutOfStep).recoverable());
}

#[test]
fn every_error_has_its_log_line() {
    assert_eq!(AcquisitionError::Timeout.message(), "read_holding_registers timeout");
    assert_eq!(AcquisitionError::Transport.message(), "transport failure");
    assert_eq!(AcquisitionError::Configuration.message(), "configuration lacks the selected device");
    assert_eq!(AcquisitionError::DeviceConstruction.message(), "device could not be constructed");
    assert_eq!(AcquisitionError::Protocol(ProtocolFault::Checksum).message(), "frame checksum mismatch");
    assert_eq!(AcquisitionError::Protocol(ProtocolFault::Malformed).message(), "frame malformed");
    assert_eq!(AcquisitionError::Protocol(ProtocolFault::Exception).message(), "exception response");
    assert_eq!(AcquisitionError::Protocol(ProtocolFault::ShortRead).message(), "short read");
    assert_eq!(AcquisitionError::Protocol(ProtocolFault::NoData).message(), "no register in response");
    assert_eq!(AcquisitionError::Protocol(ProtocolFault::OutOfStep).message(), "transfer out of step");
}
