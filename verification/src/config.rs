//! The configuration tree: one transport with its sub-protocols and the
//! channels they feed. The tree is handed over ready-made and never changed.

use vstd::prelude::*;

verus! {

/// Everything known about one roasting machine.
#[derive(Clone, Debug, PartialEq, Eq)]
pub struct Config {
    pub version: String,
    pub brand: String,
    pub model: String,
    pub temperature_unit: String,
    pub alarms: Vec<i32>,
    pub serial: Option<Serial>,
    pub tcp: Option<Tcp>,
    pub manual_channel: Option<Vec<ManualChannel>>,
}

/// A serial line and the protocol spoken over it.
#[derive(Clone, Debug, PartialEq, Eq)]
pub struct Serial {
    pub port: String,
    pub baud_rate: u16,
    pub data_bits: u16,
    pub parity: String,
    pub stop_bits: u16,
    pub modbus: Option<Modbus>,
    pub ta612c: Option<Ta612c>,
}

/// A network endpoint and the protocol spoken with it.
#[derive(Clone, Debug, PartialEq, Eq)]
pub struct Tcp {
    pub ip: String,
    pub port: u16,
    pub modbus: Option<Modbus>,
    pub http: Option<Http>,
}

/// Channels of a four-probe thermometer; a channel's position in the list
/// binds it to the probe of the same number.
#[derive(Clone, Debug, PartialEq, Eq)]
pub struct Ta612c {
    pub channel: Vec<Channel>,
}

/// A fieldbus: its wire encoding and the registers to poll, in polling order.
#[derive(Clone, Debug, PartialEq, Eq)]
pub struct Modbus {
    pub protocol: String,
    pub slave: Vec<Slave>,
}

/// Channels expected from an HTTP endpoint.
#[derive(Clone, Debug, PartialEq, Eq)]
pub struct Http {
    pub channel: Vec<Channel>,
}

/// One logical sensor output.
#[derive(Clone, Debug, PartialEq, Eq)]
pub struct Channel {
    pub channel_id: String,
    pub label: String,
    pub color: String,
    pub ror_color: Option<String>,
}

/// One register of one station on the fieldbus, feeding one channel.
#[derive(Clone, Debug, PartialEq, Eq)]
pub struct Slave {
    pub channel_id: String,
    pub label: String,
    pub color: String,
    pub ror_color: Option<String>,
    pub id: u16,
    pub function: u16,
    pub registry: u16,
    pub divisor: u16,
    pub decode_type: String,
}

/// A value the operator sets by hand.
#[derive(Clone, Debug, PartialEq, Eq)]
pub struct ManualChannel {
    pub channel_id: String,
    pub label: String,
    pub unit: String,
    pub color: String,
    pub min: u16,
    pub max: u16,
    pub step: u16,
    pub default_value: u16,
}

impl Config {
    /// Whether nothing at all is configured: every text and list is empty
    /// and no transport is present.
    pub open spec fn is_blank(&self) -> bool {
        &&& self.version@.len() == 0
        &&& self.brand@.len() == 0
        &&& self.model@.len() == 0
        &&& self.temperature_unit@.len() == 0
        &&& self.alarms@.len() == 0
        &&& self.serial is None
        &&& self.tcp is None
        &&& self.manual_channel is None
    }

    /// The blank configuration.
    pub fn new() -> (config: Config)
        ensures
            config.is_blank(),
    {
        Config {
            version: String::new(),
            brand: String::new(),
            model: String::new(),
            temperature_unit: String::new(),
            alarms: Vec::new(),
            serial: None,
            tcp: None,
            manual_channel: None,
        }
    }
}

} // verus!
