//! The four-probe thermometer on a serial line. One poll sends a fixed
//! request of five bytes and reads an answer of thirteen, in which each
//! probe has two bytes at a fixed place.

use vstd::prelude::*;
use crate::config::{Channel, Config};
use crate::error::{AcquisitionError, ProtocolFault};
use crate::reading::{readings_view, Decimal, Reading, Snapshot, SnapshotView};
use crate::transfer::{Outcome, OutcomeView, Transfer, TransferView};

verus! {

/// Length of the answer.
pub const RESPONSE_LEN: usize = 13;

/// Probes of the thermometer.
pub const PROBES: usize = 4;

/// The request: a preamble of two bytes, then the command.
pub open spec fn request_bytes() -> Seq<u8> {
    seq![0xAAu8, 0x55u8, 0x01u8, 0x03u8, 0x03u8]
}

/// The byte at `index` of an answer; an answer that stops short reads as
/// zeros from there on.
pub open spec fn byte_at(frame: Seq<u8>, index: int) -> u8 {
    if 0 <= index < frame.len() {
        frame[index]
    } else {
        0
    }
}

/// The raw value of a probe: two bytes from the fourth byte on, probe
/// after probe, the low byte first.
pub open spec fn probe_raw(frame: Seq<u8>, probe: int) -> int {
    byte_at(frame, 4 + 2 * probe) + 256 * byte_at(frame, 5 + 2 * probe)
}

/// The value of a probe: its raw value in tenths.
pub open spec fn probe_value(frame: Seq<u8>, probe: int) -> Decimal {
    Decimal { digits: probe_raw(frame, probe) as u32, places: 1 }
}

/// The names of the channels, in their order.
pub open spec fn channel_ids(channels: Seq<Channel>) -> Seq<Seq<char>> {
    channels.map_values(|c: Channel| c.channel_id@)
}

/// How many channels get a value: one per probe at most.
pub open spec fn bound_channels(channels: nat) -> nat {
    if channels < PROBES {
        channels
    } else {
        PROBES as nat
    }
}

/// The readings an answer gives: the channel at each of the first four
/// places with the value of the probe of that number. Channels beyond the
/// fourth get nothing.
pub open spec fn probe_readings(channels: Seq<Seq<char>>, frame: Seq<u8>) -> Seq<(Seq<char>, Decimal)> {
    Seq::new(bound_channels(channels.len()), |i: int| (channels[i], probe_value(frame, i)))
}

/// Where a poll stands.
#[derive(Clone, Copy, Debug, PartialEq, Eq, Structural)]
pub enum Stage {
    /// No poll is under way.
    Idle,
    /// The request is being written.
    Sending,
    /// The answer is being read.
    Receiving,
}

/// The thermometer as contracts see it.
pub struct Ta612cState {
    pub channels: Seq<Seq<char>>,
    pub stage: Stage,
}

impl Ta612cState {
    /// The thermometer a configuration describes, before its first poll:
    /// the one on its serial line, if there is a serial line with the
    /// thermometer's channels.
    pub open spec fn configured(config: Config) -> Option<Ta612cState> {
        match config.serial {
            Some(serial) => match serial.ta612c {
                Some(probes) => Some(Ta612cState { channels: channel_ids(probes.channel@), stage: Stage::Idle }),
                None => None,
            },
            None => None,
        }
    }

    /// This state with no poll under way.
    pub open spec fn at_rest(self) -> Ta612cState {
        Ta612cState { stage: Stage::Idle, ..self }
    }

    /// A poll begins: whatever was under way is dropped and the request
    /// goes out.
    pub open spec fn begun(self) -> (Ta612cState, TransferView) {
        (Ta612cState { stage: Stage::Sending, ..self }, TransferView::Send(request_bytes()))
    }

    /// The driver reports an outcome. Whether the request could be written
    /// does not matter: the answer is read all the same. An answer gives
    /// the readings; a failed read gives none, and the poll still
    /// completes.
    pub open spec fn resumed(self, outcome: OutcomeView) -> (Ta612cState, TransferView) {
        match self.stage {
            Stage::Idle => (self.at_rest(), TransferView::Abort(AcquisitionError::Protocol(ProtocolFault::OutOfStep))),
            Stage::Sending => match outcome {
                OutcomeView::Sent | OutcomeView::Failed => (
                    Ta612cState { stage: Stage::Receiving, ..self },
                    TransferView::ReceiveOnce(RESPONSE_LEN as nat),
                ),
                _ => (self.at_rest(), TransferView::Abort(AcquisitionError::Protocol(ProtocolFault::OutOfStep))),
            },
            Stage::Receiving => match outcome {
                OutcomeView::Received(frame) => (
                    self.at_rest(),
                    TransferView::Finish(SnapshotView::Readings(probe_readings(self.channels, frame))),
                ),
                OutcomeView::Failed => (self.at_rest(), TransferView::Finish(SnapshotView::Readings(Seq::empty()))),
                _ => (self.at_rest(), TransferView::Abort(AcquisitionError::Protocol(ProtocolFault::OutOfStep))),
            },
        }
    }
}

/// The thermometer.
#[derive(Debug)]
pub struct Ta612cDevice {
    channels: Vec<Channel>,
    stage: Stage,
}

impl View for Ta612cDevice {
    type V = Ta612cState;

    closed spec fn view(&self) -> Ta612cState {
        Ta612cState { channels: channel_ids(self.channels@), stage: self.stage }
    }
}

/// The request as bytes.
pub fn request_frame() -> (frame: Vec<u8>)
    ensures
        frame@ == request_bytes(),
{
    let mut frame: Vec<u8> = Vec::new();
    frame.push(0xAAu8);
    frame.push(0x55u8);
    frame.push(0x01u8);
    frame.push(0x03u8);
    frame.push(0x03u8);
    assert(frame@ =~= request_bytes());
    frame
}

fn byte_of(frame: &[u8], index: usize) -> (byte: u8)
    ensures
        byte == byte_at(frame@, index as int),
{
    if index < frame.len() {
        frame[index]
    } else {
        0
    }
}

/// Decodes the value of one probe from an answer.
pub fn decode_probe(frame: &[u8], probe: usize) -> (value: Decimal)
    requires
        probe < PROBES,
    ensures
        value == probe_value(frame@, probe as int),
{
    let low: u8 = byte_of(frame, 4 + 2 * probe);
    let high: u8 = byte_of(frame, 5 + 2 * probe);
    Decimal { digits: low as u32 + 256 * (high as u32), places: 1 }
}

/// Decodes an answer into the readings of the configured channels.
pub fn decode_response(channels: &Vec<Channel>, frame: &[u8]) -> (readings: Vec<Reading>)
    ensures
        readings_view(readings@) == probe_readings(channel_ids(channels@), frame@),
{
    let mut readings: Vec<Reading> = Vec::new();
    let mut i: usize = 0;
    while i < channels.len() && i < PROBES
        invariant
            i <= channels@.len(),
            i <= PROBES,
            readings@.len() == i,
            forall|j: int|
                0 <= j < i ==> (#[trigger] readings@[j])@ == (channels@[j].channel_id@, probe_value(frame@, j)),
        decreases PROBES - i,
    {
        let reading = Reading { channel_id: channels[i].channel_id.clone(), value: decode_probe(frame, i) };
        readings.push(reading);
        i += 1;
    }
    assert(readings_view(readings@) =~= probe_readings(channel_ids(channels@), frame@));
    readings
}

impl Ta612cDevice {
    /// The thermometer of a configuration. The configuration must hold a
    /// serial line with the thermometer's channels.
    pub fn new(config: Config) -> (out: Result<Ta612cDevice, AcquisitionError>)
        ensures
            match out {
                Ok(device) => Ta612cState::configured(config) == Some(device@),
                Err(error) => error == AcquisitionError::Configuration && Ta612cState::configured(config) is None,
            },
    {
        match config.serial {
            Some(serial) => match serial.ta612c {
                Some(probes) => Ok(Ta612cDevice { channels: probes.channel, stage: Stage::Idle }),
                None => Err(AcquisitionError::Configuration),
            },
            None => Err(AcquisitionError::Configuration),
        }
    }

    /// Begins a poll and says what to transfer first.
    pub fn begin(&mut self) -> (ask: Transfer)
        ensures
            (final(self)@, ask@) == old(self)@.begun(),
    {
        self.stage = Stage::Sending;
        Transfer::Send(request_frame())
    }

    /// Takes the outcome of the transfer asked for last and says what to
    /// transfer next, or how the poll ended.
    pub fn resume(&mut self, outcome: Outcome) -> (ask: Transfer)
        ensures
            (final(self)@, ask@) == old(self)@.resumed(outcome@),
    {
        let stage = self.stage;
        self.stage = Stage::Idle;
        match stage {
            Stage::Idle => Transfer::Abort(AcquisitionError::Protocol(ProtocolFault::OutOfStep)),
            Stage::Sending => match outcome {
                Outcome::Sent | Outcome::Failed => {
                    self.stage = Stage::Receiving;
                    Transfer::ReceiveOnce(RESPONSE_LEN)
                },
                _ => Transfer::Abort(AcquisitionError::Protocol(ProtocolFault::OutOfStep)),
            },
            Stage::Receiving => match outcome {
                Outcome::Received(frame) => {
                    let readings = decode_response(&self.channels, frame.as_slice());
                    Transfer::Finish(Snapshot::Readings(readings))
                },
                Outcome::Failed => {
                    let readings: Vec<Reading> = Vec::new();
                    assert(readings_view(readings@) =~= Seq::<(Seq<char>, Decimal)>::empty());
                    Transfer::Finish(Snapshot::Readings(readings))
                },
                _ => Transfer::Abort(AcquisitionError::Protocol(ProtocolFault::OutOfStep)),
            },
        }
    }
}

} // verus!
