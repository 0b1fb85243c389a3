//! The fieldbus on a serial line. One poll reads every configured register
//! in turn over the same line: the request goes out, seven bytes of the
//! answer come in, they tell how long the answer is, the rest comes in, and
//! the answer is decoded. One answer that is refused ends the poll for all
//! registers: no snapshot holds some channels and lacks others.

use vstd::prelude::*;
use vstd::string::*;
use crate::config::{Config, Slave};
use crate::devices::frames::{
    announced_len, decode_response, frame_length, remaining_length, request_frame, response_value,
    rest_len, wire_request, Encoding, RegisterRead, RegisterTable, HEADER_LEN,
};
use crate::error::{AcquisitionError, ProtocolFault};
use crate::reading::{
    lemma_channel_map_holds_every_channel, readings_view, Decimal, Reading, Snapshot, SnapshotView,
};
use crate::transfer::{Outcome, OutcomeView, Transfer, TransferView};

verus! {

/// One register to poll and the channel it feeds.
#[derive(Clone, Debug, PartialEq, Eq)]
pub struct Poll {
    pub channel_id: String,
    pub read: RegisterRead,
}

impl View for Poll {
    type V = (Seq<char>, RegisterRead);

    open spec fn view(&self) -> (Seq<char>, RegisterRead) {
        (self.channel_id@, self.read)
    }
}

/// The views of a list of polls, in the same order.
pub open spec fn polls_view(polls: Seq<Poll>) -> Seq<(Seq<char>, RegisterRead)> {
    polls.map_values(|p: Poll| p@)
}

/// The encoding a configured protocol stands for: binary for `modbus-rtu`,
/// printable for every other name.
pub open spec fn encoding_for(protocol: Seq<char>) -> Encoding {
    if protocol == "modbus-rtu"@ {
        Encoding::Rtu
    } else {
        Encoding::Ascii
    }
}

/// The station a configured number addresses: its low eight bits.
pub open spec fn unit_for(id: u16) -> u8 {
    (id % 256) as u8
}

/// The poll a configured register asks for, if its function reads
/// registers.
pub open spec fn poll_for(slave: Slave) -> Option<(Seq<char>, RegisterRead)> {
    match RegisterTable::of_code(slave.function) {
        Some(table) => Some(
            (slave.channel_id@, RegisterRead { unit: unit_for(slave.id), table, register: slave.registry }),
        ),
        None => None,
    }
}

/// The polls the configured registers ask for, in their order, if every
/// one of them can be polled.
pub open spec fn polls_for(slaves: Seq<Slave>) -> Option<Seq<(Seq<char>, RegisterRead)>> {
    if forall|i: int| 0 <= i < slaves.len() ==> (#[trigger] poll_for(slaves[i])) is Some {
        Some(Seq::new(slaves.len(), |i: int| poll_for(slaves[i]).unwrap()))
    } else {
        None
    }
}

/// Where a poll stands.
#[derive(Clone, Copy, Debug, PartialEq, Eq, Structural)]
pub enum Stage {
    /// No poll is under way.
    Idle,
    /// A request is being written.
    Sending,
    /// The header of an answer is being read.
    Header,
    /// The rest of an answer is being read.
    Rest,
}

/// Where a poll stands, with what it has in hand.
pub enum StageView {
    Idle,
    Sending,
    Header,
    /// The header is in and has announced `guess` bytes in all.
    Rest { header: Seq<u8>, guess: u8 },
}

/// The fieldbus as contracts see it.
pub struct FieldbusState {
    /// The registers to poll, each with its channel.
    pub polls: Seq<(Seq<char>, RegisterRead)>,
    pub encoding: Encoding,
    pub stage: StageView,
    /// The readings of this poll so far. Their number is the place of the
    /// register now being polled.
    pub readings: Seq<(Seq<char>, Decimal)>,
}

impl FieldbusState {
    /// The fieldbus a configuration describes, before its first poll: the
    /// one on its serial line, if there is a serial line with a fieldbus
    /// whose registers can all be polled.
    pub open spec fn configured(config: Config) -> Option<FieldbusState> {
        match config.serial {
            Some(serial) => match serial.modbus {
                Some(bus) => match polls_for(bus.slave@) {
                    Some(polls) => Some(
                        FieldbusState {
                            polls,
                            encoding: encoding_for(bus.protocol@),
                            stage: StageView::Idle,
                            readings: Seq::empty(),
                        },
                    ),
                    None => None,
                },
                None => None,
            },
            None => None,
        }
    }

    /// This state with no poll under way and no reading kept.
    pub open spec fn at_rest(self) -> FieldbusState {
        FieldbusState { stage: StageView::Idle, readings: Seq::empty(), ..self }
    }

    /// The poll is abandoned.
    pub open spec fn aborted(self, error: AcquisitionError) -> (FieldbusState, TransferView) {
        (self.at_rest(), TransferView::Abort(error))
    }

    /// The poll is abandoned over a fault of the protocol.
    pub open spec fn faulted(self, fault: ProtocolFault) -> (FieldbusState, TransferView) {
        self.aborted(AcquisitionError::Protocol(fault))
    }

    /// The next register is asked for; with none left the poll completes
    /// with the readings in hand.
    pub open spec fn asked(self) -> (FieldbusState, TransferView) {
        let place = self.readings.len() as int;
        if place >= self.polls.len() {
            (self.at_rest(), TransferView::Finish(SnapshotView::Readings(self.readings)))
        } else {
            match wire_request(self.polls[place].1, self.encoding) {
                Ok(bytes) => (FieldbusState { stage: StageView::Sending, ..self }, TransferView::Send(bytes)),
                Err(fault) => self.faulted(fault),
            }
        }
    }

    /// A poll begins: whatever was under way is dropped and the first
    /// register is asked for.
    pub open spec fn begun(self) -> (FieldbusState, TransferView) {
        self.at_rest().asked()
    }

    /// A whole answer is in: its value is kept for the channel of the
    /// register being polled, and the next register is asked for.
    pub open spec fn settled(self, frame: Seq<u8>, guess: u8) -> (FieldbusState, TransferView) {
        let place = self.readings.len() as int;
        if place >= self.polls.len() {
            self.faulted(ProtocolFault::OutOfStep)
        } else {
            match response_value(self.polls[place].1, self.encoding, frame, guess) {
                Err(fault) => self.faulted(fault),
                Ok(value) => FieldbusState {
                    readings: self.readings.push((self.polls[place].0, value)),
                    ..self
                }.asked(),
            }
        }
    }

    /// The header of an answer is in.
    pub open spec fn header_read(self, header: Seq<u8>) -> (FieldbusState, TransferView) {
        match announced_len(header, self.encoding) {
            Err(fault) => self.faulted(fault),
            Ok(guess) => if rest_len(guess) > 0 {
                (
                    FieldbusState { stage: StageView::Rest { header, guess }, ..self },
                    TransferView::ReceiveExact(rest_len(guess)),
                )
            } else {
                self.settled(header, guess)
            },
        }
    }

    /// The driver reports an outcome. A transfer that failed, bytes that
    /// are too few, and an outcome that answers no request each abandon
    /// the poll.
    pub open spec fn resumed(self, outcome: OutcomeView) -> (FieldbusState, TransferView) {
        match self.stage {
            StageView::Idle => self.faulted(ProtocolFault::OutOfStep),
            StageView::Sending => match outcome {
                OutcomeView::Sent => (
                    FieldbusState { stage: StageView::Header, ..self },
                    TransferView::ReceiveExact(HEADER_LEN as nat),
                ),
                OutcomeView::Failed => self.aborted(AcquisitionError::Transport),
                _ => self.faulted(ProtocolFault::OutOfStep),
            },
            StageView::Header => match outcome {
                OutcomeView::Received(header) => self.header_read(header),
                OutcomeView::Failed => self.aborted(AcquisitionError::Transport),
                _ => self.faulted(ProtocolFault::OutOfStep),
            },
            StageView::Rest { header, guess } => match outcome {
                OutcomeView::Received(rest) => if rest.len() != rest_len(guess) {
                    self.faulted(ProtocolFault::ShortRead)
                } else {
                    self.settled(header + rest, guess)
                },
                OutcomeView::Failed => self.aborted(AcquisitionError::Transport),
                _ => self.faulted(ProtocolFault::OutOfStep),
            },
        }
    }
}

/// The fieldbus.
#[derive(Debug)]
pub struct ModbusDevice {
    polls: Vec<Poll>,
    encoding: Encoding,
    stage: Stage,
    header: Vec<u8>,
    guess: u8,
    collected: Vec<Reading>,
}

impl View for ModbusDevice {
    type V = FieldbusState;

    closed spec fn view(&self) -> FieldbusState {
        FieldbusState {
            polls: polls_view(self.polls@),
            encoding: self.encoding,
            stage: match self.stage {
                Stage::Idle => StageView::Idle,
                Stage::Sending => StageView::Sending,
                Stage::Header => StageView::Header,
                Stage::Rest => StageView::Rest { header: self.header@, guess: self.guess },
            },
            readings: readings_view(self.collected@),
        }
    }
}

/// The encoding a configured protocol stands for.
pub fn encoding_of(protocol: &String) -> (encoding: Encoding)
    ensures
        encoding == encoding_for(protocol@),
{
    let rtu = String::from_str("modbus-rtu");
    if *protocol == rtu {
        Encoding::Rtu
    } else {
        Encoding::Ascii
    }
}

/// The poll a configured register asks for, if its function reads
/// registers.
pub fn poll_of(slave: &Slave) -> (poll: Option<Poll>)
    ensures
        match poll {
            Some(p) => poll_for(*slave) == Some(p@),
            None => poll_for(*slave) is None,
        },
{
    match RegisterTable::from_code(slave.function) {
        Some(table) => Some(
            Poll {
                channel_id: slave.channel_id.clone(),
                read: RegisterRead { unit: (slave.id % 256) as u8, table, register: slave.registry },
            },
        ),
        None => None,
    }
}

/// The polls the configured registers ask for, if every one of them can be
/// polled.
pub fn polls_of(slaves: &Vec<Slave>) -> (polls: Option<Vec<Poll>>)
    ensures
        match polls {
            Some(list) => polls_for(slaves@) == Some(polls_view(list@)),
            None => polls_for(slaves@) is None,
        },
{
    let mut list: Vec<Poll> = Vec::new();
    let mut i: usize = 0;
    while i < slaves.len()
        invariant
            i <= slaves@.len(),
            list@.len() == i,
            forall|j: int| 0 <= j < i ==> (#[trigger] poll_for(slaves@[j])) == Some(list@[j]@),
        decreases slaves@.len() - i,
    {
        match poll_of(&slaves[i]) {
            Some(poll) => {
                list.push(poll);
            },
            None => {
                return None;
            },
        }
        i += 1;
    }
    assert(polls_view(list@) =~= Seq::new(slaves@.len(), |i: int| poll_for(slaves@[i]).unwrap()));
    Some(list)
}

impl ModbusDevice {
    /// The fieldbus of a configuration. The configuration must hold a
    /// serial line with a fieldbus on it, and every register of the
    /// fieldbus must name a function that reads registers.
    pub fn new(config: Config) -> (out: Result<ModbusDevice, AcquisitionError>)
        ensures
            match out {
                Ok(device) => FieldbusState::configured(config) == Some(device@),
                Err(error) => error == AcquisitionError::Configuration && FieldbusState::configured(config) is None,
            },
    {
        match config.serial {
            Some(serial) => match serial.modbus {
                Some(bus) => match polls_of(&bus.slave) {
                    Some(polls) => {
                        let collected: Vec<Reading> = Vec::new();
                        assert(readings_view(collected@) =~= Seq::<(Seq<char>, Decimal)>::empty());
                        let encoding = encoding_of(&bus.protocol);
                        let device = ModbusDevice {
                            polls,
                            encoding,
                            stage: Stage::Idle,
                            header: Vec::new(),
                            guess: 0,
                            collected,
                        };
                        Ok(device)
                    },
                    None => Err(AcquisitionError::Configuration),
                },
                None => Err(AcquisitionError::Configuration),
            },
            None => Err(AcquisitionError::Configuration),
        }
    }

    fn rest(&mut self)
        ensures
            final(self)@ == old(self)@.at_rest(),
    {
        self.stage = Stage::Idle;
        self.collected.clear();
        assert(readings_view(self.collected@) =~= Seq::<(Seq<char>, Decimal)>::empty());
    }

    fn abort(&mut self, error: AcquisitionError) -> (ask: Transfer)
        ensures
            (final(self)@, ask@) == old(self)@.aborted(error),
    {
        self.rest();
        Transfer::Abort(error)
    }

    fn ask(&mut self) -> (ask: Transfer)
        ensures
            (final(self)@, ask@) == old(self)@.asked(),
    {
        let place: usize = self.collected.len();
        if place >= self.polls.len() {
            let mut readings: Vec<Reading> = Vec::new();
            core::mem::swap(&mut readings, &mut self.collected);
            self.stage = Stage::Idle;
            assert(readings_view(self.collected@) =~= Seq::<(Seq<char>, Decimal)>::empty());
            Transfer::Finish(Snapshot::Readings(readings))
        } else {
            match request_frame(&self.polls[place].read, self.encoding) {
                Ok(bytes) => {
                    self.stage = Stage::Sending;
                    Transfer::Send(bytes)
                },
                Err(fault) => self.abort(AcquisitionError::Protocol(fault)),
            }
        }
    }

    fn settle(&mut self, frame: &[u8], guess: u8) -> (ask: Transfer)
        ensures
            (final(self)@, ask@) == old(self)@.settled(frame@, guess),
    {
        let place: usize = self.collected.len();
        if place >= self.polls.len() {
            self.abort(AcquisitionError::Protocol(ProtocolFault::OutOfStep))
        } else {
            match decode_response(&self.polls[place].read, self.encoding, frame, guess) {
                Err(fault) => self.abort(AcquisitionError::Protocol(fault)),
                Ok(value) => {
                    let reading = Reading { channel_id: self.polls[place].channel_id.clone(), value };
                    self.collected.push(reading);
                    assert(readings_view(self.collected@) =~= old(self)@.readings.push(
                        (old(self)@.polls[place as int].0, value),
                    ));
                    self.ask()
                },
            }
        }
    }

    /// Begins a poll and says what to transfer first.
    pub fn begin(&mut self) -> (ask: Transfer)
        ensures
            (final(self)@, ask@) == old(self)@.begun(),
    {
        self.rest();
        self.ask()
    }

    /// Takes the outcome of the transfer asked for last and says what to
    /// transfer next, or how the poll ended.
    pub fn resume(&mut self, outcome: Outcome) -> (ask: Transfer)
        ensures
            (final(self)@, ask@) == old(self)@.resumed(outcome@),
    {
        match self.stage {
            Stage::Idle => self.abort(AcquisitionError::Protocol(ProtocolFault::OutOfStep)),
            Stage::Sending => match outcome {
                Outcome::Sent => {
                    self.stage = Stage::Header;
                    Transfer::ReceiveExact(HEADER_LEN)
                },
                Outcome::Failed => self.abort(AcquisitionError::Transport),
                _ => self.abort(AcquisitionError::Protocol(ProtocolFault::OutOfStep)),
            },
            Stage::Header => match outcome {
                Outcome::Received(header) => match frame_length(header.as_slice(), self.encoding) {
                    Err(fault) => self.abort(AcquisitionError::Protocol(fault)),
                    Ok(guess) => {
                        let rest: usize = remaining_length(guess);
                        if rest > 0 {
                            self.header = header;
                            self.guess = guess;
                            self.stage = Stage::Rest;
                            Transfer::ReceiveExact(rest)
                        } else {
                            self.settle(header.as_slice(), guess)
                        }
                    },
                },
                Outcome::Failed => self.abort(AcquisitionError::Transport),
                _ => self.abort(AcquisitionError::Protocol(ProtocolFault::OutOfStep)),
            },
            Stage::Rest => match outcome {
                Outcome::Received(rest) => {
                    if rest.len() != remaining_length(self.guess) {
                        self.abort(AcquisitionError::Protocol(ProtocolFault::ShortRead))
                    } else {
                        let mut frame: Vec<u8> = Vec::new();
                        core::mem::swap(&mut frame, &mut self.header);
                        let mut tail = rest;
                        frame.append(&mut tail);
                        let guess: u8 = self.guess;
                        self.stage = Stage::Header;
                        self.settle(frame.as_slice(), guess)
                    }
                },
                Outcome::Failed => self.abort(AcquisitionError::Transport),
                _ => self.abort(AcquisitionError::Protocol(ProtocolFault::OutOfStep)),
            },
        }
    }
}

impl FieldbusState {
    /// Whether the readings in hand are those of the registers polled so
    /// far, each under its channel, and a register is left to poll
    /// whenever a poll is under way.
    pub open spec fn in_order(self) -> bool {
        &&& self.readings.len() <= self.polls.len()
        &&& forall|i: int| 0 <= i < self.readings.len() ==> (#[trigger] self.readings[i]).0 == self.polls[i].0
        &&& (self.stage is Idle ==> self.readings.len() == 0)
        &&& (!(self.stage is Idle) ==> self.readings.len() < self.polls.len())
    }

    /// Whether a snapshot holds one reading for every register, each under
    /// its channel, in polling order.
    pub open spec fn is_whole(self, snapshot: SnapshotView) -> bool {
        &&& snapshot matches SnapshotView::Readings(readings)
        &&& readings.len() == self.polls.len()
        &&& forall|i: int| 0 <= i < readings.len() ==> (#[trigger] readings[i]).0 == self.polls[i].0
    }
}

/// A fieldbus is in order when it is built.
pub proof fn lemma_configured_is_in_order(config: Config)
    ensures
        FieldbusState::configured(config) matches Some(state) ==> state.in_order(),
{
}

/// A fieldbus that is in order stays so, whatever the driver reports.
pub proof fn lemma_in_order_is_kept(state: FieldbusState, outcome: OutcomeView)
    requires
        state.in_order(),
    ensures
        state.begun().0.in_order(),
        state.resumed(outcome).0.in_order(),
{
}

/// No snapshot is partial: a poll that completes hands out one reading for
/// every configured register, each under its channel, in polling order.
pub proof fn lemma_snapshot_is_whole(state: FieldbusState, outcome: OutcomeView)
    requires
        state.in_order(),
    ensures
        state.begun().1 matches TransferView::Finish(snapshot) ==> state.is_whole(snapshot),
        state.resumed(outcome).1 matches TransferView::Finish(snapshot) ==> state.is_whole(snapshot),
{
}

/// A snapshot that is whole has a value for every configured channel: the
/// consumer never finds a channel missing from a published snapshot.
pub proof fn lemma_whole_snapshot_holds_every_channel(state: FieldbusState, snapshot: SnapshotView, i: int)
    requires
        state.is_whole(snapshot),
        0 <= i < state.polls.len(),
    ensures
        snapshot.value_of(state.polls[i].0) is Some,
{
    let readings = snapshot->Readings_0;
    lemma_channel_map_holds_every_channel(readings, i);
}

/// An answer that is refused, be it for its checksum or for anything else,
/// abandons the poll: nothing is handed out, not even the readings taken
/// before it.
pub proof fn lemma_refused_answer_abandons_poll(state: FieldbusState, frame: Seq<u8>, guess: u8, fault: ProtocolFault)
    requires
        state.readings.len() < state.polls.len(),
        response_value(state.polls[state.readings.len() as int].1, state.encoding, frame, guess) == Err::<
            Decimal,
            ProtocolFault,
        >(fault),
    ensures
        state.settled(frame, guess) == (state.at_rest(), TransferView::Abort(AcquisitionError::Protocol(fault))),
{
}

/// However a poll ends, the fieldbus is at rest after it, and whatever a
/// poll went through, the next poll begins as the first one did.
pub proof fn lemma_next_poll_starts_afresh(state: FieldbusState, outcome: OutcomeView)
    ensures
        state.begun().1.is_final() ==> state.begun().0 == state.at_rest(),
        state.resumed(outcome).1.is_final() ==> state.resumed(outcome).0 == state.at_rest(),
        state.resumed(outcome).0.begun() == state.begun(),
        state.begun().0.begun() == state.begun(),
{
    assert(state.resumed(outcome).0.at_rest() == state.at_rest());
    assert(state.begun().0.at_rest() == state.at_rest());
    assert(state.at_rest().at_rest() == state.at_rest());
}

} // verus!
