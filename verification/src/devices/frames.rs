//! Fieldbus frames: the request that reads one register, and the way from
//! the bytes of an answer to the value of a channel.
//!
//! Frames are built and taken apart by `rmodbus`. What its functions return
//! is named here, and the steps between them are stated over those names.

use vstd::prelude::*;
use rmodbus::client::ModbusRequest;
use rmodbus::consts::ModbusFunction;
use rmodbus::{ErrorKind, ModbusProto};
use crate::error::ProtocolFault;
use crate::reading::Decimal;

verus! {

/// `rmodbus::ErrorKind`: the reasons `rmodbus` gives for refusing a frame.
#[verifier::external_type_specification]
pub struct ExErrorKind(ErrorKind);

/// The two wire encodings of the fieldbus.
#[derive(Clone, Copy, Debug, PartialEq, Eq, Structural)]
pub enum Encoding {
    /// Binary frames closed by a CRC.
    Rtu,
    /// Printable frames: a colon, hexadecimal digits, a line end.
    Ascii,
}

/// The register table a read addresses.
#[derive(Clone, Copy, Debug, PartialEq, Eq, Structural)]
pub enum RegisterTable {
    /// Holding registers, function code 3.
    Holding,
    /// Input registers, function code 4.
    Input,
}

/// One register read: the station, the table and the register.
#[derive(Clone, Copy, Debug, PartialEq, Eq, Structural)]
pub struct RegisterRead {
    pub unit: u8,
    pub table: RegisterTable,
    pub register: u16,
}

/// Registers asked for by one request.
pub const REGISTER_COUNT: u16 = 1;

/// Bytes read of every answer before its length is known.
pub const HEADER_LEN: usize = 7;

impl Encoding {
    /// Whether this is the printable encoding.
    pub open spec fn is_ascii(self) -> bool {
        self == Encoding::Ascii
    }

    /// Length of a binary frame that holds a station, a function, a byte
    /// count and a checksum, and no data.
    pub open spec fn bare_len(self) -> nat {
        match self {
            Encoding::Rtu => 5,
            Encoding::Ascii => 4,
        }
    }
}

impl RegisterTable {
    /// The function code that reads this table.
    pub open spec fn code(self) -> u8 {
        match self {
            RegisterTable::Holding => 3,
            RegisterTable::Input => 4,
        }
    }

    /// The table a function code reads, if it reads registers at all.
    pub open spec fn of_code(function: u16) -> Option<RegisterTable> {
        if function == 3 {
            Some(RegisterTable::Holding)
        } else if function == 4 {
            Some(RegisterTable::Input)
        } else {
            None
        }
    }

    /// The table a function code reads, if it reads registers at all.
    pub fn from_code(function: u16) -> (table: Option<RegisterTable>)
        ensures
            table == Self::of_code(function),
            table matches Some(t) ==> t.code() == function,
    {
        if function == 3 {
            Some(RegisterTable::Holding)
        } else if function == 4 {
            Some(RegisterTable::Input)
        } else {
            None
        }
    }
}

/// How a refusal by `rmodbus` is reported: a checksum mismatch as such,
/// frames it cannot make sense of as malformed, and every code a station
/// can answer with as an exception.
pub open spec fn fault_of(kind: ErrorKind) -> ProtocolFault {
    match kind {
        ErrorKind::FrameCRCError => ProtocolFault::Checksum,
        ErrorKind::OOB => ProtocolFault::Malformed,
        ErrorKind::OOBContext => ProtocolFault::Malformed,
        ErrorKind::FrameBroken => ProtocolFault::Malformed,
        ErrorKind::Utf8Error => ProtocolFault::Malformed,
        ErrorKind::ReadCallOnWriteFrame => ProtocolFault::Malformed,
        ErrorKind::WriteCallOnReadFrame => ProtocolFault::Malformed,
        _ => ProtocolFault::Exception,
    }
}

/// Reports a refusal by `rmodbus` as a fault of the protocol.
pub fn classify(kind: ErrorKind) -> (fault: ProtocolFault)
    ensures
        fault == fault_of(kind),
{
    match kind {
        ErrorKind::FrameCRCError => ProtocolFault::Checksum,
        ErrorKind::OOB => ProtocolFault::Malformed,
        ErrorKind::OOBContext => ProtocolFault::Malformed,
        ErrorKind::FrameBroken => ProtocolFault::Malformed,
        ErrorKind::Utf8Error => ProtocolFault::Malformed,
        ErrorKind::ReadCallOnWriteFrame => ProtocolFault::Malformed,
        ErrorKind::WriteCallOnReadFrame => ProtocolFault::Malformed,
        _ => ProtocolFault::Exception,
    }
}

// ---------------------------------------------------------------------
// Requests
// ---------------------------------------------------------------------

/// The binary frame `rmodbus` builds to read `count` holding registers from
/// `register` of station `unit`, closed by an LRC where `ascii` holds and by
/// a CRC where it does not.
pub uninterp spec fn holdings_request(unit: u8, register: u16, count: u16, ascii: bool) -> Result<Seq<u8>, ErrorKind>;

/// The same for input registers.
pub uninterp spec fn inputs_request(unit: u8, register: u16, count: u16, ascii: bool) -> Result<Seq<u8>, ErrorKind>;

/// Calls `ModbusRequest::generate_get_holdings` on a fresh request for
/// station `unit`. The contract only names what comes back.
#[verifier::external_body]
fn generate_get_holdings(unit: u8, register: u16, count: u16, encoding: Encoding) -> (out: Result<Vec<u8>, ErrorKind>)
    ensures
        match out {
            Ok(frame) => holdings_request(unit, register, count, encoding.is_ascii()) == Ok::<Seq<u8>, ErrorKind>(frame@),
            Err(kind) => holdings_request(unit, register, count, encoding.is_ascii()) == Err::<Seq<u8>, ErrorKind>(kind),
        },
{
    let proto = match encoding {
        Encoding::Rtu => ModbusProto::Rtu,
        Encoding::Ascii => ModbusProto::Ascii,
    };
    let mut frame = Vec::new();
    ModbusRequest::new(unit, proto).generate_get_holdings(register, count, &mut frame)?;
    Ok(frame)
}

/// Calls `ModbusRequest::generate_get_inputs` on a fresh request for
/// station `unit`. The contract only names what comes back.
#[verifier::external_body]
fn generate_get_inputs(unit: u8, register: u16, count: u16, encoding: Encoding) -> (out: Result<Vec<u8>, ErrorKind>)
    ensures
        match out {
            Ok(frame) => inputs_request(unit, register, count, encoding.is_ascii()) == Ok::<Seq<u8>, ErrorKind>(frame@),
            Err(kind) => inputs_request(unit, register, count, encoding.is_ascii()) == Err::<Seq<u8>, ErrorKind>(kind),
        },
{
    let proto = match encoding {
        Encoding::Rtu => ModbusProto::Rtu,
        Encoding::Ascii => ModbusProto::Ascii,
    };
    let mut frame = Vec::new();
    ModbusRequest::new(unit, proto).generate_get_inputs(register, count, &mut frame)?;
    Ok(frame)
}

/// The character for a value below sixteen: `0` to `9`, then `A` to `F`.
pub open spec fn hex_digit(nibble: int) -> u8 {
    if nibble < 10 {
        (nibble + 48) as u8
    } else {
        (nibble + 55) as u8
    }
}

/// A binary frame in the printable encoding: a colon, two hexadecimal
/// digits for every byte, high digit first, then carriage return and line
/// feed.
pub open spec fn ascii_frame(data: Seq<u8>) -> Seq<u8> {
    Seq::new(
        2 * data.len() + 3,
        |i: int|
            if i == 0 {
                58u8
            } else if i == 2 * data.len() + 1 {
                13u8
            } else if i == 2 * data.len() + 2 {
                10u8
            } else if i % 2 == 1 {
                hex_digit(data[(i - 1) / 2] as int / 16)
            } else {
                hex_digit(data[(i - 1) / 2] as int % 16)
            },
    )
}

/// Calls `rmodbus::generate_ascii_frame` with an empty vector to fill.
/// The contract claims that the call succeeds (pushing to a vector cannot
/// fail) and that the vector then holds the frame as `ascii_frame` spells
/// it out.
#[verifier::external_body]
fn generate_ascii_frame(data: &[u8]) -> (out: Result<Vec<u8>, ErrorKind>)
    ensures
        out is Ok,
        out matches Ok(frame) ==> frame@ == ascii_frame(data@),
{
    let mut frame = Vec::new();
    rmodbus::generate_ascii_frame(data, &mut frame)?;
    Ok(frame)
}

/// The binary request for one register read, before any printable framing.
pub open spec fn binary_request(read: RegisterRead, encoding: Encoding) -> Result<Seq<u8>, ErrorKind> {
    match read.table {
        RegisterTable::Holding => holdings_request(read.unit, read.register, REGISTER_COUNT, encoding.is_ascii()),
        RegisterTable::Input => inputs_request(read.unit, read.register, REGISTER_COUNT, encoding.is_ascii()),
    }
}

/// The bytes put on the wire for one register read: the binary request as
/// it is, or spelled out in the printable encoding.
pub open spec fn wire_request(read: RegisterRead, encoding: Encoding) -> Result<Seq<u8>, ProtocolFault> {
    match binary_request(read, encoding) {
        Ok(binary) => Ok(
            match encoding {
                Encoding::Rtu => binary,
                Encoding::Ascii => ascii_frame(binary),
            },
        ),
        Err(kind) => Err(fault_of(kind)),
    }
}

/// Whether `out` is `expected`, the bytes being compared by their view.
pub open spec fn same_bytes(out: Result<Vec<u8>, ProtocolFault>, expected: Result<Seq<u8>, ProtocolFault>) -> bool {
    match out {
        Ok(bytes) => expected == Ok::<Seq<u8>, ProtocolFault>(bytes@),
        Err(fault) => expected == Err::<Seq<u8>, ProtocolFault>(fault),
    }
}

/// Builds the bytes to put on the wire for one register read.
pub fn request_frame(read: &RegisterRead, encoding: Encoding) -> (out: Result<Vec<u8>, ProtocolFault>)
    ensures
        same_bytes(out, wire_request(*read, encoding)),
{
    let built = match read.table {
        RegisterTable::Holding => generate_get_holdings(read.unit, read.register, REGISTER_COUNT, encoding),
        RegisterTable::Input => generate_get_inputs(read.unit, read.register, REGISTER_COUNT, encoding),
    };
    match built {
        Err(kind) => Err(classify(kind)),
        Ok(binary) => match encoding {
            Encoding::Rtu => Ok(binary),
            Encoding::Ascii => match generate_ascii_frame(binary.as_slice()) {
                Ok(frame) => Ok(frame),
                Err(kind) => Err(classify(kind)),
            },
        },
    }
}

// ---------------------------------------------------------------------
// Answers
// ---------------------------------------------------------------------

/// The length `rmodbus` expects the whole answer to have, judged by its
/// first bytes.
pub uninterp spec fn guessed_frame_len(header: Seq<u8>, ascii: bool) -> Result<u8, ErrorKind>;

/// Calls `rmodbus::guess_response_frame_len`. With seven bytes or more the
/// call reads inside the header only; the contract names what comes back.
#[verifier::external_body]
fn guess_response_frame_len(header: &[u8], encoding: Encoding) -> (out: Result<u8, ErrorKind>)
    requires
        header@.len() >= 7,
    ensures
        out == guessed_frame_len(header@, encoding.is_ascii()),
{
    let proto = match encoding {
        Encoding::Rtu => ModbusProto::Rtu,
        Encoding::Ascii => ModbusProto::Ascii,
    };
    rmodbus::guess_response_frame_len(header, proto)
}

/// The length an answer announces in its header of seven bytes.
pub open spec fn announced_len(header: Seq<u8>, encoding: Encoding) -> Result<u8, ProtocolFault> {
    if header.len() != HEADER_LEN {
        Err(ProtocolFault::ShortRead)
    } else {
        match guessed_frame_len(header, encoding.is_ascii()) {
            Ok(guess) => Ok(guess),
            Err(kind) => Err(fault_of(kind)),
        }
    }
}

/// Reads from the header of an answer how long the whole answer is.
pub fn frame_length(header: &[u8], encoding: Encoding) -> (out: Result<u8, ProtocolFault>)
    ensures
        out == announced_len(header@, encoding),
{
    if header.len() != HEADER_LEN {
        return Err(ProtocolFault::ShortRead);
    }
    match guess_response_frame_len(header, encoding) {
        Ok(guess) => Ok(guess),
        Err(kind) => Err(classify(kind)),
    }
}

/// Bytes still to be read once the header is in: what the announced length
/// has beyond the header.
pub open spec fn rest_len(guess: u8) -> nat {
    if guess > HEADER_LEN {
        (guess - HEADER_LEN) as nat
    } else {
        0
    }
}

/// Bytes still to be read once the header is in.
pub fn remaining_length(guess: u8) -> (rest: usize)
    ensures
        rest == rest_len(guess),
{
    if guess as usize > HEADER_LEN {
        guess as usize - HEADER_LEN
    } else {
        0
    }
}

/// The bytes `rmodbus` decodes from the first `data_len` characters of a
/// printable frame.
pub uninterp spec fn ascii_decoded(data: Seq<u8>, data_len: nat) -> Result<Seq<u8>, ErrorKind>;

/// Calls `rmodbus::parse_ascii_frame`, writing from the start of
/// `frame_buf`. The buffer has room for every pair of characters, so no
/// write falls outside it. The contract claims that the decoded bytes, as
/// many as the call counts, stand at the front of the buffer and that the
/// rest of the buffer is as it was.
#[verifier::external_body]
fn parse_ascii_frame(data: &[u8], data_len: usize, frame_buf: &mut Vec<u8>) -> (out: Result<u8, ErrorKind>)
    requires
        data@.len() >= 1,
        data_len <= data@.len(),
        data_len <= 2 * old(frame_buf)@.len(),
    ensures
        final(frame_buf)@.len() == old(frame_buf)@.len(),
        match out {
            Ok(count) => {
                &&& count <= old(frame_buf)@.len()
                &&& ascii_decoded(data@, data_len as nat) == Ok::<Seq<u8>, ErrorKind>(
                    final(frame_buf)@.subrange(0, count as int),
                )
                &&& final(frame_buf)@.skip(count as int) == old(frame_buf)@.skip(count as int)
            },
            Err(kind) => ascii_decoded(data@, data_len as nat) == Err::<Seq<u8>, ErrorKind>(kind),
        },
{
    rmodbus::parse_ascii_frame(data, data_len, frame_buf.as_mut_slice(), 0)
}

/// Binary bytes carried by a printable frame of `guess` characters: the
/// colon and the line end set aside, two characters to a byte.
pub open spec fn payload_len(guess: u8) -> nat
    recommends
        guess >= 3,
{
    ((guess - 3) / 2) as nat
}

/// `len` zero bytes.
pub open spec fn zeros(len: nat) -> Seq<u8> {
    Seq::new(len, |i: int| 0u8)
}

/// The binary frame inside a printable answer whose header announced
/// `guess` characters: the decoded bytes, filled up with zeros to the
/// length the announcement implies. An answer that decodes to more than
/// that is malformed.
pub open spec fn ascii_payload(frame: Seq<u8>, guess: u8) -> Result<Seq<u8>, ProtocolFault> {
    if guess < 3 {
        Err(ProtocolFault::Malformed)
    } else if frame.len() == 0 || guess > frame.len() {
        Err(ProtocolFault::ShortRead)
    } else {
        match ascii_decoded(frame, guess as nat) {
            Err(kind) => Err(fault_of(kind)),
            Ok(bytes) => if bytes.len() > payload_len(guess) {
                Err(ProtocolFault::Malformed)
            } else {
                Ok(bytes + zeros((payload_len(guess) - bytes.len()) as nat))
            },
        }
    }
}

/// Takes the binary frame out of a printable answer.
pub fn printable_payload(frame: &[u8], guess: u8) -> (out: Result<Vec<u8>, ProtocolFault>)
    ensures
        same_bytes(out, ascii_payload(frame@, guess)),
{
    if guess < 3 {
        return Err(ProtocolFault::Malformed);
    }
    if frame.len() == 0 || guess as usize > frame.len() {
        return Err(ProtocolFault::ShortRead);
    }
    let wanted: usize = (guess as usize - 3) / 2;
    let mut scratch: Vec<u8> = Vec::new();
    while scratch.len() < frame.len()
        invariant
            scratch@.len() <= frame@.len(),
            scratch@ == zeros(scratch@.len()),
        decreases frame@.len() - scratch@.len(),
    {
        scratch.push(0u8);
        assert(scratch@ =~= zeros(scratch@.len()));
    }
    let ghost blank = scratch@;
    match parse_ascii_frame(frame, guess as usize, &mut scratch) {
        Err(kind) => Err(classify(kind)),
        Ok(count) => {
            if count as usize > wanted {
                Err(ProtocolFault::Malformed)
            } else {
                let ghost filled = scratch@;
                scratch.truncate(wanted);
                proof {
                    let bytes = filled.subrange(0, count as int);
                    assert(filled.skip(count as int) == blank.skip(count as int));
                    assert forall|i: int| count <= i < filled.len() implies filled[i] == 0u8 by {
                        assert(filled[i] == filled.skip(count as int)[i - count]);
                        assert(blank.skip(count as int)[i - count] == blank[i]);
                    }
                    assert(scratch@ =~= bytes + zeros((payload_len(guess) - bytes.len()) as nat));
                }
                Ok(scratch)
            }
        },
    }
}

/// The registers `rmodbus` reads out of a binary answer to a request for
/// `count` registers by `function` of station `unit`.
pub uninterp spec fn response_registers(unit: u8, function: u8, count: u16, ascii: bool, frame: Seq<u8>) -> Result<Seq<u16>, ErrorKind>;

/// Whether `rmodbus` accepts a binary answer to a request by `function` of
/// station `unit`.
pub uninterp spec fn response_verdict(unit: u8, function: u8, ascii: bool, frame: Seq<u8>) -> Result<(), ErrorKind>;

/// Calls `ModbusRequest::parse_u16` on a request for `count` registers of
/// `read`. A frame of the bare length may make the call fail past
/// recovery, so it is kept out. The contract only names what comes back.
#[verifier::external_body]
fn parse_u16(read: &RegisterRead, count: u16, encoding: Encoding, frame: &[u8]) -> (out: Result<Vec<u16>, ErrorKind>)
    requires
        frame@.len() != encoding.bare_len(),
    ensures
        match out {
            Ok(registers) => response_registers(read.unit, read.table.code(), count, encoding.is_ascii(), frame@)
                == Ok::<Seq<u16>, ErrorKind>(registers@),
            Err(kind) => response_registers(read.unit, read.table.code(), count, encoding.is_ascii(), frame@)
                == Err::<Seq<u16>, ErrorKind>(kind),
        },
{
    let proto = match encoding {
        Encoding::Rtu => ModbusProto::Rtu,
        Encoding::Ascii => ModbusProto::Ascii,
    };
    let mut request = ModbusRequest::new(read.unit, proto);
    request.func = match read.table {
        RegisterTable::Holding => ModbusFunction::GetHoldings,
        RegisterTable::Input => ModbusFunction::GetInputs,
    };
    request.count = count;
    let mut registers = Vec::new();
    request.parse_u16(frame, &mut registers)?;
    Ok(registers)
}

/// Calls `ModbusRequest::parse_ok` on a request of `read`. The contract
/// only names what comes back.
#[verifier::external_body]
fn parse_ok(read: &RegisterRead, encoding: Encoding, frame: &[u8]) -> (out: Result<(), ErrorKind>)
    ensures
        out == response_verdict(read.unit, read.table.code(), encoding.is_ascii(), frame@),
{
    let proto = match encoding {
        Encoding::Rtu => ModbusProto::Rtu,
        Encoding::Ascii => ModbusProto::Ascii,
    };
    let mut request = ModbusRequest::new(read.unit, proto);
    request.func = match read.table {
        RegisterTable::Holding => ModbusFunction::GetHoldings,
        RegisterTable::Input => ModbusFunction::GetInputs,
    };
    request.parse_ok(frame)
}

/// The registers in a binary answer to `read`. A frame of the bare length
/// has room for none: it is judged as a whole and, if sound, holds no
/// register.
pub open spec fn answer_registers(read: RegisterRead, encoding: Encoding, frame: Seq<u8>) -> Result<Seq<u16>, ProtocolFault> {
    if frame.len() == encoding.bare_len() {
        match response_verdict(read.unit, read.table.code(), encoding.is_ascii(), frame) {
            Ok(_) => Ok(Seq::empty()),
            Err(kind) => Err(fault_of(kind)),
        }
    } else {
        match response_registers(read.unit, read.table.code(), REGISTER_COUNT, encoding.is_ascii(), frame) {
            Ok(registers) => Ok(registers),
            Err(kind) => Err(fault_of(kind)),
        }
    }
}

/// Reads the registers out of a binary answer to `read`.
pub fn registers_of(read: &RegisterRead, encoding: Encoding, frame: &[u8]) -> (out: Result<Vec<u16>, ProtocolFault>)
    ensures
        match out {
            Ok(registers) => answer_registers(*read, encoding, frame@) == Ok::<Seq<u16>, ProtocolFault>(registers@),
            Err(fault) => answer_registers(*read, encoding, frame@) == Err::<Seq<u16>, ProtocolFault>(fault),
        },
{
    let bare: usize = match encoding {
        Encoding::Rtu => 5,
        Encoding::Ascii => 4,
    };
    if frame.len() == bare {
        match parse_ok(read, encoding, frame) {
            Ok(_) => Ok(Vec::new()),
            Err(kind) => Err(classify(kind)),
        }
    } else {
        match parse_u16(read, REGISTER_COUNT, encoding, frame) {
            Ok(registers) => Ok(registers),
            Err(kind) => Err(classify(kind)),
        }
    }
}

/// The value shown for a raw register: the register times ten, in
/// hundredths.
pub open spec fn scaled(raw: u16) -> Decimal {
    Decimal { digits: (raw * 10) as u32, places: 2 }
}

/// The value an answer gives its channel: that of its first register.
pub open spec fn first_value(registers: Seq<u16>) -> Result<Decimal, ProtocolFault> {
    if registers.len() > 0 {
        Ok(scaled(registers[0]))
    } else {
        Err(ProtocolFault::NoData)
    }
}

/// Turns the registers of an answer into the value of its channel.
pub fn value_of(registers: &Vec<u16>) -> (out: Result<Decimal, ProtocolFault>)
    ensures
        out == first_value(registers@),
{
    if registers.len() > 0 {
        let raw: u16 = registers[0];
        Ok(Decimal { digits: raw as u32 * 10, places: 2 })
    } else {
        Err(ProtocolFault::NoData)
    }
}

/// The value in a whole answer to `read`, `guess` being the length its
/// header announced.
pub open spec fn response_value(read: RegisterRead, encoding: Encoding, frame: Seq<u8>, guess: u8) -> Result<Decimal, ProtocolFault> {
    let binary = match encoding {
        Encoding::Rtu => Ok(frame),
        Encoding::Ascii => ascii_payload(frame, guess),
    };
    match binary {
        Err(fault) => Err(fault),
        Ok(bytes) => match answer_registers(read, encoding, bytes) {
            Err(fault) => Err(fault),
            Ok(registers) => first_value(registers),
        },
    }
}

/// Decodes a whole answer to `read` into the value of its channel.
pub fn decode_response(read: &RegisterRead, encoding: Encoding, frame: &[u8], guess: u8) -> (out: Result<Decimal, ProtocolFault>)
    ensures
        out == response_value(*read, encoding, frame@, guess),
{
    let registers = match encoding {
        Encoding::Rtu => registers_of(read, encoding, frame),
        Encoding::Ascii => match printable_payload(frame, guess) {
            Err(fault) => Err(fault),
            Ok(bytes) => registers_of(read, encoding, bytes.as_slice()),
        },
    };
    match registers {
        Err(fault) => Err(fault),
        Ok(found) => value_of(&found),
    }
}

} // verus!
