//! What can go wrong while a session starts or a poll runs.

use vstd::prelude::*;
use vstd::string::*;

verus! {

/// Why an answer from the fieldbus was not accepted.
#[derive(Clone, Copy, Debug, PartialEq, Eq, Structural)]
pub enum ProtocolFault {
    /// The checksum of the frame does not match its content.
    Checksum,
    /// The frame is cut short, badly delimited, or not an answer to the
    /// request that was sent.
    Malformed,
    /// The station answered with an exception code.
    Exception,
    /// Fewer or more bytes arrived than were asked for.
    ShortRead,
    /// The frame is sound but carries no register.
    NoData,
    /// The driver reported an outcome that does not belong to the transfer
    /// the device had asked for.
    OutOfStep,
}

/// Why a session did not start, or why a poll produced no snapshot.
#[derive(Clone, Copy, Debug, PartialEq, Eq, Structural)]
pub enum AcquisitionError {
    /// The configuration lacks what the selected device needs.
    Configuration,
    /// The device could not be brought up, for instance because the serial
    /// port cannot be opened.
    DeviceConstruction,
    /// An answer arrived and was refused.
    Protocol(ProtocolFault),
    /// The poll did not finish within its deadline.
    Timeout,
    /// The line or the network failed.
    Transport,
}

impl AcquisitionError {
    /// Whether the session survives this error: only errors met while
    /// starting are fatal.
    pub open spec fn is_recoverable(&self) -> bool {
        match *self {
            AcquisitionError::Configuration => false,
            AcquisitionError::DeviceConstruction => false,
            AcquisitionError::Protocol(_) => true,
            AcquisitionError::Timeout => true,
            AcquisitionError::Transport => true,
        }
    }

    /// Whether the session survives this error.
    pub fn recoverable(&self) -> (yes: bool)
        ensures
            yes == self.is_recoverable(),
    {
        match self {
            AcquisitionError::Configuration => false,
            AcquisitionError::DeviceConstruction => false,
            _ => true,
        }
    }

    /// The line written to the log for this error.
    pub open spec fn log_line(&self) -> Seq<char> {
        match *self {
            AcquisitionError::Configuration => "configuration lacks the selected device"@,
            AcquisitionError::DeviceConstruction => "device could not be constructed"@,
            AcquisitionError::Protocol(ProtocolFault::Checksum) => "frame checksum mismatch"@,
            AcquisitionError::Protocol(ProtocolFault::Malformed) => "frame malformed"@,
            AcquisitionError::Protocol(ProtocolFault::Exception) => "exception response"@,
            AcquisitionError::Protocol(ProtocolFault::ShortRead) => "short read"@,
            AcquisitionError::Protocol(ProtocolFault::NoData) => "no register in response"@,
            AcquisitionError::Protocol(ProtocolFault::OutOfStep) => "transfer out of step"@,
            AcquisitionError::Timeout => "read_holding_registers timeout"@,
            AcquisitionError::Transport => "transport failure"@,
        }
    }

    /// The line written to the log for this error.
    pub fn message(&self) -> (line: String)
        ensures
            line@ == self.log_line(),
    {
        let text: &str = match self {
            AcquisitionError::Configuration => "configuration lacks the selected device",
            AcquisitionError::DeviceConstruction => "device could not be constructed",
            AcquisitionError::Protocol(ProtocolFault::Checksum) => "frame checksum mismatch",
            AcquisitionError::Protocol(ProtocolFault::Malformed) => "frame malformed",
            AcquisitionError::Protocol(ProtocolFault::Exception) => "exception response",
            AcquisitionError::Protocol(ProtocolFault::ShortRead) => "short read",
            AcquisitionError::Protocol(ProtocolFault::NoData) => "no register in response",
            AcquisitionError::Protocol(ProtocolFault::OutOfStep) => "transfer out of step",
            AcquisitionError::Timeout => "read_holding_registers timeout",
            AcquisitionError::Transport => "transport failure",
        };
        String::from_str(text)
    }
}

} // verus!
