//! The words a device and its driver exchange. A device asks for one
//! transfer at a time; the driver performs it and reports how it went.

use vstd::prelude::*;
use crate::error::AcquisitionError;
use crate::reading::{Snapshot, SnapshotView};

verus! {

/// What a device asks of its driver, or how its poll ended.
#[derive(Debug)]
pub enum Transfer {
    /// Write these bytes to the line.
    Send(Vec<u8>),
    /// Read exactly this many bytes from the line.
    ReceiveExact(usize),
    /// Read once into a zeroed buffer of this many bytes, and report the
    /// whole buffer however few bytes arrived.
    ReceiveOnce(usize),
    /// Fetch this URL and report the body.
    Get(String),
    /// The poll is complete: publish the snapshot.
    Finish(Snapshot),
    /// The poll is abandoned: nothing is published.
    Abort(AcquisitionError),
}

/// How a transfer went.
#[derive(Clone, Debug, PartialEq, Eq)]
pub enum Outcome {
    /// The bytes were written.
    Sent,
    /// These bytes were read.
    Received(Vec<u8>),
    /// The endpoint answered with this body.
    Body(String),
    /// The transfer failed.
    Failed,
}

/// A transfer as contracts see it.
pub enum TransferView {
    Send(Seq<u8>),
    ReceiveExact(nat),
    ReceiveOnce(nat),
    Get(Seq<char>),
    Finish(SnapshotView),
    Abort(AcquisitionError),
}

/// An outcome as contracts see it.
pub enum OutcomeView {
    Sent,
    Received(Seq<u8>),
    Body(Seq<char>),
    Failed,
}

impl View for Transfer {
    type V = TransferView;

    open spec fn view(&self) -> TransferView {
        match *self {
            Transfer::Send(bytes) => TransferView::Send(bytes@),
            Transfer::ReceiveExact(count) => TransferView::ReceiveExact(count as nat),
            Transfer::ReceiveOnce(count) => TransferView::ReceiveOnce(count as nat),
            Transfer::Get(url) => TransferView::Get(url@),
            Transfer::Finish(snapshot) => TransferView::Finish(snapshot@),
            Transfer::Abort(error) => TransferView::Abort(error),
        }
    }
}

impl View for Outcome {
    type V = OutcomeView;

    open spec fn view(&self) -> OutcomeView {
        match *self {
            Outcome::Sent => OutcomeView::Sent,
            Outcome::Received(bytes) => OutcomeView::Received(bytes@),
            Outcome::Body(body) => OutcomeView::Body(body@),
            Outcome::Failed => OutcomeView::Failed,
        }
    }
}

impl TransferView {
    /// Whether this ends the poll, with or without a snapshot.
    pub open spec fn is_final(self) -> bool {
        self is Finish || self is Abort
    }
}

} // verus!
