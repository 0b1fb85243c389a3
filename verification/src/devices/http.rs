//! The HTTP endpoint. One poll fetches one document and hands it on as it
//! came; the configured channels play no part in it.

use vstd::prelude::*;
use vstd::string::*;
use crate::config::Config;
use crate::error::{AcquisitionError, ProtocolFault};
use crate::reading::{Snapshot, SnapshotView};
use crate::transfer::{Outcome, OutcomeView, Transfer, TransferView};

verus! {

/// `serde_json::Error`: why a text is not a JSON document.
#[verifier::external_type_specification]
#[verifier::external_body]
pub struct ExJsonError(serde_json::Error);

/// The document `serde_json` reads from a text, if the text is one.
pub uninterp spec fn json_document(body: Seq<char>) -> Option<serde_json::Value>;

/// Calls `serde_json::from_str` for a `serde_json::Value`. The contract
/// only names what comes back.
#[verifier::external_body]
fn from_str(body: &str) -> (out: Result<serde_json::Value, serde_json::Error>)
    ensures
        match out {
            Ok(document) => json_document(body@) == Some(document),
            Err(_) => json_document(body@) is None,
        },
{
    serde_json::from_str(body)
}

/// The character of a digit.
pub open spec fn digit_char(digit: nat) -> char {
    if digit == 0 {
        '0'
    } else if digit == 1 {
        '1'
    } else if digit == 2 {
        '2'
    } else if digit == 3 {
        '3'
    } else if digit == 4 {
        '4'
    } else if digit == 5 {
        '5'
    } else if digit == 6 {
        '6'
    } else if digit == 7 {
        '7'
    } else if digit == 8 {
        '8'
    } else {
        '9'
    }
}

/// A number in decimal digits, without leading zeros.
pub open spec fn decimal_text(number: nat) -> Seq<char>
    decreases number,
{
    if number < 10 {
        seq![digit_char(number)]
    } else {
        decimal_text(number / 10).push(digit_char(number % 10))
    }
}

/// The address polled: `http://`, the host, a colon, the port.
pub open spec fn endpoint_url(host: Seq<char>, port: u16) -> Seq<char> {
    "http://"@ + host + ":"@ + decimal_text(port as nat)
}

fn digit_text(digit: u16) -> (text: &'static str)
    requires
        digit < 10,
    ensures
        text@ == seq![digit_char(digit as nat)],
{
    proof {
        reveal_strlit("0");
        reveal_strlit("1");
        reveal_strlit("2");
        reveal_strlit("3");
        reveal_strlit("4");
        reveal_strlit("5");
        reveal_strlit("6");
        reveal_strlit("7");
        reveal_strlit("8");
        reveal_strlit("9");
    }
    let text: &'static str = if digit == 0 {
        "0"
    } else if digit == 1 {
        "1"
    } else if digit == 2 {
        "2"
    } else if digit == 3 {
        "3"
    } else if digit == 4 {
        "4"
    } else if digit == 5 {
        "5"
    } else if digit == 6 {
        "6"
    } else if digit == 7 {
        "7"
    } else if digit == 8 {
        "8"
    } else {
        "9"
    };
    assert(text@ =~= seq![digit_char(digit as nat)]);
    text
}

fn append_decimal(text: &mut String, number: u16)
    ensures
        final(text)@ == old(text)@ + decimal_text(number as nat),
    decreases number,
{
    if number >= 10 {
        append_decimal(text, number / 10);
    }
    text.append(digit_text(number % 10));
    assert(text@ =~= old(text)@ + decimal_text(number as nat));
}

/// Spells out the address of an endpoint.
pub fn url_of(host: &str, port: u16) -> (url: String)
    ensures
        url@ == endpoint_url(host@, port),
{
    let mut url = String::from_str("http://");
    url.append(host);
    url.append(":");
    append_decimal(&mut url, port);
    assert(url@ =~= endpoint_url(host@, port));
    url
}

/// Where a poll stands.
#[derive(Clone, Copy, Debug, PartialEq, Eq, Structural)]
pub enum Stage {
    /// No poll is under way.
    Idle,
    /// The document is being fetched.
    Fetching,
}

/// The endpoint as contracts see it.
pub struct HttpState {
    pub url: Seq<char>,
    pub stage: Stage,
}

impl HttpState {
    /// The endpoint a configuration describes, before its first poll: the
    /// one at its network address, if it has one.
    pub open spec fn configured(config: Config) -> Option<HttpState> {
        match config.tcp {
            Some(tcp) => Some(HttpState { url: endpoint_url(tcp.ip@, tcp.port), stage: Stage::Idle }),
            None => None,
        }
    }

    /// This state with no poll under way.
    pub open spec fn at_rest(self) -> HttpState {
        HttpState { stage: Stage::Idle, ..self }
    }

    /// A poll begins: the document is asked for.
    pub open spec fn begun(self) -> (HttpState, TransferView) {
        (HttpState { stage: Stage::Fetching, ..self }, TransferView::Get(self.url))
    }

    /// What a body leads to: the document it holds, or a fault if it holds
    /// none.
    pub open spec fn body_read(body: Seq<char>) -> TransferView {
        match json_document(body) {
            Some(document) => TransferView::Finish(SnapshotView::Document(document)),
            None => TransferView::Abort(AcquisitionError::Protocol(ProtocolFault::Malformed)),
        }
    }

    /// The driver reports an outcome. A fetch that failed still completes
    /// the poll, with nothing in it.
    pub open spec fn resumed(self, outcome: OutcomeView) -> (HttpState, TransferView) {
        match self.stage {
            Stage::Idle => (self.at_rest(), TransferView::Abort(AcquisitionError::Protocol(ProtocolFault::OutOfStep))),
            Stage::Fetching => match outcome {
                OutcomeView::Body(body) => (self.at_rest(), Self::body_read(body)),
                OutcomeView::Failed => (self.at_rest(), TransferView::Finish(SnapshotView::Empty)),
                _ => (self.at_rest(), TransferView::Abort(AcquisitionError::Protocol(ProtocolFault::OutOfStep))),
            },
        }
    }
}

/// The endpoint.
#[derive(Debug)]
pub struct HttpDevice {
    url: String,
    stage: Stage,
}

impl View for HttpDevice {
    type V = HttpState;

    closed spec fn view(&self) -> HttpState {
        HttpState { url: self.url@, stage: self.stage }
    }
}

/// Reads the document out of a body.
pub fn read_body(body: &str) -> (ask: Transfer)
    ensures
        ask@ == HttpState::body_read(body@),
{
    match from_str(body) {
        Ok(document) => Transfer::Finish(Snapshot::Document(document)),
        Err(_) => Transfer::Abort(AcquisitionError::Protocol(ProtocolFault::Malformed)),
    }
}

impl HttpDevice {
    /// The endpoint of a configuration. The configuration must hold a
    /// network address.
    pub fn new(config: Config) -> (out: Result<HttpDevice, AcquisitionError>)
        ensures
            match out {
                Ok(device) => HttpState::configured(config) == Some(device@),
                Err(error) => error == AcquisitionError::Configuration && HttpState::configured(config) is None,
            },
    {
        match config.tcp {
            Some(tcp) => Ok(HttpDevice { url: url_of(tcp.ip.as_str(), tcp.port), stage: Stage::Idle }),
            None => Err(AcquisitionError::Configuration),
        }
    }

    /// Begins a poll and says what to transfer first.
    pub fn begin(&mut self) -> (ask: Transfer)
        ensures
            (final(self)@, ask@) == old(self)@.begun(),
    {
        self.stage = Stage::Fetching;
        Transfer::Get(self.url.clone())
    }

    /// Takes the outcome of the transfer asked for last and says how the
    /// poll ended.
    pub fn resume(&mut self, outcome: Outcome) -> (ask: Transfer)
        ensures
            (final(self)@, ask@) == old(self)@.resumed(outcome@),
    {
        let stage = self.stage;
        self.stage = Stage::Idle;
        match stage {
            Stage::Idle => Transfer::Abort(AcquisitionError::Protocol(ProtocolFault::OutOfStep)),
            Stage::Fetching => match outcome {
                Outcome::Body(body) => read_body(body.as_str()),
                Outcome::Failed => Transfer::Finish(Snapshot::Empty),
                _ => Transfer::Abort(AcquisitionError::Protocol(ProtocolFault::OutOfStep)),
            },
        }
    }
}

} // verus!
