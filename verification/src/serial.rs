//! Line settings of a serial port, read from the configuration.

use vstd::prelude::*;
use vstd::string::*;
use crate::config::Serial;

verus! {

/// Data bits per character.
#[derive(Clone, Copy, Debug, PartialEq, Eq, Structural)]
pub enum DataBits {
    Five,
    Six,
    Seven,
    Eight,
}

/// The parity bit of a character.
#[derive(Clone, Copy, Debug, PartialEq, Eq, Structural)]
pub enum Parity {
    NoParity,
    Even,
    Odd,
}

/// Stop bits after a character.
#[derive(Clone, Copy, Debug, PartialEq, Eq, Structural)]
pub enum StopBits {
    One,
    Two,
}

/// Seconds a single read or write on the port may take.
pub const PORT_TIMEOUT_SECS: u64 = 1;

/// Everything needed to open the port.
#[derive(Clone, Debug, PartialEq, Eq)]
pub struct SerialSettings {
    pub port: String,
    pub baud_rate: u32,
    pub data_bits: DataBits,
    pub parity: Parity,
    pub stop_bits: StopBits,
    pub timeout_secs: u64,
}

/// The data bits a configured number stands for: five, six and seven are
/// taken as they are, anything else is eight.
pub open spec fn data_bits_for(bits: u16) -> DataBits {
    if bits == 7 {
        DataBits::Seven
    } else if bits == 6 {
        DataBits::Six
    } else if bits == 5 {
        DataBits::Five
    } else {
        DataBits::Eight
    }
}

/// The stop bits a configured number stands for: two if it is two, else one.
pub open spec fn stop_bits_for(bits: u16) -> StopBits {
    if bits == 2 {
        StopBits::Two
    } else {
        StopBits::One
    }
}

/// The code of a character, capital Latin letters counted as their small
/// ones.
pub open spec fn folded(c: char) -> u32 {
    if 'A' <= c && c <= 'Z' {
        (c as u32 + 32) as u32
    } else {
        c as u32
    }
}

/// Whether two texts are the same but for the case of Latin letters.
pub open spec fn same_word(text: Seq<char>, word: Seq<char>) -> bool {
    &&& text.len() == word.len()
    &&& forall|i: int| 0 <= i < text.len() ==> folded(#[trigger] text[i]) == folded(word[i])
}

/// The parity a configured word stands for: `even` and `odd` in any case,
/// and none for every other word.
pub open spec fn parity_for(word: Seq<char>) -> Parity {
    if same_word(word, "even"@) {
        Parity::Even
    } else if same_word(word, "odd"@) {
        Parity::Odd
    } else {
        Parity::NoParity
    }
}

/// The data bits a configured number stands for.
pub fn data_bits_of(bits: u16) -> (out: DataBits)
    ensures
        out == data_bits_for(bits),
{
    if bits == 7 {
        DataBits::Seven
    } else if bits == 6 {
        DataBits::Six
    } else if bits == 5 {
        DataBits::Five
    } else {
        DataBits::Eight
    }
}

/// The stop bits a configured number stands for.
pub fn stop_bits_of(bits: u16) -> (out: StopBits)
    ensures
        out == stop_bits_for(bits),
{
    if bits == 2 {
        StopBits::Two
    } else {
        StopBits::One
    }
}

fn fold(c: char) -> (code: u32)
    ensures
        code == folded(c),
{
    if 'A' <= c && c <= 'Z' {
        c as u32 + 32
    } else {
        c as u32
    }
}

/// Whether two texts are the same but for the case of Latin letters.
pub fn is_word(text: &str, word: &str) -> (same: bool)
    ensures
        same == same_word(text@, word@),
{
    let len: usize = text.unicode_len();
    if len != word.unicode_len() {
        return false;
    }
    let mut i: usize = 0;
    while i < len
        invariant
            i <= len,
            len == text@.len(),
            len == word@.len(),
            forall|j: int| 0 <= j < i ==> folded(#[trigger] text@[j]) == folded(word@[j]),
        decreases len - i,
    {
        if fold(text.get_char(i)) != fold(word.get_char(i)) {
            return false;
        }
        i += 1;
    }
    true
}

/// The parity a configured word stands for.
pub fn parity_of(word: &str) -> (out: Parity)
    ensures
        out == parity_for(word@),
{
    if is_word(word, "even") {
        Parity::Even
    } else if is_word(word, "odd") {
        Parity::Odd
    } else {
        Parity::NoParity
    }
}

impl SerialSettings {
    /// The settings a serial configuration asks for.
    pub fn from_serial(serial: &Serial) -> (settings: SerialSettings)
        ensures
            settings.port@ == serial.port@,
            settings.baud_rate == serial.baud_rate,
            settings.data_bits == data_bits_for(serial.data_bits),
            settings.parity == parity_for(serial.parity@),
            settings.stop_bits == stop_bits_for(serial.stop_bits),
            settings.timeout_secs == PORT_TIMEOUT_SECS,
    {
        SerialSettings {
            port: serial.port.clone(),
            baud_rate: serial.baud_rate as u32,
            data_bits: data_bits_of(serial.data_bits),
            parity: parity_of(serial.parity.as_str()),
            stop_bits: stop_bits_of(serial.stop_bits),
            timeout_secs: PORT_TIMEOUT_SECS,
        }
    }
}

} // verus!
