//! The settings of the serial line, as they are given at startup.
//!
//! Each setting arrives as the text of a command-line option and has to name
//! one of a few values. The text is taken as bytes; a number is written in
//! plain decimal, without sign, blanks or leading zeros.

use vstd::prelude::*;

verus! {

/// Speed of the serial line in bits per second.
#[derive(Clone, Copy, Debug, PartialEq, Eq, Structural)]
pub enum BaudRate {
    Baud110,
    Baud300,
    Baud600,
    Baud1200,
    Baud2400,
    Baud4800,
    Baud9600,
    Baud19200,
    Baud38400,
    Baud57600,
    Baud115200,
}

/// Number of data bits in a character.
#[derive(Clone, Copy, Debug, PartialEq, Eq, Structural)]
pub enum CharSize {
    Bits5,
    Bits6,
    Bits7,
    Bits8,
}

/// Parity bit of a character.
#[derive(Clone, Copy, Debug, PartialEq, Eq, Structural)]
pub enum Parity {
    ParityNone,
    ParityEven,
    ParityOdd,
}

/// Number of stop bits after a character.
#[derive(Clone, Copy, Debug, PartialEq, Eq, Structural)]
pub enum StopBits {
    Stop1,
    Stop2,
}

/// The setting that names no supported value. Each is fatal at startup.
#[derive(Clone, Copy, Debug, PartialEq, Eq, Structural)]
pub enum ConfigError {
    UnsupportedBaudRate,
    UnsupportedCharSize,
    UnsupportedParity,
    UnsupportedStopBits,
}

/// The settings of the serial line.
#[derive(Clone, Copy, Debug, PartialEq, Eq, Structural)]
pub struct SerialSettings {
    pub baud_rate: BaudRate,
    pub char_size: CharSize,
    pub parity: Parity,
    pub stop_bits: StopBits,
}

/// The largest number that any setting names.
pub const LARGEST_SETTING: u32 = 115200;

/// Whether `byte` is an ASCII digit.
pub open spec fn is_digit(byte: u8) -> bool {
    0x30 <= byte <= 0x39
}

/// The number that `text` writes in decimal, where it is one: digits only,
/// at least one, and no zero in front of another digit.
pub open spec fn decimal_value(text: Seq<u8>) -> Option<nat>
    decreases text.len(),
{
    if text.len() == 0 || !is_digit(text.last()) {
        None
    } else if text.len() == 1 {
        Some((text.last() - 0x30) as nat)
    } else {
        match decimal_value(text.drop_last()) {
            Some(front) => if front == 0 {
                None
            } else {
                Some((front * 10 + (text.last() - 0x30)) as nat)
            },
            None => None,
        }
    }
}

impl BaudRate {
    /// The speed in bits per second.
    pub open spec fn bits_per_second(self) -> nat {
        match self {
            BaudRate::Baud110 => 110,
            BaudRate::Baud300 => 300,
            BaudRate::Baud600 => 600,
            BaudRate::Baud1200 => 1200,
            BaudRate::Baud2400 => 2400,
            BaudRate::Baud4800 => 4800,
            BaudRate::Baud9600 => 9600,
            BaudRate::Baud19200 => 19200,
            BaudRate::Baud38400 => 38400,
            BaudRate::Baud57600 => 57600,
            BaudRate::Baud115200 => 115200,
        }
    }
}

impl CharSize {
    /// The number of data bits.
    pub open spec fn bits(self) -> nat {
        match self {
            CharSize::Bits5 => 5,
            CharSize::Bits6 => 6,
            CharSize::Bits7 => 7,
            CharSize::Bits8 => 8,
        }
    }
}

impl StopBits {
    /// The number of stop bits.
    pub open spec fn count(self) -> nat {
        match self {
            StopBits::Stop1 => 1,
            StopBits::Stop2 => 2,
        }
    }
}

impl Parity {
    /// The letter that names the parity.
    pub open spec fn letter(self) -> u8 {
        match self {
            Parity::ParityNone => 0x4E,
            Parity::ParityEven => 0x45,
            Parity::ParityOdd => 0x4F,
        }
    }
}

/// The baud rate of `bps` bits per second, where there is one.
pub open spec fn baud_rate_of(bps: nat) -> Option<BaudRate> {
    if bps == 110 {
        Some(BaudRate::Baud110)
    } else if bps == 300 {
        Some(BaudRate::Baud300)
    } else if bps == 600 {
        Some(BaudRate::Baud600)
    } else if bps == 1200 {
        Some(BaudRate::Baud1200)
    } else if bps == 2400 {
        Some(BaudRate::Baud2400)
    } else if bps == 4800 {
        Some(BaudRate::Baud4800)
    } else if bps == 9600 {
        Some(BaudRate::Baud9600)
    } else if bps == 19200 {
        Some(BaudRate::Baud19200)
    } else if bps == 38400 {
        Some(BaudRate::Baud38400)
    } else if bps == 57600 {
        Some(BaudRate::Baud57600)
    } else if bps == 115200 {
        Some(BaudRate::Baud115200)
    } else {
        None
    }
}

/// The character size of `bits` data bits, where there is one.
pub open spec fn char_size_of(bits: nat) -> Option<CharSize> {
    if bits == 5 {
        Some(CharSize::Bits5)
    } else if bits == 6 {
        Some(CharSize::Bits6)
    } else if bits == 7 {
        Some(CharSize::Bits7)
    } else if bits == 8 {
        Some(CharSize::Bits8)
    } else {
        None
    }
}

/// The setting for `count` stop bits, where there is one.
pub open spec fn stop_bits_of(count: nat) -> Option<StopBits> {
    if count == 1 {
        Some(StopBits::Stop1)
    } else if count == 2 {
        Some(StopBits::Stop2)
    } else {
        None
    }
}

/// The parity that `text` names: the single letter N, E or O.
pub open spec fn parity_named(text: Seq<u8>) -> Option<Parity> {
    if text.len() != 1 {
        None
    } else if text[0] == Parity::ParityNone.letter() {
        Some(Parity::ParityNone)
    } else if text[0] == Parity::ParityEven.letter() {
        Some(Parity::ParityEven)
    } else if text[0] == Parity::ParityOdd.letter() {
        Some(Parity::ParityOdd)
    } else {
        None
    }
}

/// The baud rate that `text` names.
pub open spec fn baud_rate_named(text: Seq<u8>) -> Option<BaudRate> {
    match decimal_value(text) {
        Some(bps) => baud_rate_of(bps),
        None => None,
    }
}

/// The character size that `text` names.
pub open spec fn char_size_named(text: Seq<u8>) -> Option<CharSize> {
    match decimal_value(text) {
        Some(bits) => char_size_of(bits),
        None => None,
    }
}

/// The number of stop bits that `text` names.
pub open spec fn stop_bits_named(text: Seq<u8>) -> Option<StopBits> {
    match decimal_value(text) {
        Some(count) => stop_bits_of(count),
        None => None,
    }
}

/// The settings that the four texts name, or the first of them that names
/// nothing, in the order baud rate, character size, parity, stop bits.
pub open spec fn settings_named(
    baud_rate: Seq<u8>,
    char_size: Seq<u8>,
    parity: Seq<u8>,
    stop_bits: Seq<u8>,
) -> Result<SerialSettings, ConfigError> {
    if baud_rate_named(baud_rate) is None {
        Err(ConfigError::UnsupportedBaudRate)
    } else if char_size_named(char_size) is None {
        Err(ConfigError::UnsupportedCharSize)
    } else if parity_named(parity) is None {
        Err(ConfigError::UnsupportedParity)
    } else if stop_bits_named(stop_bits) is None {
        Err(ConfigError::UnsupportedStopBits)
    } else {
        Ok(
            SerialSettings {
                baud_rate: baud_rate_named(baud_rate)->Some_0,
                char_size: char_size_named(char_size)->Some_0,
                parity: parity_named(parity)->Some_0,
                stop_bits: stop_bits_named(stop_bits)->Some_0,
            },
        )
    }
}

/// What one more byte makes of a text: no number where the byte is no
/// digit or the text so far is no number or a zero alone; otherwise ten
/// times the number so far and the digit.
pub proof fn lemma_one_more_byte(text: Seq<u8>, byte: u8)
    ensures
        decimal_value(text.push(byte)) == if !is_digit(byte) {
            None
        } else if text.len() == 0 {
            Some((byte - 0x30) as nat)
        } else {
            match decimal_value(text) {
                Some(front) => if front == 0 {
                    None
                } else {
                    Some((front * 10 + (byte - 0x30)) as nat)
                },
                None => None,
            }
        },
{
    assert(text.push(byte).drop_last() =~= text);
}

/// A text that writes a number does so from its first byte on, and the
/// number only grows with every digit.
proof fn lemma_value_grows(text: Seq<u8>, k: int)
    requires
        0 < k <= text.len(),
        decimal_value(text) is Some,
    ensures
        decimal_value(text.subrange(0, k)) is Some,
        decimal_value(text.subrange(0, k))->Some_0 <= decimal_value(text)->Some_0,
    decreases text.len(),
{
    if k == text.len() {
        assert(text.subrange(0, k) =~= text);
    } else {
        assert(text.drop_last().subrange(0, k) =~= text.subrange(0, k));
        lemma_value_grows(text.drop_last(), k);
    }
}

/// Reads a number of at most `LARGEST_SETTING` from `text`. `None` where
/// `text` writes no number, or a larger one.
pub fn read_setting(text: &[u8]) -> (value: Option<u32>)
    ensures
        match value {
            Some(v) => decimal_value(text@) == Some(v as nat) && v <= LARGEST_SETTING,
            None => decimal_value(text@) matches Some(v) ==> v > LARGEST_SETTING,
        },
{
    if text.len() == 0 {
        return None;
    }
    let mut value: u32 = 0;
    let mut i: usize = 0;
    while i < text.len()
        invariant
            i <= text@.len(),
            value <= LARGEST_SETTING,
            i == 0 ==> value == 0,
            i > 0 ==> decimal_value(text@.subrange(0, i as int)) == Some(value as nat),
        decreases text@.len() - i,
    {
        let byte = text[i];
        proof {
            assert(text@.subrange(0, i + 1) =~= text@.subrange(0, i as int).push(byte));
            lemma_one_more_byte(text@.subrange(0, i as int), byte);
            if decimal_value(text@) is Some {
                lemma_value_grows(text@, i + 1);
            }
        }
        if byte < 0x30 || byte > 0x39 || (i > 0 && value == 0) {
            return None;
        }
        let digit: u32 = (byte - 0x30) as u32;
        let next: u32 = value * 10 + digit;
        if next > LARGEST_SETTING {
            return None;
        }
        value = next;
        i = i + 1;
    }
    assert(text@.subrange(0, i as int) =~= text@);
    Some(value)
}

/// The baud rate that `text` names: one of 110, 300, 600, 1200, 2400, 4800,
/// 9600, 19200, 38400, 57600 and 115200.
pub fn parse_baud_rate(text: &[u8]) -> (rate: Option<BaudRate>)
    ensures
        rate == baud_rate_named(text@),
{
    match read_setting(text) {
        Some(110) => Some(BaudRate::Baud110),
        Some(300) => Some(BaudRate::Baud300),
        Some(600) => Some(BaudRate::Baud600),
        Some(1200) => Some(BaudRate::Baud1200),
        Some(2400) => Some(BaudRate::Baud2400),
        Some(4800) => Some(BaudRate::Baud4800),
        Some(9600) => Some(BaudRate::Baud9600),
        Some(19200) => Some(BaudRate::Baud19200),
        Some(38400) => Some(BaudRate::Baud38400),
        Some(57600) => Some(BaudRate::Baud57600),
        Some(115200) => Some(BaudRate::Baud115200),
        _ => None,
    }
}

/// The character size that `text` names: 5, 6, 7 or 8.
pub fn parse_char_size(text: &[u8]) -> (size: Option<CharSize>)
    ensures
        size == char_size_named(text@),
{
    match read_setting(text) {
        Some(5) => Some(CharSize::Bits5),
        Some(6) => Some(CharSize::Bits6),
        Some(7) => Some(CharSize::Bits7),
        Some(8) => Some(CharSize::Bits8),
        _ => None,
    }
}

/// The parity that `text` names: N, E or O.
pub fn parse_parity(text: &[u8]) -> (parity: Option<Parity>)
    ensures
        parity == parity_named(text@),
{
    if text.len() != 1 {
        return None;
    }
    match text[0] {
        0x4E => Some(Parity::ParityNone),
        0x45 => Some(Parity::ParityEven),
        0x4F => Some(Parity::ParityOdd),
        _ => None,
    }
}

/// The number of stop bits that `text` names: 1 or 2.
pub fn parse_stop_bits(text: &[u8]) -> (stop_bits: Option<StopBits>)
    ensures
        stop_bits == stop_bits_named(text@),
{
    match read_setting(text) {
        Some(1) => Some(StopBits::Stop1),
        Some(2) => Some(StopBits::Stop2),
        _ => None,
    }
}

impl SerialSettings {
    /// The settings that the four option texts name, or the first text
    /// that names no supported value.
    pub fn parse(baud_rate: &[u8], char_size: &[u8], parity: &[u8], stop_bits: &[u8]) -> (result:
        Result<SerialSettings, ConfigError>)
        ensures
            result == settings_named(baud_rate@, char_size@, parity@, stop_bits@),
    {
        let baud_rate = match parse_baud_rate(baud_rate) {
            Some(rate) => rate,
            None => {
                return Err(ConfigError::UnsupportedBaudRate);
            },
        };
        let char_size = match parse_char_size(char_size) {
            Some(size) => size,
            None => {
                return Err(ConfigError::UnsupportedCharSize);
            },
        };
        let parity = match parse_parity(parity) {
            Some(parity) => parity,
            None => {
                return Err(ConfigError::UnsupportedParity);
            },
        };
        let stop_bits = match parse_stop_bits(stop_bits) {
            Some(stop_bits) => stop_bits,
            None => {
                return Err(ConfigError::UnsupportedStopBits);
            },
        };
        Ok(SerialSettings { baud_rate, char_size, parity, stop_bits })
    }
}

} // verus!
