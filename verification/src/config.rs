//! What the bridge is configured with: the wireless network, the name it
//! asks an address under, and the port it listens on.

use vstd::prelude::*;
use vstd::utf8::{is_ascii_chars, is_ascii_chars_encode_utf8};

verus! {

/// The port that the bridge listens on where none is configured.
pub const DEFAULT_PORT: u16 = 9001;

/// The configuration of the network side. It is made once and not changed.
#[derive(Clone, Debug, PartialEq, Eq)]
pub struct NetworkConfig {
    pub ssid: String,
    pub passphrase: String,
    pub hostname: String,
    pub port: u16,
}

/// Whether `c` is one of the ten decimal digits.
pub open spec fn is_digit(c: char) -> bool {
    '0' <= c <= '9'
}

/// The number that a run of decimal digits stands for; `None` where one of
/// the characters is not a digit. The empty run stands for zero.
pub open spec fn decimal(digits: Seq<char>) -> Option<nat>
    decreases digits.len(),
{
    if digits.len() == 0 {
        Some(0)
    } else if !is_digit(digits.last()) {
        None
    } else {
        match decimal(digits.drop_last()) {
            Some(value) => Some((value * 10 + (digits.last() as u32 - '0' as u32)) as nat),
            None => None,
        }
    }
}

/// The port that a text names: one or more decimal digits, a plus sign
/// before them or not, that stand for a number of at most 65535.
pub open spec fn parsed_port(text: Seq<char>) -> Option<u16> {
    let digits = if text.len() > 0 && text[0] == '+' {
        text.subrange(1, text.len() as int)
    } else {
        text
    };
    if digits.len() == 0 {
        None
    } else {
        match decimal(digits) {
            Some(value) => if value <= u16::MAX {
                Some(value as u16)
            } else {
                None
            },
            None => None,
        }
    }
}

/// The port to listen on: the one that the text names, or the default.
pub open spec fn listen_port_of(text: Seq<char>) -> u16 {
    match parsed_port(text) {
        Some(port) => port,
        None => DEFAULT_PORT,
    }
}

/// A run with a character that is not a digit stands for no number.
proof fn lemma_stray_character(digits: Seq<char>, at: int)
    requires
        0 <= at < digits.len(),
        !is_digit(digits[at]),
    ensures
        decimal(digits) is None,
    decreases digits.len(),
{
    if at < digits.len() - 1 {
        lemma_stray_character(digits.drop_last(), at);
    }
}

/// The number of a run is at least the number of each of its beginnings.
proof fn lemma_decimal_grows(digits: Seq<char>, upto: int)
    requires
        0 <= upto <= digits.len(),
        decimal(digits) is Some,
    ensures
        decimal(digits.subrange(0, upto)) matches Some(head) && head <= decimal(digits).unwrap(),
    decreases digits.len(),
{
    if upto == digits.len() {
        assert(digits.subrange(0, upto) =~= digits);
    } else {
        assert(digits.drop_last().subrange(0, upto) =~= digits.subrange(0, upto));
        lemma_decimal_grows(digits.drop_last(), upto);
    }
}

/// Reads a port as `parsed_port` says.
pub fn parse_port(text: &str) -> (port: Option<u16>)
    ensures
        port == parsed_port(text@),
{
    let ghost digits = if text@.len() > 0 && text@[0] == '+' {
        text@.subrange(1, text@.len() as int)
    } else {
        text@
    };
    if !text.is_ascii() {
        proof {
            let at = choose|i: int|
                0 <= i < text@.len() && !('\0' <= #[trigger] text@[i] <= '\u{7f}');
            if digits.len() == text@.len() {
                lemma_stray_character(digits, at);
            } else {
                lemma_stray_character(digits, at - 1);
            }
        }
        return None;
    }
    let bytes = text.as_bytes();
    proof {
        is_ascii_chars_encode_utf8(text@);
    }
    let start: usize = if bytes.len() > 0 && bytes[0] == 43 {
        1
    } else {
        0
    };
    if start == bytes.len() {
        return None;
    }
    let mut value: u32 = 0;
    let mut i: usize = start;
    while i < bytes.len()
        invariant
            start <= i <= bytes.len(),
            bytes@.len() == text@.len(),
            forall|k: int| 0 <= k < text@.len() ==> text@[k] as u8 == bytes@[k],
            is_ascii_chars(text@),
            digits == text@.subrange(start as int, text@.len() as int),
            digits == if text@.len() > 0 && text@[0] == '+' {
                text@.subrange(1, text@.len() as int)
            } else {
                text@
            },
            digits.len() > 0,
            decimal(digits.subrange(0, i - start)) == Some(value as nat),
            value <= u16::MAX,
        decreases bytes.len() - i,
    {
        let byte: u8 = bytes[i];
        assert(digits[i - start] == text@[i as int]);
        if byte < 48 || byte > 57 {
            proof {
                lemma_stray_character(digits, i - start);
            }
            return None;
        }
        let ghost head = digits.subrange(0, i - start + 1);
        assert(head.drop_last() =~= digits.subrange(0, i - start));
        assert(head.last() == text@[i as int]);
        value = value * 10 + (byte - 48) as u32;
        assert(decimal(head) == Some(value as nat));
        if value > 65535 {
            proof {
                if decimal(digits) is Some {
                    lemma_decimal_grows(digits, i - start + 1);
                }
            }
            return None;
        }
        i += 1;
    }
    assert(digits.subrange(0, i - start) =~= digits);
    Some(value as u16)
}

/// The port to listen on: the one that the text names, or 9001 where it
/// names none.
pub fn listen_port(text: &str) -> (port: u16)
    ensures
        port == listen_port_of(text@),
{
    match parse_port(text) {
        Some(port) => port,
        None => DEFAULT_PORT,
    }
}

impl NetworkConfig {
    /// The configuration with these names, listening on the port that
    /// `port` names or on the default.
    pub fn new(ssid: &str, passphrase: &str, hostname: &str, port: &str) -> (config: NetworkConfig)
        ensures
            config.ssid@ == ssid@,
            config.passphrase@ == passphrase@,
            config.hostname@ == hostname@,
            config.port == listen_port_of(port@),
    {
        NetworkConfig {
            ssid: ssid.to_owned(),
            passphrase: passphrase.to_owned(),
            hostname: hostname.to_owned(),
            port: listen_port(port),
        }
    }
}

} // verus!
