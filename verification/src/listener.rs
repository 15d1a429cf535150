//! Where the relay listens: the address that it binds, from its configuration.

use crate::text::{chars_of, push_char};
use vstd::prelude::*;
use vstd::string::StringExecFns;

verus! {

/// The port that the relay listens on where none is configured.
pub const DEFAULT_PORT: u16 = 9001;

/// Whether a character is one of the ten ASCII digits.
pub open spec fn is_digit(c: char) -> bool {
    '0' <= c <= '9'
}

/// The value of a digit.
pub open spec fn digit_value(c: char) -> nat {
    (c as u32 - '0' as u32) as nat
}

/// The digit of a value below ten.
pub open spec fn digit_char(value: nat) -> char {
    (value + '0' as u32) as char
}

/// The number that a run of digits is in base ten.
pub open spec fn decimal_value(digits: Seq<char>) -> nat
    decreases digits.len(),
{
    if digits.len() == 0 {
        0
    } else {
        decimal_value(digits.drop_last()) * 10 + digit_value(digits.last())
    }
}

/// A number written in base ten, without leading zeros.
pub open spec fn decimal_text(value: nat) -> Seq<char>
    decreases value,
{
    if value < 10 {
        seq![digit_char(value)]
    } else {
        decimal_text(value / 10).push(digit_char(value % 10))
    }
}

/// The digits of a port as it is configured: what follows an optional plus sign.
pub open spec fn port_digits(text: Seq<char>) -> Seq<char> {
    if text.len() > 0 && text[0] == '+' {
        text.skip(1)
    } else {
        text
    }
}

/// The port that a text names: an optional plus sign and then one or more
/// digits, whose number fits in 16 bits. Any other text names none.
pub open spec fn port_of(text: Seq<char>) -> Option<u16> {
    let digits = port_digits(text);
    if digits.len() > 0 && (forall|i: int| 0 <= i < digits.len() ==> is_digit(#[trigger] digits[i]))
        && decimal_value(digits) <= u16::MAX {
        Some(decimal_value(digits) as u16)
    } else {
        None
    }
}

/// The address that the relay binds: the configured address where there is
/// one; else every interface at the configured port, where that names a port;
/// else every interface at the default port.
pub open spec fn bind_address_spec(server_addr: Option<Seq<char>>, port: Option<Seq<char>>) -> Seq<char> {
    match server_addr {
        Some(addr) => addr,
        None => "0.0.0.0:"@ + decimal_text(
            match port {
                Some(text) => match port_of(text) {
                    Some(number) => number as nat,
                    None => DEFAULT_PORT as nat,
                },
                None => DEFAULT_PORT as nat,
            },
        ),
    }
}

/// A run of digits is worth at least as much as any of its prefixes.
proof fn lemma_decimal_value_grows(digits: Seq<char>, shorter: int)
    requires
        0 <= shorter <= digits.len(),
    ensures
        decimal_value(digits.take(shorter)) <= decimal_value(digits),
    decreases digits.len() - shorter,
{
    if shorter < digits.len() {
        let longer = digits.take(shorter + 1);
        assert(longer.drop_last() == digits.take(shorter));
        lemma_decimal_value_grows(digits, shorter + 1);
    } else {
        assert(digits.take(shorter) == digits);
    }
}

/// Reads a port number as `u16` is read from a string.
#[verifier::loop_isolation(false)]
pub fn parse_port(text: &str) -> (port: Option<u16>)
    ensures
        port == port_of(text@),
{
    let chars = chars_of(text);
    let count = chars.len();
    if count == 0 {
        return None;
    }
    let start: usize = if chars[0] == '+' {
        1
    } else {
        0
    };
    if start == count {
        return None;
    }
    let ghost digits = port_digits(text@);
    let mut value: u32 = 0;
    let mut i: usize = start;
    while i < count
        invariant
            start <= i <= count,
            count == text@.len(),
            digits == text@.skip(start as int),
            forall|j: int| 0 <= j < i - start ==> is_digit(#[trigger] digits[j]),
            value == decimal_value(digits.take(i - start)),
            value <= u16::MAX,
        decreases count - i,
    {
        let c = chars[i];
        proof {
            assert(digits[i - start] == c);
            assert(digits.take(i - start + 1).drop_last() == digits.take(i - start));
            lemma_decimal_value_grows(digits, i - start + 1);
        }
        if !('0' <= c && c <= '9') {
            assert(!is_digit(digits[i - start]));
            return None;
        }
        let digit: u32 = c as u32 - '0' as u32;
        value = value * 10 + digit;
        assert(value == decimal_value(digits.take(i - start + 1)));
        if value > 65535 {
            assert(decimal_value(digits) > u16::MAX);
            return None;
        }
        i += 1;
    }
    proof {
        assert(digits.take(count - start) == digits);
    }
    Some(value as u16)
}

/// Writes a port number in base ten.
pub fn port_text(port: u16) -> (text: String)
    ensures
        text@ == decimal_text(port as nat),
{
    let mut reversed: Vec<char> = Vec::new();
    let mut rest: u16 = port;
    while rest >= 10
        invariant
            decimal_text(port as nat) == decimal_text(rest as nat) + reversed@.reverse(),
        decreases rest,
    {
        let digit: u8 = (rest % 10) as u8;
        let c: char = (digit + 48u8) as char;
        proof {
            assert(c == digit_char((rest % 10) as nat));
            assert(decimal_text(rest as nat) == decimal_text((rest / 10) as nat).push(c));
            assert((reversed@.push(c)).reverse() == seq![c] + reversed@.reverse());
            assert(decimal_text((rest / 10) as nat).push(c) + reversed@.reverse() == decimal_text(
                (rest / 10) as nat,
            ) + (seq![c] + reversed@.reverse()));
        }
        reversed.push(c);
        rest = rest / 10;
    }
    let first: char = (rest as u8 + 48u8) as char;
    let mut text = String::new();
    push_char(&mut text, first);
    proof {
        assert(first == digit_char(rest as nat));
        assert(text@ == decimal_text(rest as nat));
    }
    while reversed.len() > 0
        invariant
            decimal_text(port as nat) == text@ + reversed@.reverse(),
        decreases reversed@.len(),
    {
        let ghost before = reversed@;
        let c = reversed.pop().unwrap();
        proof {
            assert(before.reverse() == seq![c] + reversed@.reverse());
            assert(text@ + (seq![c] + reversed@.reverse()) == text@.push(c) + reversed@.reverse());
        }
        push_char(&mut text, c);
    }
    proof {
        assert(reversed@.reverse() == Seq::<char>::empty());
        assert(text@ + Seq::<char>::empty() == text@);
    }
    text
}

/// The address that the relay binds, from the configured address and the
/// configured port, each absent where it is not set.
pub fn bind_address(server_addr: Option<&str>, port: Option<&str>) -> (address: String)
    ensures
        address@ == bind_address_spec(
            match server_addr {
                Some(addr) => Some(addr@),
                None => None,
            },
            match port {
                Some(text) => Some(text@),
                None => None,
            },
        ),
{
    match server_addr {
        Some(addr) => addr.to_owned(),
        None => {
            let number = match port {
                Some(text) => match parse_port(text) {
                    Some(number) => number,
                    None => DEFAULT_PORT,
                },
                None => DEFAULT_PORT,
            };
            let digits = port_text(number);
            let mut address = "0.0.0.0:".to_owned();
            address.append(digits.as_str());
            address
        },
    }
}

} // verus!
