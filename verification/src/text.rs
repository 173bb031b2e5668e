//! Building text: characters appended to strings, and bytes and words written as
//! hexadecimal digits.

use vstd::prelude::*;
use vstd::string::StringExecFns;

verus! {

/// Appends a character to a string.
#[verifier::external_body]
pub fn push_char(s: &mut String, c: char)
    ensures
        final(s)@ == old(s)@.push(c),
{
    s.push(c);
}

/// The uppercase hexadecimal digit for 0 to 15.
pub open spec fn hex_char(n: int) -> char {
    if n == 0 { '0' } else if n == 1 { '1' } else if n == 2 { '2' } else if n == 3 { '3' }
    else if n == 4 { '4' } else if n == 5 { '5' } else if n == 6 { '6' } else if n == 7 { '7' }
    else if n == 8 { '8' } else if n == 9 { '9' } else if n == 10 { 'A' } else if n == 11 { 'B' }
    else if n == 12 { 'C' } else if n == 13 { 'D' } else if n == 14 { 'E' } else { 'F' }
}

/// A byte as two uppercase hexadecimal digits.
pub open spec fn hex_byte(value: u8) -> Seq<char> {
    seq![hex_char(value as int / 16), hex_char(value as int % 16)]
}

/// A word as four uppercase hexadecimal digits.
pub open spec fn hex_word(value: u16) -> Seq<char> {
    hex_byte((value as int / 256) as u8) + hex_byte((value as int % 256) as u8)
}

/// The decimal digit for 0 to 9.
pub open spec fn decimal_char(n: int) -> char {
    if n == 0 { '0' } else if n == 1 { '1' } else if n == 2 { '2' } else if n == 3 { '3' }
    else if n == 4 { '4' } else if n == 5 { '5' } else if n == 6 { '6' } else if n == 7 { '7' }
    else if n == 8 { '8' } else { '9' }
}

/// The uppercase hexadecimal digit for `n` (0 to 15).
pub fn hex_digit(n: u8) -> (c: char)
    requires
        n < 16,
    ensures
        c == hex_char(n as int),
{
    match n {
        0 => '0',
        1 => '1',
        2 => '2',
        3 => '3',
        4 => '4',
        5 => '5',
        6 => '6',
        7 => '7',
        8 => '8',
        9 => '9',
        10 => 'A',
        11 => 'B',
        12 => 'C',
        13 => 'D',
        14 => 'E',
        _ => 'F',
    }
}

/// The decimal digit for `n` (0 to 9).
pub fn decimal_digit(n: u8) -> (c: char)
    requires
        n < 10,
    ensures
        c == decimal_char(n as int),
{
    match n {
        0 => '0',
        1 => '1',
        2 => '2',
        3 => '3',
        4 => '4',
        5 => '5',
        6 => '6',
        7 => '7',
        8 => '8',
        _ => '9',
    }
}

/// A string holding `s`.
pub fn text(s: &str) -> (r: String)
    ensures
        r@ == s@,
{
    String::from_str(s)
}

/// Appends a byte as two hexadecimal digits.
pub fn push_hex_byte(s: &mut String, value: u8)
    ensures
        final(s)@ == old(s)@ + hex_byte(value),
{
    push_char(s, hex_digit(value / 16));
    push_char(s, hex_digit(value % 16));
    assert(final(s)@ =~= old(s)@ + hex_byte(value));
}

/// Appends a word as four hexadecimal digits.
pub fn push_hex_word(s: &mut String, value: u16)
    ensures
        final(s)@ == old(s)@ + hex_word(value),
{
    push_hex_byte(s, (value / 256) as u8);
    push_hex_byte(s, (value % 256) as u8);
    assert(final(s)@ =~= old(s)@ + hex_word(value));
}

/// `prefix`, a byte in hexadecimal, then `suffix`.
pub fn with_byte(prefix: &str, value: u8, suffix: &str) -> (r: String)
    ensures
        r@ == prefix@ + hex_byte(value) + suffix@,
{
    let mut s: String = text(prefix);
    push_hex_byte(&mut s, value);
    s.append(suffix);
    s
}

/// `prefix` then a byte in hexadecimal.
pub fn ending_with_byte(prefix: &str, value: u8) -> (r: String)
    ensures
        r@ == prefix@ + hex_byte(value),
{
    let mut s: String = text(prefix);
    push_hex_byte(&mut s, value);
    s
}

/// `prefix`, a word in hexadecimal, then `suffix`.
pub fn with_word(prefix: &str, value: u16, suffix: &str) -> (r: String)
    ensures
        r@ == prefix@ + hex_word(value) + suffix@,
{
    let mut s: String = text(prefix);
    push_hex_word(&mut s, value);
    s.append(suffix);
    s
}

/// `prefix` then a word in hexadecimal.
pub fn ending_with_word(prefix: &str, value: u16) -> (r: String)
    ensures
        r@ == prefix@ + hex_word(value),
{
    let mut s: String = text(prefix);
    push_hex_word(&mut s, value);
    s
}

} // verus!
