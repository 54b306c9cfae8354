//! The characters an account number is written in, and their numeric values.

use vstd::prelude::*;

verus! {

/// An uppercase Latin letter.
pub open spec fn upper_letter(c: char) -> bool {
    'A' <= c && c <= 'Z'
}

/// A lowercase Latin letter.
pub open spec fn lower_letter(c: char) -> bool {
    'a' <= c && c <= 'z'
}

/// A decimal digit.
pub open spec fn decimal_digit(c: char) -> bool {
    '0' <= c && c <= '9'
}

/// A character of the account number alphabet: a digit or an uppercase letter.
pub open spec fn alphanumeric(c: char) -> bool {
    upper_letter(c) || decimal_digit(c)
}

/// A whitespace character that separates printed groups.
pub open spec fn blank(c: char) -> bool {
    c == ' ' || c == '\t' || c == '\n' || c == '\r' || c == '\x0c'
}

/// The uppercase form of a character: lowercase Latin letters are raised,
/// every other character stays.
pub open spec fn uppercased(c: char) -> char {
    if lower_letter(c) {
        ((c as u32 - 32) as u32) as char
    } else {
        c
    }
}

/// The base-36 value of an alphabet character: a digit stands for itself,
/// `A` for 10 up to `Z` for 35.
pub open spec fn numeric_value(c: char) -> int {
    if decimal_digit(c) {
        c as u32 as int - 48
    } else {
        c as u32 as int - 55
    }
}

pub fn is_upper_letter(c: char) -> (r: bool)
    ensures
        r == upper_letter(c),
{
    'A' <= c && c <= 'Z'
}

pub fn is_decimal_digit(c: char) -> (r: bool)
    ensures
        r == decimal_digit(c),
{
    '0' <= c && c <= '9'
}

pub fn is_alphanumeric(c: char) -> (r: bool)
    ensures
        r == alphanumeric(c),
{
    is_upper_letter(c) || is_decimal_digit(c)
}

pub fn is_blank(c: char) -> (r: bool)
    ensures
        r == blank(c),
{
    c == ' ' || c == '\t' || c == '\n' || c == '\r' || c == '\x0c'
}

pub fn to_uppercase(c: char) -> (r: char)
    ensures
        r == uppercased(c),
{
    if 'a' <= c && c <= 'z' {
        let code: u8 = c as u8;
        (code - 32) as char
    } else {
        c
    }
}

/// The base-36 value of `c` as a machine integer.
pub fn value_of(c: char) -> (r: u32)
    requires
        alphanumeric(c),
    ensures
        r == numeric_value(c),
        r <= 35,
        decimal_digit(c) <==> r <= 9,
{
    if '0' <= c && c <= '9' {
        c as u32 - 48
    } else {
        c as u32 - 55
    }
}

/// Raising a character twice is raising it once, and raising never makes a
/// separator.
pub proof fn uppercased_is_stable(c: char)
    ensures
        uppercased(uppercased(c)) == uppercased(c),
        blank(uppercased(c)) == blank(c),
        !lower_letter(uppercased(c)),
{
}

} // verus!
