//! Hexadecimal rendering of 64-bit device addresses.
//!
//! A device address is shown in the report and used as the needle when
//! matching serial-port query output.  Both uses render the address the
//! same way: uppercase hex digits, most significant first, no leading
//! zeros.  `lemma_hex_case_fold` shows that this equals rendering in
//! lowercase and then folding the digits to uppercase, so matching on the
//! uppercase form directly loses nothing.

use vstd::prelude::*;
use crate::strutil::chars_to_string;

verus! {

/// The uppercase hex digit character for a value below 16.
pub open spec fn hex_digit_upper(d: nat) -> char
    recommends
        d < 16,
{
    if d == 0 {
        '0'
    } else if d == 1 {
        '1'
    } else if d == 2 {
        '2'
    } else if d == 3 {
        '3'
    } else if d == 4 {
        '4'
    } else if d == 5 {
        '5'
    } else if d == 6 {
        '6'
    } else if d == 7 {
        '7'
    } else if d == 8 {
        '8'
    } else if d == 9 {
        '9'
    } else if d == 10 {
        'A'
    } else if d == 11 {
        'B'
    } else if d == 12 {
        'C'
    } else if d == 13 {
        'D'
    } else if d == 14 {
        'E'
    } else {
        'F'
    }
}

/// The lowercase hex digit character for a value below 16.
pub open spec fn hex_digit_lower(d: nat) -> char
    recommends
        d < 16,
{
    if d == 10 {
        'a'
    } else if d == 11 {
        'b'
    } else if d == 12 {
        'c'
    } else if d == 13 {
        'd'
    } else if d == 14 {
        'e'
    } else if d == 15 {
        'f'
    } else {
        hex_digit_upper(d)
    }
}

/// Uppercase hex rendering of `n`: most significant digit first, no
/// leading zeros; `0` renders as `"0"`.
pub open spec fn hex_upper(n: nat) -> Seq<char>
    decreases n,
{
    if n < 16 {
        seq![hex_digit_upper(n)]
    } else {
        hex_upper(n / 16).push(hex_digit_upper(n % 16))
    }
}

/// Lowercase hex rendering of `n`, digit for digit as `hex_upper`.
pub open spec fn hex_lower(n: nat) -> Seq<char>
    decreases n,
{
    if n < 16 {
        seq![hex_digit_lower(n)]
    } else {
        hex_lower(n / 16).push(hex_digit_lower(n % 16))
    }
}

/// Folds a lowercase hex digit to uppercase; other characters are kept.
pub open spec fn upper_hex_char(c: char) -> char {
    if c == 'a' {
        'A'
    } else if c == 'b' {
        'B'
    } else if c == 'c' {
        'C'
    } else if c == 'd' {
        'D'
    } else if c == 'e' {
        'E'
    } else if c == 'f' {
        'F'
    } else {
        c
    }
}

/// Folds every character of `s` with `upper_hex_char`.
pub open spec fn to_upper_hex(s: Seq<char>) -> Seq<char> {
    s.map_values(|c: char| upper_hex_char(c))
}

/// Law: rendering an address in lowercase and folding the digits to
/// uppercase gives exactly the uppercase rendering.  The report and the
/// port-matching needle therefore agree on one canonical string per
/// address, whichever of the two paths produced it.
pub proof fn lemma_hex_case_fold(n: nat)
    ensures
        to_upper_hex(hex_lower(n)) == hex_upper(n),
    decreases n,
{
    if n < 16 {
        assert(to_upper_hex(hex_lower(n)) =~= hex_upper(n));
    } else {
        lemma_hex_case_fold(n / 16);
        assert(to_upper_hex(hex_lower(n)) =~= hex_upper(n));
    }
}

/// The uppercase hex digit character for `d`.
pub fn hex_digit_char_upper(d: u8) -> (c: char)
    requires
        d < 16,
    ensures
        c == hex_digit_upper(d as nat),
{
    if d == 0 {
        '0'
    } else if d == 1 {
        '1'
    } else if d == 2 {
        '2'
    } else if d == 3 {
        '3'
    } else if d == 4 {
        '4'
    } else if d == 5 {
        '5'
    } else if d == 6 {
        '6'
    } else if d == 7 {
        '7'
    } else if d == 8 {
        '8'
    } else if d == 9 {
        '9'
    } else if d == 10 {
        'A'
    } else if d == 11 {
        'B'
    } else if d == 12 {
        'C'
    } else if d == 13 {
        'D'
    } else if d == 14 {
        'E'
    } else {
        'F'
    }
}

/// The characters of the uppercase hex rendering of `a`.
pub fn hex_chars_upper(a: u64) -> (v: Vec<char>)
    ensures
        v@ == hex_upper(a as nat),
    decreases a,
{
    if a < 16 {
        let mut v: Vec<char> = Vec::new();
        v.push(hex_digit_char_upper(a as u8));
        assert(v@ =~= hex_upper(a as nat));
        v
    } else {
        let mut v = hex_chars_upper(a / 16);
        v.push(hex_digit_char_upper((a % 16) as u8));
        assert(v@ =~= hex_upper(a as nat));
        v
    }
}

/// The uppercase hex rendering of `a` as a string, the one form used both
/// in the printed report and as the port-matching needle.
pub fn format_address(a: u64) -> (s: String)
    ensures
        s@ == hex_upper(a as nat),
{
    let v = hex_chars_upper(a);
    chars_to_string(&v)
}

} // verus!
