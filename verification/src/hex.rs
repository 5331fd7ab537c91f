//! Parsing of a committed hex-threshold entry.
//!
//! The pending buffer typed during hex entry is committed as a base-16
//! integer, truncated to a single byte (the value modulo 256). A buffer that
//! is empty or holds any non-hex character is a validation error: the commit
//! is rejected and the threshold stays as it was.

use vstd::prelude::*;

verus! {

/// Whether a character is a hexadecimal digit (either case).
pub open spec fn is_hex_digit(c: char) -> bool {
    (0x30 <= c as u32 && c as u32 <= 0x39) || (0x41 <= c as u32 && c as u32 <= 0x46) || (0x61
        <= c as u32 && c as u32 <= 0x66)
}

/// Numeric value of one hexadecimal digit.
pub open spec fn hex_digit_val(c: char) -> nat
    recommends
        is_hex_digit(c),
{
    if 0x30 <= c as u32 && c as u32 <= 0x39 {
        (c as u32 - 0x30) as nat
    } else if 0x41 <= c as u32 && c as u32 <= 0x46 {
        (c as u32 - 0x41 + 10) as nat
    } else {
        (c as u32 - 0x61 + 10) as nat
    }
}

/// Every character of the sequence is a hexadecimal digit.
pub open spec fn all_hex(s: Seq<char>) -> bool {
    forall|i: int| 0 <= i < s.len() ==> is_hex_digit(s[i])
}

/// The full base-16 value of a digit sequence, most significant digit first.
pub open spec fn hex_value(s: Seq<char>) -> nat
    decreases s.len(),
{
    if s.len() == 0 {
        0
    } else {
        hex_value(s.drop_last()) * 16 + hex_digit_val(s.last())
    }
}

/// The committed threshold byte: the base-16 value truncated to one byte at
/// every step.
pub open spec fn hex_byte(s: Seq<char>) -> nat
    decreases s.len(),
{
    if s.len() == 0 {
        0
    } else {
        (hex_byte(s.drop_last()) * 16 + hex_digit_val(s.last())) % 256
    }
}

proof fn lemma_mod_step(a: nat, d: nat)
    ensures
        ((a % 256) * 16 + d) % 256 == (a * 16 + d) % 256,
{
    let q = a / 256;
    let r = a % 256;
    assert(a == 256 * q + r) by {
        vstd::arithmetic::div_mod::lemma_fundamental_div_mod(a as int, 256);
    }
    assert((a * 16 + d) == 256 * (16 * q) + (r * 16 + d)) by (nonlinear_arith)
        requires
            a == 256 * q + r,
    ;
    vstd::arithmetic::div_mod::lemma_mod_multiples_vanish(
        16 * (q as int),
        (r * 16 + d) as int,
        256,
    );
}

/// Truncating at every step agrees with taking the full base-16 value
/// modulo 256: the commit really is the low byte of what was typed.
pub proof fn lemma_hex_byte_is_value_mod(s: Seq<char>)
    ensures
        hex_byte(s) == hex_value(s) % 256,
    decreases s.len(),
{
    if s.len() == 0 {
    } else {
        lemma_hex_byte_is_value_mod(s.drop_last());
        lemma_mod_step(hex_value(s.drop_last()), hex_digit_val(s.last()));
    }
}

fn hex_char_val(c: char) -> (r: Option<u8>)
    ensures
        r is Some <==> is_hex_digit(c),
        r matches Some(v) ==> v as nat == hex_digit_val(c) && v < 16,
{
    let u = c as u32;
    if 0x30 <= u && u <= 0x39 {
        Some((u - 0x30) as u8)
    } else if 0x41 <= u && u <= 0x46 {
        Some((u - 0x41 + 10) as u8)
    } else if 0x61 <= u && u <= 0x66 {
        Some((u - 0x61 + 10) as u8)
    } else {
        None
    }
}

/// Parses the committed pending buffer. Returns the threshold byte exactly
/// when the buffer is non-empty and all hexadecimal; any other buffer is
/// rejected.
pub fn parse_hex_byte(digits: &Vec<char>) -> (r: Option<u8>)
    ensures
        r is Some <==> digits@.len() > 0 && all_hex(digits@),
        r matches Some(v) ==> v as nat == hex_byte(digits@),
{
    if digits.len() == 0 {
        return None;
    }
    let mut acc: u32 = 0;
    let mut i: usize = 0;
    while i < digits.len()
        invariant
            i <= digits@.len(),
            acc < 256,
            acc as nat == hex_byte(digits@.take(i as int)),
            all_hex(digits@.take(i as int)),
        decreases digits@.len() - i,
    {
        let c = digits[i];
        match hex_char_val(c) {
            Some(v) => {
                acc = (acc * 16 + v as u32) % 256;
            },
            None => {
                proof {
                    assert(!is_hex_digit(digits@[i as int]));
                    assert(!all_hex(digits@));
                }
                return None;
            },
        }
        proof {
            assert(digits@.take(i + 1).drop_last() =~= digits@.take(i as int));
            assert(digits@.take(i + 1).last() == c);
        }
        i = i + 1;
    }
    proof {
        assert(digits@.take(digits@.len() as int) =~= digits@);
    }
    Some(acc as u8)
}

} // verus!
