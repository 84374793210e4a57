//! Request/blob identifiers: an optional `0x` prefix followed by exactly 64
//! hexadecimal characters naming 32 bytes. This module normalizes, validates
//! and decodes such identifiers.

use vstd::prelude::*;

verus! {

/// `c` is one of `0-9`, `a-f`, `A-F`.
pub open spec fn is_hex_digit(c: char) -> bool {
    (48 <= c as u32 && c as u32 <= 57) || (97 <= c as u32 && c as u32 <= 102) || (65 <= c as u32
        && c as u32 <= 70)
}

/// The numeric value of the hexadecimal digit `c`.
pub open spec fn hex_digit_value(c: char) -> int
    recommends
        is_hex_digit(c),
{
    if 48 <= c as u32 && c as u32 <= 57 {
        c as u32 - 48
    } else if 97 <= c as u32 && c as u32 <= 102 {
        c as u32 - 87
    } else {
        c as u32 - 55
    }
}

/// Every character of `s` is a hexadecimal digit.
pub open spec fn all_hex(s: Seq<char>) -> bool {
    forall|i: int| 0 <= i < s.len() ==> is_hex_digit(#[trigger] s[i])
}

/// `s` is a well-formed 32-byte identifier: exactly 64 hexadecimal characters.
pub open spec fn is_hex_id(s: Seq<char>) -> bool {
    s.len() == 64 && all_hex(s)
}

/// `s` with one leading `0x` removed, if it has one.
pub open spec fn strip_hex_prefix(s: Seq<char>) -> Seq<char> {
    if s.len() >= 2 && s[0] == '0' && s[1] == 'x' {
        s.subrange(2, s.len() as int)
    } else {
        s
    }
}

/// The bytes named by an even-length string of hexadecimal digits, two
/// digits to a byte, most significant first.
pub open spec fn decode_hex(s: Seq<char>) -> Seq<u8>
    recommends
        all_hex(s),
        s.len() % 2 == 0,
    decreases s.len(),
{
    if s.len() < 2 {
        seq![]
    } else {
        seq![(hex_digit_value(s[0]) * 16 + hex_digit_value(s[1])) as u8] + decode_hex(
            s.subrange(2, s.len() as int),
        )
    }
}

/// Asking after an identifier with or without the optional `0x` prefix is
/// equivalent: for any 64-hex-character id, both spellings normalize to the
/// same characters, and so name the same bytes.
pub proof fn lemma_prefix_equivalent(x: Seq<char>)
    requires
        is_hex_id(x),
    ensures
        strip_hex_prefix(seq!['0', 'x'] + x) == x,
        strip_hex_prefix(x) == x,
        is_hex_id(strip_hex_prefix(seq!['0', 'x'] + x)),
        is_hex_id(strip_hex_prefix(x)),
        decode_hex(strip_hex_prefix(seq!['0', 'x'] + x)) == decode_hex(strip_hex_prefix(x)),
{
    let prefixed = seq!['0', 'x'] + x;
    assert(prefixed[0] == '0' && prefixed[1] == 'x');
    assert(prefixed.subrange(2, prefixed.len() as int) =~= x);
    if x.len() >= 2 && x[0] == '0' && x[1] == 'x' {
        assert(is_hex_digit(x[1]));
        assert(false);
    }
}

/// Whether `c` is a hexadecimal digit, decided on its code point.
pub fn is_hex_digit_exec(c: char) -> (r: bool)
    ensures
        r == is_hex_digit(c),
{
    let u = c as u32;
    (48 <= u && u <= 57) || (97 <= u && u <= 102) || (65 <= u && u <= 70)
}

/// Whether every character of `s` is a hexadecimal digit.
pub fn all_hex_exec(s: &str) -> (r: bool)
    ensures
        r == all_hex(s@),
{
    let len = s.unicode_len();
    let mut i: usize = 0;
    while i < len
        invariant
            len == s@.len(),
            i <= len,
            forall|k: int| 0 <= k < i ==> is_hex_digit(#[trigger] s@[k]),
        decreases len - i,
    {
        if !is_hex_digit_exec(s.get_char(i)) {
            return false;
        }
        i = i + 1;
    }
    true
}

fn hex_digit_value_exec(c: char) -> (r: u8)
    requires
        is_hex_digit(c),
    ensures
        r as int == hex_digit_value(c),
{
    let u = c as u32;
    if u <= 57 {
        (u - 48) as u8
    } else if u >= 97 {
        (u - 87) as u8
    } else {
        (u - 55) as u8
    }
}

/// Decode an even-length string of hexadecimal digits to the bytes it names.
pub fn decode_hex_exec(s: &str) -> (r: Vec<u8>)
    requires
        all_hex(s@),
        s@.len() % 2 == 0,
    ensures
        r@ == decode_hex(s@),
{
    let len = s.unicode_len();
    let mut r: Vec<u8> = Vec::new();
    let mut i: usize = 0;
    proof {
        assert(s@.skip(0) == s@);
    }
    while i < len
        invariant
            len == s@.len(),
            all_hex(s@),
            s@.len() % 2 == 0,
            i <= len,
            i % 2 == 0,
            decode_hex(s@) =~= r@ + decode_hex(s@.skip(i as int)),
        decreases len - i,
    {
        let hi = hex_digit_value_exec(s.get_char(i));
        let lo = hex_digit_value_exec(s.get_char(i + 1));
        let byte: u8 = hi * 16 + lo;
        r.push(byte);
        proof {
            let rest = s@.skip(i as int);
            assert(rest.len() >= 2);
            assert(rest[0] == s@[i as int]);
            assert(rest[1] == s@[i as int + 1]);
            assert(rest.subrange(2, rest.len() as int) =~= s@.skip(i as int + 2));
        }
        i = i + 2;
    }
    proof {
        assert(s@.skip(len as int) =~= Seq::<char>::empty());
    }
    r
}

} // verus!
