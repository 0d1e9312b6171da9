//! Hexadecimal digits: value of a digit character, digit character of a
//! nibble, and the nibbles of a byte.

use vstd::prelude::*;

verus! {

/// True iff the character is a hexadecimal digit, either case.
pub open spec fn is_hex_digit(c: char) -> bool {
    ('0' <= c && c <= '9') || ('a' <= c && c <= 'f') || ('A' <= c && c <= 'F')
}

/// The numeric value of a hexadecimal digit character (meaningful only
/// when `is_hex_digit` holds).
pub open spec fn hex_val(c: char) -> u8 {
    if '0' <= c && c <= '9' {
        ((c as u32) - 48) as u8
    } else if 'a' <= c && c <= 'f' {
        ((c as u32) - 87) as u8
    } else {
        ((c as u32) - 55) as u8
    }
}

/// The lowercase digit character of a nibble (meaningful only when `n < 16`).
pub open spec fn hex_char_lower(n: u8) -> char {
    if n < 10 {
        ((n + 48) as u8) as char
    } else {
        ((n + 87) as u8) as char
    }
}

/// The uppercase digit character of a nibble (meaningful only when `n < 16`).
pub open spec fn hex_char_upper(n: u8) -> char {
    if n < 10 {
        ((n + 48) as u8) as char
    } else {
        ((n + 55) as u8) as char
    }
}

/// Nibble `h` of a byte sequence: the high half of byte `h / 2` when `h`
/// is even, else the low half.
pub open spec fn nibble_of(b: Seq<u8>, h: int) -> u8 {
    if h % 2 == 0 {
        b[h / 2] >> 4
    } else {
        b[h / 2] & 0x0f
    }
}

/// Law: every nibble is below 16.
pub proof fn lemma_nibble_bound(b: Seq<u8>, h: int)
    requires
        0 <= h / 2 < b.len(),
    ensures
        nibble_of(b, h) < 16,
{
    let x = b[h / 2];
    assert(x >> 4 < 16 && x & 0x0f < 16) by (bit_vector);
}

/// Law: a byte is recovered from its two nibbles.
pub proof fn lemma_nibbles_recover_byte(x: u8)
    ensures
        (x >> 4) * 16 + (x & 0x0f) == x,
{
    assert((x >> 4) * 16 + (x & 0x0f) == x) by (bit_vector);
}

/// Law: rendering a nibble and reading the digit back is the identity,
/// in either case, and the rendered character is a hexadecimal digit.
pub proof fn lemma_hex_digit_round_trip(n: u8)
    requires
        n < 16,
    ensures
        is_hex_digit(hex_char_lower(n)),
        is_hex_digit(hex_char_upper(n)),
        hex_val(hex_char_lower(n)) == n,
        hex_val(hex_char_upper(n)) == n,
{
}

/// The numeric value of a hexadecimal digit character, or nothing when
/// the character is not one.
pub fn hex_val_of(c: char) -> (r: Option<u8>)
    ensures
        r is Some <==> is_hex_digit(c),
        r matches Some(v) ==> v == hex_val(c) && v < 16,
{
    if '0' <= c && c <= '9' {
        Some((c as u8) - 48)
    } else if 'a' <= c && c <= 'f' {
        Some((c as u8) - 87)
    } else if 'A' <= c && c <= 'F' {
        Some((c as u8) - 55)
    } else {
        None
    }
}

/// A one-character string slice holding the digit of a nibble, in the
/// asked-for case.
pub fn hex_digit_str(n: u8, upper: bool) -> (d: &'static str)
    requires
        n < 16,
    ensures
        d@.len() == 1,
        d@[0] == if upper {
            hex_char_upper(n)
        } else {
            hex_char_lower(n)
        },
{
    let tbl = if upper {
        "0123456789ABCDEF"
    } else {
        "0123456789abcdef"
    };
    proof {
        reveal_strlit("0123456789ABCDEF");
        reveal_strlit("0123456789abcdef");
        assert(tbl@.len() == 16);
        assert(tbl.is_ascii());
    }
    let d = tbl.substring_ascii(n as usize, (n as usize) + 1);
    proof {
        assert(d@[0] == tbl@[n as int]);
        assert(tbl@[n as int] == if upper {
            hex_char_upper(n)
        } else {
            hex_char_lower(n)
        });
    }
    d
}

} // verus!
