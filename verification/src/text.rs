//! The canonical textual form of a UUID: 36 characters in the
//! `xxxxxxxx-xxxx-xxxx-xxxx-xxxxxxxxxxxx` hyphenated hex grouping,
//! with parsing back to the 16-byte binary form.

use vstd::prelude::*;

use crate::hex::hex_char_lower;
use crate::hex::hex_char_upper;
use crate::hex::hex_digit_str;
use crate::hex::hex_val;
use crate::hex::hex_val_of;
use crate::hex::is_hex_digit;
use crate::hex::lemma_hex_digit_round_trip;
use crate::hex::lemma_nibble_bound;
use crate::hex::lemma_nibbles_recover_byte;
use crate::hex::nibble_of;
use crate::value::Uuid;

verus! {

/// True iff position `i` of the 36-character text holds a hyphen:
/// the separators of the 8-4-4-4-12 grouping.
pub open spec fn is_hyphen_pos(i: int) -> bool {
    i == 8 || i == 13 || i == 18 || i == 23
}

/// The text position of hex digit `h` (meaningful for `0 <= h < 32`).
pub open spec fn text_pos(h: int) -> int {
    if h < 8 {
        h
    } else if h < 12 {
        h + 1
    } else if h < 16 {
        h + 2
    } else if h < 20 {
        h + 3
    } else {
        h + 4
    }
}

/// The hex digit index of a non-hyphen text position (meaningful for
/// `0 <= i < 36` with `!is_hyphen_pos(i)`).
pub open spec fn hex_index(i: int) -> int {
    if i < 8 {
        i
    } else if i < 13 {
        i - 1
    } else if i < 18 {
        i - 2
    } else if i < 23 {
        i - 3
    } else {
        i - 4
    }
}

/// Character `i` of the canonical text of 16 bytes.
pub open spec fn canon_char(b: Seq<u8>, i: int, upper: bool) -> char {
    if is_hyphen_pos(i) {
        '-'
    } else if upper {
        hex_char_upper(nibble_of(b, hex_index(i)))
    } else {
        hex_char_lower(nibble_of(b, hex_index(i)))
    }
}

/// The canonical 36-character text of 16 bytes.
pub open spec fn canonical_text(b: Seq<u8>, upper: bool) -> Seq<char> {
    Seq::new(36, |i: int| canon_char(b, i, upper))
}

/// True iff the text is a canonical UUID: exactly 36 characters,
/// hyphens at the four fixed positions, hex digits everywhere else.
pub open spec fn is_canonical(s: Seq<char>) -> bool {
    &&& s.len() == 36
    &&& forall|i: int| 0 <= i < 36 && is_hyphen_pos(i) ==> #[trigger] s[i] == '-'
    &&& forall|i: int| 0 <= i < 36 && !is_hyphen_pos(i) ==> is_hex_digit(#[trigger] s[i])
}

/// Byte `j` decoded from canonical text (meaningful for `0 <= j < 16`
/// on canonical text).
pub open spec fn decoded_byte(s: Seq<char>, j: int) -> u8 {
    (hex_val(s[text_pos(2 * j)]) * 16 + hex_val(s[text_pos(2 * j + 1)])) as u8
}

/// The 16 bytes decoded from canonical text.
pub open spec fn decoded(s: Seq<char>) -> Seq<u8> {
    Seq::new(16, |j: int| decoded_byte(s, j))
}

/// The text position of hex digit `h`.
fn text_pos_of(h: usize) -> (p: usize)
    requires
        h < 32,
    ensures
        p == text_pos(h as int),
        p < 36,
        !is_hyphen_pos(p as int),
        hex_index(p as int) == h,
{
    if h < 8 {
        h
    } else if h < 12 {
        h + 1
    } else if h < 16 {
        h + 2
    } else if h < 20 {
        h + 3
    } else {
        h + 4
    }
}

/// The hex digit index of a non-hyphen text position.
fn hex_index_of(i: usize) -> (h: usize)
    requires
        i < 36,
        !is_hyphen_pos(i as int),
    ensures
        h == hex_index(i as int),
        h < 32,
{
    if i < 8 {
        i
    } else if i < 13 {
        i - 1
    } else if i < 18 {
        i - 2
    } else if i < 23 {
        i - 3
    } else {
        i - 4
    }
}

/// Converts canonical or loosely-canonical text into the binary value:
/// the decoded 16 bytes on success, nothing when the text cannot be
/// interpreted as a UUID (wrong length, non-hex characters, malformed
/// separators). All-or-nothing; never panics, whatever the input.
pub fn uuid_parse(s: &str) -> (r: Option<Uuid>)
    ensures
        r is Some <==> is_canonical(s@),
        r matches Some(uu) ==> uu@ == decoded(s@),
{
    if s.unicode_len() != 36 {
        return None;
    }
    if s.get_char(8) != '-' || s.get_char(13) != '-' || s.get_char(18) != '-' || s.get_char(23)
        != '-' {
        return None;
    }
    let mut out: [u8; 16] = [0u8; 16];
    let mut j: usize = 0;
    while j < 16
        invariant
            j <= 16,
            s@.len() == 36,
            s@[8] == '-' && s@[13] == '-' && s@[18] == '-' && s@[23] == '-',
            forall|h: int| 0 <= h < 2 * j ==> is_hex_digit(#[trigger] s@[text_pos(h)]),
            forall|k: int| 0 <= k < j ==> out@[k] == decoded_byte(s@, k),
        decreases 16 - j,
    {
        let hi_pos = text_pos_of(2 * j);
        let hi = match hex_val_of(s.get_char(hi_pos)) {
            Some(v) => v,
            None => {
                return None;
            },
        };
        let lo_pos = text_pos_of(2 * j + 1);
        let lo = match hex_val_of(s.get_char(lo_pos)) {
            Some(v) => v,
            None => {
                return None;
            },
        };
        out[j] = hi * 16 + lo;
        j += 1;
    }
    proof {
        assert forall|i: int| 0 <= i < 36 && !is_hyphen_pos(i) implies is_hex_digit(s@[i]) by {
            assert(text_pos(hex_index(i)) == i);
            assert(is_hex_digit(s@[text_pos(hex_index(i))]));
        }
        assert(out@ =~= decoded(s@));
    }
    Some(Uuid(out))
}

/// Renders the canonical text, in the asked-for case.
fn unparse_core(u: &Uuid, upper: bool) -> (r: String)
    ensures
        r@ == canonical_text(u@, upper),
{
    let ghost target = canonical_text(u@, upper);
    proof {
        reveal_strlit("-");
    }
    let mut out = String::new();
    let mut i: usize = 0;
    while i < 36
        invariant
            i <= 36,
            out@ == canonical_text(u@, upper).take(i as int),
        decreases 36 - i,
    {
        if i == 8 || i == 13 || i == 18 || i == 23 {
            out.append("-");
            proof {
                reveal_strlit("-");
                assert(out@ =~= canonical_text(u@, upper).take(i as int + 1));
            }
        } else {
            let h = hex_index_of(i);
            let nib = if h % 2 == 0 {
                u.0[h / 2] >> 4
            } else {
                u.0[h / 2] & 0x0f
            };
            proof {
                lemma_nibble_bound(u@, h as int);
                assert(text_pos(h as int) == i);
            }
            let d = hex_digit_str(nib, upper);
            out.append(d);
            proof {
                assert(out@ =~= canonical_text(u@, upper).take(i as int + 1));
            }
        }
        i += 1;
    }
    proof {
        assert(canonical_text(u@, upper).take(36) =~= canonical_text(u@, upper));
    }
    out
}

/// Renders a UUID in the facility's default casing — here lowercase,
/// internally consistent with `uuid_parse`.
pub fn uuid_unparse(s: Uuid) -> (r: String)
    ensures
        r@ == canonical_text(s@, false),
{
    unparse_core(&s, false)
}

/// Renders a UUID with all hex digits forced to lowercase.
pub fn uuid_unparse_lower(s: Uuid) -> (r: String)
    ensures
        r@ == canonical_text(s@, false),
{
    unparse_core(&s, false)
}

/// Renders a UUID with all hex digits forced to uppercase.
pub fn uuid_unparse_upper(s: Uuid) -> (r: String)
    ensures
        r@ == canonical_text(s@, true),
{
    unparse_core(&s, true)
}

/// Law (round trip): the canonical text of any 16 bytes, in either
/// case, is itself canonical and decodes back to exactly those bytes;
/// so parsing any rendering of a UUID returns the original value.
pub proof fn lemma_round_trip(b: Seq<u8>, upper: bool)
    requires
        b.len() == 16,
    ensures
        is_canonical(canonical_text(b, upper)),
        decoded(canonical_text(b, upper)) == b,
{
    let t = canonical_text(b, upper);
    assert forall|i: int| 0 <= i < 36 && !is_hyphen_pos(i) implies is_hex_digit(t[i]) by {
        let h = hex_index(i);
        lemma_nibble_bound(b, h);
        lemma_hex_digit_round_trip(nibble_of(b, h));
    }
    assert forall|j: int| 0 <= j < 16 implies decoded(t)[j] == b[j] by {
        let hp = text_pos(2 * j);
        let lp = text_pos(2 * j + 1);
        assert(!is_hyphen_pos(hp) && hex_index(hp) == 2 * j);
        assert(!is_hyphen_pos(lp) && hex_index(lp) == 2 * j + 1);
        lemma_nibble_bound(b, 2 * j);
        lemma_nibble_bound(b, 2 * j + 1);
        lemma_hex_digit_round_trip(nibble_of(b, 2 * j));
        lemma_hex_digit_round_trip(nibble_of(b, 2 * j + 1));
        assert(nibble_of(b, 2 * j) == b[j] >> 4 && nibble_of(b, 2 * j + 1) == b[j] & 0x0f);
        lemma_nibbles_recover_byte(b[j]);
    }
    assert(decoded(t) =~= b);
}

/// ASCII lowercasing of one character: an uppercase letter gains 32,
/// anything else is unchanged.
pub open spec fn ascii_lower_char(c: char) -> char {
    if 'A' <= c && c <= 'Z' {
        (((c as u8) + 32) as u8) as char
    } else {
        c
    }
}

/// Law (case invariance): the uppercase and lowercase renderings of the
/// same bytes differ only in the casing of hex digits — lowercasing
/// either one yields the lowercase rendering, hyphens untouched.
pub proof fn lemma_case_invariance(b: Seq<u8>)
    requires
        b.len() == 16,
    ensures
        canonical_text(b, true).map_values(|c: char| ascii_lower_char(c)) == canonical_text(
            b,
            false,
        ),
        canonical_text(b, false).map_values(|c: char| ascii_lower_char(c)) == canonical_text(
            b,
            false,
        ),
{
    let up = canonical_text(b, true);
    let lo = canonical_text(b, false);
    assert forall|i: int| 0 <= i < 36 implies ascii_lower_char(up[i]) == lo[i] && ascii_lower_char(
        lo[i],
    ) == lo[i] by {
        if !is_hyphen_pos(i) {
            lemma_nibble_bound(b, hex_index(i));
        }
    }
    assert(up.map_values(|c: char| ascii_lower_char(c)) =~= lo);
    assert(lo.map_values(|c: char| ascii_lower_char(c)) =~= lo);
}

} // verus!
