//! A 128-bit universally unique identifier (UUID) value type, with
//! generation, parsing and rendering in the canonical hyphenated hex form.
//!
//! The value type, the textual codec and their laws are verified; the
//! entropy- and clock-backed generation algorithms are supplied by an
//! external facility behind a narrow, trusted call interface.

use vstd::prelude::*;

mod facility;
mod hex;
mod text;
mod value;

pub use text::ascii_lower_char;
pub use text::canonical_text;
pub use text::decoded;
pub use text::is_canonical;
pub use text::lemma_case_invariance;
pub use text::lemma_round_trip;
pub use text::uuid_parse;
pub use text::uuid_unparse;
pub use text::uuid_unparse_lower;
pub use text::uuid_unparse_upper;
pub use value::nil_bytes;
pub use value::r_uuid_t;
pub use value::uuid_t;
pub use value::Uuid;

verus! {

/// Law: a value whose byte 6 carries a nonzero version nibble is never
/// the nil sentinel.
pub proof fn lemma_versioned_not_nil(s: Seq<u8>)
    requires
        s.len() == 16,
        s[6] & 0xf0 == 0x40 || s[6] & 0xf0 == 0x10,
    ensures
        s != nil_bytes(),
{
    let b = s[6];
    assert((b & 0xf0 == 0x40 || b & 0xf0 == 0x10) ==> b != 0) by (bit_vector);
    assert(nil_bytes()[6] == 0u8);
}

/// General-purpose generation; the algorithm choice is left to the
/// external facility's default policy.
pub fn uuid_generate() -> (r: Uuid)
    ensures
        r@.len() == 16,
        r@ != nil_bytes(),
{
    let b = facility::facility_generate_random();
    proof {
        lemma_versioned_not_nil(b@);
    }
    Uuid::from_bytes(b)
}

/// Generation by a random algorithm (version 4 semantics).
pub fn uuid_generate_random() -> (r: Uuid)
    ensures
        r@.len() == 16,
        r@[6] & 0xf0 == 0x40,
        r@[8] & 0xc0 == 0x80,
        r@ != nil_bytes(),
{
    let b = facility::facility_generate_random();
    proof {
        lemma_versioned_not_nil(b@);
    }
    Uuid::from_bytes(b)
}

/// Generation by a time-based algorithm (version 1 semantics), from the
/// current timestamp and a per-call random node identifier whose
/// multicast bit is set, as RFC 4122 asks of node identifiers that are
/// not MAC addresses.
pub fn uuid_generate_time() -> (r: Uuid)
    ensures
        r@.len() == 16,
        r@[6] & 0xf0 == 0x10,
        r@[8] & 0xc0 == 0x80,
        r@[10] & 0x01 == 0x01,
        r@ != nil_bytes(),
{
    let seed = facility::facility_generate_random();
    let node: [u8; 6] = [seed[0] | 0x01, seed[1], seed[2], seed[3], seed[4], seed[5]];
    let b = facility::facility_generate_time(&node);
    proof {
        lemma_versioned_not_nil(b@);
        assert(b@[10] == b@.subrange(10, 16)[0]);
        let s = seed@[0];
        assert((s | 0x01) & 0x01 == 0x01) by (bit_vector);
    }
    Uuid::from_bytes(b)
}

/// Time-based generation with a safety indicator. The indicator is
/// false when the facility could not guarantee uniqueness; this binding
/// draws a fresh random node identifier for each call and keeps no
/// state across processes, so it never claims that guarantee.
pub fn uuid_generate_time_safe() -> (r: (Uuid, bool))
    ensures
        r.0@.len() == 16,
        r.0@[6] & 0xf0 == 0x10,
        r.0@[8] & 0xc0 == 0x80,
        r.0@ != nil_bytes(),
        r.1 == false,
{
    (uuid_generate_time(), false)
}

} // verus!
