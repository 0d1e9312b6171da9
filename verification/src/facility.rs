//! The narrow, trusted call interface to the external UUID facility.
//!
//! The facility supplies the entropy- and clock-backed generation
//! algorithms. Each wrapper states only what holds of every outcome:
//! the fixed version and variant bits of the produced layout, and which
//! bytes carry the caller's node identifier. Nothing is claimed about
//! the random or time-dependent bytes themselves.

use vstd::prelude::*;

verus! {

/// Relies on uuid::Uuid::new_v4: the result carries version 4 in the
/// high nibble of byte 6 and the RFC 4122 variant in the top two bits
/// of byte 8; the remaining bits are random.
#[verifier::external_body]
pub(crate) fn facility_generate_random() -> (r: [u8; 16])
    ensures
        r@[6] & 0xf0 == 0x40,
        r@[8] & 0xc0 == 0x80,
{
    uuid::Uuid::new_v4().into_bytes()
}

/// Relies on uuid::Uuid::now_v1: the result carries version 1 in the
/// high nibble of byte 6, the RFC 4122 variant in the top two bits of
/// byte 8, and the given node identifier verbatim in bytes 10..16; the
/// remaining bits encode the current timestamp and a clock sequence.
/// Assumes the system clock reads at or after the Unix epoch.
#[verifier::external_body]
pub(crate) fn facility_generate_time(node: &[u8; 6]) -> (r: [u8; 16])
    ensures
        r@[6] & 0xf0 == 0x10,
        r@[8] & 0xc0 == 0x80,
        r@.subrange(10, 16) == node@,
{
    uuid::Uuid::now_v1(node).into_bytes()
}

} // verus!
