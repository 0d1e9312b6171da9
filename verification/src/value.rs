//! The UUID value type: exactly 16 opaque bytes, compared byte for byte.

use vstd::prelude::*;
use vstd::std_specs::cmp::PartialEqSpec;

use crate::hex::hex_char_lower;
use crate::hex::hex_digit_str;
use crate::hex::lemma_nibble_bound;
use crate::hex::nibble_of;

verus! {

/// The diagnostic rendering of 16 bytes: each byte as two lowercase hex
/// digits, concatenated without grouping, wrapped in a type label.
pub open spec fn debug_text(b: Seq<u8>) -> Seq<char> {
    seq!['U', 'u', 'i', 'd', '('] + Seq::new(32, |h: int| hex_char_lower(nibble_of(b, h)))
        + seq![')']
}

/// The all-zero byte sequence, the nil/uninitialized sentinel value.
pub open spec fn nil_bytes() -> Seq<u8> {
    Seq::new(16, |i: int| 0u8)
}

/// A universally unique identifier: exactly 16 bytes, RFC 4122 layout
/// when produced by a generation operation. Equality is exact
/// byte-for-byte comparison; no normalization applies to the binary form.
#[derive(Copy, Debug)]
pub struct Uuid(pub [u8; 16]);

impl View for Uuid {
    type V = Seq<u8>;

    open spec fn view(&self) -> Seq<u8> {
        self.0@
    }
}

/// A fresh zeroed 16-byte binary UUID buffer.
pub fn uuid_t() -> (r: [u8; 16])
    ensures
        r@ == nil_bytes(),
{
    let r: [u8; 16] = [0u8; 16];
    proof {
        assert(r@ =~= nil_bytes());
    }
    r
}

/// A fresh zeroed 37-byte textual UUID buffer (36 visible characters
/// plus a terminator).
pub fn r_uuid_t() -> (r: [u8; 37])
    ensures
        r@.len() == 37,
        forall|i: int| 0 <= i < 37 ==> r@[i] == 0u8,
{
    let r: [u8; 37] = [0u8; 37];
    r
}

impl Uuid {
    /// Builds a UUID holding exactly the given 16 bytes.
    pub fn from_bytes(b: [u8; 16]) -> (r: Uuid)
        ensures
            r@ == b@,
    {
        Uuid(b)
    }

    /// Hands the 16 bytes of the UUID out.
    pub fn into_bytes(self) -> (r: [u8; 16])
        ensures
            r@ == self@,
    {
        self.0
    }

    /// Renders the value for diagnostics: the 16 bytes as 32 lowercase
    /// hex digits, wrapped in a type label, with no hyphen grouping.
    /// Distinct from the canonical textual form.
    pub fn debug_format(&self) -> (r: String)
        ensures
            r@ == debug_text(self@),
    {
        let ghost hx = Seq::new(32, |k: int| hex_char_lower(nibble_of(self@, k)));
        let mut out = String::from_str("Uuid(");
        proof {
            reveal_strlit("Uuid(");
            assert(out@ =~= seq!['U', 'u', 'i', 'd', '('] + hx.take(0));
        }
        let mut h: usize = 0;
        while h < 32
            invariant
                h <= 32,
                out@ == seq!['U', 'u', 'i', 'd', '('] + hx.take(h as int),
                hx == Seq::new(32, |k: int| hex_char_lower(nibble_of(self@, k))),
            decreases 32 - h,
        {
            let nib = if h % 2 == 0 {
                self.0[h / 2] >> 4
            } else {
                self.0[h / 2] & 0x0f
            };
            proof {
                lemma_nibble_bound(self@, h as int);
            }
            let d = hex_digit_str(nib, false);
            out.append(d);
            proof {
                assert(out@ =~= seq!['U', 'u', 'i', 'd', '('] + hx.take(h as int + 1));
            }
            h += 1;
        }
        out.append(")");
        proof {
            reveal_strlit(")");
            assert(hx.take(32) =~= hx);
            assert(out@ =~= debug_text(self@));
        }
        out
    }

    /// Overwrites this UUID in place with a byte-for-byte copy of the
    /// source; the source is not affected.
    pub fn clone_from(&mut self, source: &Uuid)
        ensures
            *final(self) == *source,
    {
        let mut out: [u8; 16] = [0u8; 16];
        let mut i: usize = 0;
        while i < 16
            invariant
                i <= 16,
                forall|k: int| 0 <= k < i ==> out@[k] == source@[k],
            decreases 16 - i,
        {
            out[i] = source.0[i];
            i += 1;
        }
        proof {
            assert(out =~= source.0);
        }
        self.0 = out;
    }
}

impl Clone for Uuid {
    /// Produces an independent value with identical byte content.
    fn clone(&self) -> (r: Uuid)
        ensures
            r == *self,
    {
        let mut out: [u8; 16] = [0u8; 16];
        let mut i: usize = 0;
        while i < 16
            invariant
                i <= 16,
                forall|k: int| 0 <= k < i ==> out@[k] == self@[k],
            decreases 16 - i,
        {
            out[i] = self.0[i];
            i += 1;
        }
        proof {
            assert(out =~= self.0);
        }
        Uuid(out)
    }
}

impl Default for Uuid {
    /// The all-zero UUID, used as a nil/uninitialized sentinel.
    fn default() -> (r: Uuid)
        ensures
            r@ == nil_bytes(),
    {
        Uuid(uuid_t())
    }
}

impl PartialEq for Uuid {
    /// True iff all 16 bytes match exactly.
    fn eq(&self, other: &Uuid) -> (r: bool) {
        let mut i: usize = 0;
        while i < 16
            invariant
                i <= 16,
                forall|k: int| 0 <= k < i ==> self@[k] == other@[k],
            decreases 16 - i,
        {
            if self.0[i] != other.0[i] {
                return false;
            }
            i += 1;
        }
        proof {
            assert(self@.len() == 16);
            assert(self@ =~= other@);
        }
        true
    }
}

impl Eq for Uuid {}

impl vstd::std_specs::cmp::PartialEqSpecImpl for Uuid {
    open spec fn obeys_eq_spec() -> bool {
        true
    }

    open spec fn eq_spec(&self, other: &Uuid) -> bool {
        self@ == other@
    }
}

/// Law: equality on UUID values is exactly byte-for-byte equality of
/// their 16-byte content.
pub proof fn lemma_equals_is_byte_equality(a: Uuid, b: Uuid)
    ensures
        a.eq_spec(&b) <==> a@ == b@,
{
}

} // verus!
