//! Account addresses.
//!
//! An address is a 32-byte identity, held as four little-endian 64-bit
//! words so that equality is structural and serialization is direct. Its
//! view is the 32-byte sequence that the host and the record layout use.

use vstd::bytes::{
    lemma_auto_spec_u64_to_from_le_bytes, spec_u64_from_le_bytes, spec_u64_to_le_bytes,
    u64_from_le_bytes, u64_to_le_bytes,
};
use vstd::prelude::*;
use vstd::slice::slice_subrange;

verus! {

/// A 32-byte account address: four 64-bit words, little-endian first.
#[derive(Clone, Copy, Debug, PartialEq, Eq, Structural)]
pub struct Address {
    pub w0: u64,
    pub w1: u64,
    pub w2: u64,
    pub w3: u64,
}

impl View for Address {
    type V = Seq<u8>;

    open spec fn view(&self) -> Seq<u8> {
        spec_u64_to_le_bytes(self.w0) + spec_u64_to_le_bytes(self.w1) + spec_u64_to_le_bytes(
            self.w2,
        ) + spec_u64_to_le_bytes(self.w3)
    }
}

impl Address {
    /// The all-zero address: the system program's identity, and the
    /// sentinel for "no admin" once authority is renounced.
    pub open spec fn spec_zero() -> Address {
        Address { w0: 0, w1: 0, w2: 0, w3: 0 }
    }

    /// The address whose 32-byte form is `s`.
    pub open spec fn spec_from_bytes(s: Seq<u8>) -> Address {
        Address {
            w0: spec_u64_from_le_bytes(s.subrange(0, 8)),
            w1: spec_u64_from_le_bytes(s.subrange(8, 16)),
            w2: spec_u64_from_le_bytes(s.subrange(16, 24)),
            w3: spec_u64_from_le_bytes(s.subrange(24, 32)),
        }
    }

    /// Returns the all-zero address.
    pub fn zero() -> (r: Address)
        ensures
            r == Address::spec_zero(),
    {
        Address { w0: 0, w1: 0, w2: 0, w3: 0 }
    }

    /// The 32 bytes of the address, little-endian word by word.
    pub fn to_bytes(&self) -> (r: Vec<u8>)
        ensures
            r@ == self@,
            r@.len() == 32,
    {
        proof {
            lemma_auto_spec_u64_to_from_le_bytes();
        }
        let mut r = u64_to_le_bytes(self.w0);
        let mut r1 = u64_to_le_bytes(self.w1);
        let mut r2 = u64_to_le_bytes(self.w2);
        let mut r3 = u64_to_le_bytes(self.w3);
        r.append(&mut r1);
        r.append(&mut r2);
        r.append(&mut r3);
        r
    }

    /// Reads an address back from its 32-byte form.
    pub fn from_bytes(b: &[u8]) -> (r: Address)
        requires
            b@.len() == 32,
        ensures
            r == Address::spec_from_bytes(b@),
            r@ == b@,
    {
        proof {
            lemma_auto_spec_u64_to_from_le_bytes();
        }
        let w0 = u64_from_le_bytes(slice_subrange(b, 0, 8));
        let w1 = u64_from_le_bytes(slice_subrange(b, 8, 16));
        let w2 = u64_from_le_bytes(slice_subrange(b, 16, 24));
        let w3 = u64_from_le_bytes(slice_subrange(b, 24, 32));
        let r = Address { w0, w1, w2, w3 };
        proof {
            assert(r@ =~= b@);
        }
        r
    }
}

/// An address's 32-byte form always has length 32.
pub proof fn lemma_address_view_len(a: Address)
    ensures
        a@.len() == 32,
{
    lemma_auto_spec_u64_to_from_le_bytes();
}

/// Reading an address back from a 32-byte form yields the form.
pub proof fn lemma_address_from_bytes_view(s: Seq<u8>)
    requires
        s.len() == 32,
    ensures
        Address::spec_from_bytes(s)@ == s,
{
    lemma_auto_spec_u64_to_from_le_bytes();
    assert(Address::spec_from_bytes(s)@ =~= s);
}

/// Two addresses with the same 32-byte form are the same address.
pub proof fn lemma_address_view_injective(a: Address, b: Address)
    requires
        a@ == b@,
    ensures
        a == b,
{
    lemma_auto_spec_u64_to_from_le_bytes();
    assert(a@.subrange(0, 8) =~= spec_u64_to_le_bytes(a.w0));
    assert(a@.subrange(8, 16) =~= spec_u64_to_le_bytes(a.w1));
    assert(a@.subrange(16, 24) =~= spec_u64_to_le_bytes(a.w2));
    assert(a@.subrange(24, 32) =~= spec_u64_to_le_bytes(a.w3));
    assert(b@.subrange(0, 8) =~= spec_u64_to_le_bytes(b.w0));
    assert(b@.subrange(8, 16) =~= spec_u64_to_le_bytes(b.w1));
    assert(b@.subrange(16, 24) =~= spec_u64_to_le_bytes(b.w2));
    assert(b@.subrange(24, 32) =~= spec_u64_to_le_bytes(b.w3));
    assert(spec_u64_from_le_bytes(spec_u64_to_le_bytes(a.w0)) == a.w0);
    assert(spec_u64_from_le_bytes(spec_u64_to_le_bytes(a.w1)) == a.w1);
    assert(spec_u64_from_le_bytes(spec_u64_to_le_bytes(a.w2)) == a.w2);
    assert(spec_u64_from_le_bytes(spec_u64_to_le_bytes(a.w3)) == a.w3);
}

} // verus!
