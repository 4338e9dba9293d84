//! The 32-byte ledger address used to identify every record, wallet, mint and
//! program in the system. It is held as four little-endian 64-bit words so
//! that equality in executable code and equality in specifications coincide;
//! its view is the 32-byte string that the ledger and the address-derivation
//! primitive work on.

use vstd::bytes::{
    lemma_auto_spec_u64_to_from_le_bytes, spec_u64_from_le_bytes, spec_u64_to_le_bytes,
    u64_from_le_bytes, u64_to_le_bytes,
};
use vstd::prelude::*;
use vstd::slice::slice_subrange;

verus! {

/// A 32-byte ledger address, stored as four little-endian 64-bit words.
#[derive(Clone, Copy, PartialEq, Eq, Structural, Debug, Hash)]
pub struct Address {
    pub w0: u64,
    pub w1: u64,
    pub w2: u64,
    pub w3: u64,
}

impl View for Address {
    type V = Seq<u8>;

    open spec fn view(&self) -> Seq<u8> {
        spec_u64_to_le_bytes(self.w0) + spec_u64_to_le_bytes(self.w1) + spec_u64_to_le_bytes(
            self.w2,
        ) + spec_u64_to_le_bytes(self.w3)
    }
}

/// The address whose byte string is the given 32 bytes.
pub open spec fn spec_address_from_bytes(b: Seq<u8>) -> Address
    recommends
        b.len() == 32,
{
    Address {
        w0: spec_u64_from_le_bytes(b.subrange(0, 8)),
        w1: spec_u64_from_le_bytes(b.subrange(8, 16)),
        w2: spec_u64_from_le_bytes(b.subrange(16, 24)),
        w3: spec_u64_from_le_bytes(b.subrange(24, 32)),
    }
}

impl Address {
    /// Every address is exactly 32 bytes long.
    pub proof fn lemma_view_len(self)
        ensures
            self@.len() == 32,
    {
        lemma_auto_spec_u64_to_from_le_bytes();
    }

    /// Two addresses are equal exactly when their byte strings are equal.
    pub proof fn lemma_view_injective(a: Address, b: Address)
        ensures
            (a@ == b@) <==> (a == b),
    {
        lemma_auto_spec_u64_to_from_le_bytes();
        if a@ == b@ {
            assert(spec_u64_to_le_bytes(a.w0) =~= a@.subrange(0, 8));
            assert(spec_u64_to_le_bytes(a.w1) =~= a@.subrange(8, 16));
            assert(spec_u64_to_le_bytes(a.w2) =~= a@.subrange(16, 24));
            assert(spec_u64_to_le_bytes(a.w3) =~= a@.subrange(24, 32));
            assert(spec_u64_to_le_bytes(b.w0) =~= b@.subrange(0, 8));
            assert(spec_u64_to_le_bytes(b.w1) =~= b@.subrange(8, 16));
            assert(spec_u64_to_le_bytes(b.w2) =~= b@.subrange(16, 24));
            assert(spec_u64_to_le_bytes(b.w3) =~= b@.subrange(24, 32));
        }
    }

    /// The address as the byte string that seeds and wire formats use.
    pub fn to_bytes(&self) -> (v: Vec<u8>)
        ensures
            v@ == self@,
    {
        let mut v = u64_to_le_bytes(self.w0);
        let mut v1 = u64_to_le_bytes(self.w1);
        let mut v2 = u64_to_le_bytes(self.w2);
        let mut v3 = u64_to_le_bytes(self.w3);
        v.append(&mut v1);
        v.append(&mut v2);
        v.append(&mut v3);
        v
    }

    /// The address whose byte string is the given 32 bytes.
    pub fn from_bytes(bytes: &[u8]) -> (r: Address)
        requires
            bytes@.len() == 32,
        ensures
            r@ == bytes@,
            r == spec_address_from_bytes(bytes@),
    {
        let w0 = u64_from_le_bytes(slice_subrange(bytes, 0, 8));
        let w1 = u64_from_le_bytes(slice_subrange(bytes, 8, 16));
        let w2 = u64_from_le_bytes(slice_subrange(bytes, 16, 24));
        let w3 = u64_from_le_bytes(slice_subrange(bytes, 24, 32));
        let r = Address { w0, w1, w2, w3 };
        proof {
            lemma_auto_spec_u64_to_from_le_bytes();
            assert(r@ =~= bytes@);
        }
        r
    }
}

} // verus!
