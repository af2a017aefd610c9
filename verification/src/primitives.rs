//! Fixed-size byte strings and 256-bit integers as they appear in Ethereum transactions.

use vstd::prelude::*;

verus! {

/// A 20-byte Ethereum account address.
#[derive(Clone, Copy, Debug, PartialEq, Eq)]
pub struct H160(pub [u8; 20]);

/// A 32-byte hash.
#[derive(Clone, Copy, Debug, PartialEq, Eq)]
pub struct H256(pub [u8; 32]);

/// A 256-bit unsigned integer held as four 64-bit limbs, least significant limb first.
#[derive(Clone, Copy, Debug, PartialEq, Eq)]
pub struct U256(pub [u64; 4]);

/// The eight little-endian bytes of a 64-bit integer.
pub open spec fn u64_le_bytes(x: u64) -> Seq<u8> {
    Seq::new(8, |i: int| (x >> ((8 * i) as u64)) as u8)
}

impl U256 {
    /// The 32 little-endian bytes of the integer.
    pub open spec fn le_bytes(self) -> Seq<u8> {
        u64_le_bytes(self.0@[0]) + u64_le_bytes(self.0@[1]) + u64_le_bytes(self.0@[2])
            + u64_le_bytes(self.0@[3])
    }
}

impl H160 {
    /// The address made of the last 20 bytes of a 32-byte hash.
    pub fn from_h256(h: H256) -> (res: H160)
        ensures
            res.0@ == h.0@.subrange(12, 32),
    {
        let mut out = [0u8; 20];
        let mut i: usize = 0;
        while i < 20
            invariant
                i <= 20,
                forall|j: int| 0 <= j < i ==> out@[j] == h.0@[j + 12],
            decreases 20 - i,
        {
            out[i] = h.0[i + 12];
            i = i + 1;
        }
        assert(out@ =~= h.0@.subrange(12, 32));
        H160(out)
    }
}

} // verus!
