use vstd::arithmetic::power::pow;
use vstd::prelude::*;

verus! {

/// An unsigned integer of 256 bits, the unit of storage and of results.
///
/// The four limbs hold 64 bits each, `limb0` the least significant.
#[derive(Clone, Copy, Debug, PartialEq, Eq, Structural)]
pub struct Word {
    pub limb0: u64,
    pub limb1: u64,
    pub limb2: u64,
    pub limb3: u64,
}

impl Word {
    /// The number that the word stands for.
    pub open spec fn value(self) -> nat {
        (self.limb0 as nat) + (self.limb1 as nat) * 0x1_0000_0000_0000_0000
            + (self.limb2 as nat) * 0x1_0000_0000_0000_0000_0000_0000_0000_0000
            + (self.limb3 as nat)
            * 0x1_0000_0000_0000_0000_0000_0000_0000_0000_0000_0000_0000_0000
    }

    /// The word as a call hands it back: the 32 bytes of its number, the
    /// most significant byte first.
    pub open spec fn abi_encoding(self) -> Seq<u8> {
        Seq::new(32, |i: int| ((self.value() as int / pow(256, (31 - i) as nat)) % 256) as u8)
    }

    /// The word that stands for zero.
    pub fn zero() -> (w: Word)
        ensures
            w == (Word { limb0: 0, limb1: 0, limb2: 0, limb3: 0 }),
            w.value() == 0,
    {
        Word { limb0: 0, limb1: 0, limb2: 0, limb3: 0 }
    }

    /// The word that stands for `v`.
    pub fn from_u64(v: u64) -> (w: Word)
        ensures
            w == (Word { limb0: v, limb1: 0, limb2: 0, limb3: 0 }),
            w.value() == v,
    {
        Word { limb0: v, limb1: 0, limb2: 0, limb3: 0 }
    }

    /// Encodes the word as the result of a call.
    pub fn to_abi(&self) -> (out: Vec<u8>)
        ensures
            out@ == self.abi_encoding(),
    {
        abi_encode(self.limb0, self.limb1, self.limb2, self.limb3)
    }
}

/// Calls `stylus_sdk::abi::encode` on the `U256` that `U256::from_limbs`
/// makes of the four limbs, the least significant first. For an unsigned
/// integer of 256 bits the encoding is one word of 32 bytes that holds the
/// number with the most significant byte first.
#[verifier::external_body]
fn abi_encode(limb0: u64, limb1: u64, limb2: u64, limb3: u64) -> (out: Vec<u8>)
    ensures
        out@ == (Word { limb0, limb1, limb2, limb3 }).abi_encoding(),
{
    let number = stylus_sdk::alloy_primitives::U256::from_limbs([limb0, limb1, limb2, limb3]);
    stylus_sdk::abi::encode(&number)
}

} // verus!
