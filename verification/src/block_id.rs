//! Packed block identifiers.
//!
//! A [`BlockId`] names one block of a world: the upper 16 bits hold the block
//! kind (which entry of the block registry), the lower 16 bits hold the state
//! index (which entry of that kind's state definition table). The packed
//! 32-bit form is the wire and storage encoding, so the packing itself is
//! part of the contract.

use vstd::prelude::*;

verus! {

/// A packed pair `(block kind, state index)`, 16 bits each, stored as one
/// `u32`: the block kind in the upper half, the state index in the lower
/// half.
///
/// Every 32-bit value decodes to some `BlockId`; whether the kind and state
/// indices point at real registry entries is the caller's concern.
#[derive(Clone, Copy, PartialEq, Eq, Structural, Hash, Debug)]
pub struct BlockId {
    bits: u32,
}

impl BlockId {
    /// The block-kind part of the identifier.
    pub closed spec fn spec_block(self) -> u16 {
        (self.bits >> 16u32) as u16
    }

    /// The state-index part of the identifier.
    pub closed spec fn spec_state(self) -> u16 {
        (self.bits & 0xFFFFu32) as u16
    }

    /// The packed 32-bit encoding.
    pub closed spec fn spec_to_u32(self) -> u32 {
        self.bits
    }

    /// The identifier a packed 32-bit value decodes to.
    pub closed spec fn spec_from_u32(bits: u32) -> BlockId {
        BlockId { bits }
    }

    /// Returns the block id with the given block-kind and state indices.
    pub fn from_parts(block: u16, state: u16) -> (r: Self)
        ensures
            r.spec_block() == block,
            r.spec_state() == state,
    {
        let bits: u32 = ((block as u32) << 16u32) | (state as u32);
        proof {
            assert(((((block as u32) << 16u32) | (state as u32)) >> 16u32) as u16 == block
                && ((((block as u32) << 16u32) | (state as u32)) & 0xFFFFu32) as u16 == state)
                by (bit_vector);
        }
        BlockId { bits }
    }

    /// Returns the block-kind index (`.0`) and the state index (`.1`).
    pub fn into_parts(self) -> (r: (u16, u16))
        ensures
            r.0 == self.spec_block(),
            r.1 == self.spec_state(),
    {
        (((self.bits >> 16u32) as u16), ((self.bits & 0xFFFFu32) as u16))
    }

    /// The id of the air block, `(0, 0)`: the sentinel for "no block" and the
    /// default value of [`BlockId`].
    pub fn air() -> (r: Self)
        ensures
            r.spec_block() == 0,
            r.spec_state() == 0,
            r.spec_to_u32() == 0,
    {
        proof {
            assert((0u32 >> 16u32) as u16 == 0 && (0u32 & 0xFFFFu32) as u16 == 0) by (bit_vector);
        }
        BlockId { bits: 0 }
    }

    /// Packs the id into its 32-bit wire encoding: block kind times 2^16 plus
    /// state index.
    pub fn to_u32(self) -> (r: u32)
        ensures
            r == self.spec_to_u32(),
            r == self.spec_block() * 0x10000 + self.spec_state(),
    {
        proof {
            let b = self.bits;
            assert(b == ((b >> 16u32) as u16) * 0x10000 + ((b & 0xFFFFu32) as u16))
                by (bit_vector);
        }
        self.bits
    }

    /// Decodes a 32-bit value: the upper half becomes the block kind, the
    /// lower half the state index. Never fails.
    pub fn from_u32(bits: u32) -> (r: Self)
        ensures
            r == BlockId::spec_from_u32(bits),
            r.spec_block() == bits / 0x10000,
            r.spec_state() == bits % 0x10000,
    {
        proof {
            assert((bits >> 16u32) as u16 == bits / 0x10000 && (bits & 0xFFFFu32) as u16 == bits
                % 0x10000) by (bit_vector);
        }
        BlockId { bits }
    }
}

impl Default for BlockId {
    /// The default block id is air, `(0, 0)`.
    fn default() -> (r: Self)
        ensures
            r.spec_block() == 0,
            r.spec_state() == 0,
    {
        Self::air()
    }
}

/// Decoding inverts encoding: every block id survives the round trip through
/// its packed 32-bit form.
pub proof fn lemma_block_id_round_trip(id: BlockId)
    ensures
        BlockId::spec_from_u32(id.spec_to_u32()) == id,
{
}

/// The two 16-bit parts determine the id: ids that agree on block kind and
/// state index are equal, so the parts form a lossless encoding as well.
pub proof fn lemma_block_id_parts_injective(a: BlockId, b: BlockId)
    requires
        a.spec_block() == b.spec_block(),
        a.spec_state() == b.spec_state(),
    ensures
        a == b,
{
    let x = a.spec_to_u32();
    let y = b.spec_to_u32();
    assert((x >> 16u32) as u16 == (y >> 16u32) as u16 && (x & 0xFFFFu32) as u16 == (y
        & 0xFFFFu32) as u16 ==> x == y) by (bit_vector);
}

} // verus!
