//! Chunk and block coordinates: the absolute position of a chunk, the
//! absolute position of a block, and the offset of a block within its
//! chunk. A chunk is 16 blocks wide along `x` and `z`.

use vstd::math::abs;
use vstd::prelude::*;

verus! {

/// The width of a chunk along `x` and `z`, in blocks.
pub const CHUNK_WIDTH: usize = 16;

/// The absolute position of a chunk: its `x` and `z` in chunk units.
#[derive(Clone, Copy, Debug, Default, PartialEq, Eq, Structural, Hash)]
pub struct ChunkPosition {
    /// The x component of the position.
    pub x: i32,
    /// The z component of the position.
    pub z: i32,
}

impl ChunkPosition {
    /// Returns a chunk position from the given coordinates.
    pub fn new(x: i32, z: i32) -> (r: Self)
        ensures
            r.x == x,
            r.z == z,
    {
        ChunkPosition { x, z }
    }

    /// Returns the position `n` chunks south: `z` grows by `n`.
    pub fn south(self, n: i32) -> (r: Self)
        requires
            i32::MIN <= self.z + n <= i32::MAX,
        ensures
            r.x == self.x,
            r.z == self.z + n,
    {
        ChunkPosition { x: self.x, z: self.z + n }
    }

    /// Returns the position `n` chunks north: `z` shrinks by `n`.
    pub fn north(self, n: i32) -> (r: Self)
        requires
            i32::MIN <= self.z - n <= i32::MAX,
        ensures
            r.x == self.x,
            r.z == self.z - n,
    {
        ChunkPosition { x: self.x, z: self.z - n }
    }

    /// Returns the position `n` chunks east: `x` grows by `n`.
    pub fn east(self, n: i32) -> (r: Self)
        requires
            i32::MIN <= self.x + n <= i32::MAX,
        ensures
            r.x == self.x + n,
            r.z == self.z,
    {
        ChunkPosition { x: self.x + n, z: self.z }
    }

    /// Returns the position `n` chunks west: `x` shrinks by `n`.
    pub fn west(self, n: i32) -> (r: Self)
        requires
            i32::MIN <= self.x - n <= i32::MAX,
        ensures
            r.x == self.x - n,
            r.z == self.z,
    {
        ChunkPosition { x: self.x - n, z: self.z }
    }

    /// Returns the squared euclidean distance between the two positions.
    /// Symmetric in its two operands.
    pub fn euclidean2(&self, other: &Self) -> (r: i32)
        requires
            i32::MIN < self.x - other.x <= i32::MAX,
            i32::MIN < self.z - other.z <= i32::MAX,
            (self.x - other.x) * (self.x - other.x) + (self.z - other.z) * (self.z - other.z)
                <= i32::MAX,
        ensures
            r == (self.x - other.x) * (self.x - other.x) + (self.z - other.z) * (self.z
                - other.z),
    {
        let dx = self.x - other.x;
        let dz = self.z - other.z;
        proof {
            assert(dx * dx >= 0 && dz * dz >= 0) by (nonlinear_arith);
        }
        dx * dx + dz * dz
    }

    /// Returns the manhattan distance between the two positions. Symmetric
    /// in its two operands.
    pub fn manhattan(&self, other: &Self) -> (r: i32)
        requires
            i32::MIN < self.x - other.x <= i32::MAX,
            i32::MIN < self.z - other.z <= i32::MAX,
            abs(self.x - other.x) + abs(self.z - other.z) <= i32::MAX,
        ensures
            r == abs(self.x - other.x) + abs(self.z - other.z),
    {
        let dx = self.x - other.x;
        let dz = self.z - other.z;
        let ax: i32 = if dx < 0 {
            -dx
        } else {
            dx
        };
        let az: i32 = if dz < 0 {
            -dz
        } else {
            dz
        };
        ax + az
    }
}

/// The offset of a block within its chunk: `x` and `z` below the chunk
/// width, `y` the height within the chunk column.
#[derive(Clone, Copy, Debug, Default, PartialEq, Eq, Structural, Hash)]
pub struct BlockOffset {
    /// The x component of the offset.
    pub x: u8,
    /// The z component of the offset.
    pub z: u8,
    /// The y component of the offset.
    pub y: u16,
}

impl BlockOffset {
    /// Returns a block offset from the given coordinates.
    pub fn new(x: u8, y: u16, z: u8) -> (r: Self)
        ensures
            r.x == x,
            r.y == y,
            r.z == z,
    {
        BlockOffset { x, z, y }
    }
}

/// The absolute position of a block.
#[derive(Clone, Copy, Debug, Default, PartialEq, Eq, Structural, Hash)]
pub struct BlockPosition {
    /// The x component of the position.
    pub x: i32,
    /// The y component of the position.
    pub y: i32,
    /// The z component of the position.
    pub z: i32,
}

/// Floor division of a coordinate by the chunk width: the quotient is the
/// chunk coordinate, the remainder the in-chunk offset, always in
/// `0..16`.
fn divrem(x: i32) -> (r: (i32, u8))
    ensures
        x == 16 * r.0 + r.1,
        r.1 < 16,
{
    let q = x / 16;
    let m = x % 16;
    if m < 0 {
        (q - 1, (m + 16) as u8)
    } else {
        (q, m as u8)
    }
}

/// The block coordinate of a chunk coordinate plus an in-chunk offset.
fn muladd(a: i32, b: u8) -> (r: i32)
    requires
        i32::MIN <= 16 * a,
        16 * a + b <= i32::MAX,
    ensures
        r == 16 * a + b,
{
    a * 16 + (b as i32)
}

impl BlockPosition {
    /// Returns a block position from the given coordinates.
    pub fn new(x: i32, y: i32, z: i32) -> (r: Self)
        ensures
            r.x == x,
            r.y == y,
            r.z == z,
    {
        BlockPosition { x, y, z }
    }

    /// Returns the block position of the given offset within the given
    /// chunk.
    pub fn from_parts(chunk: ChunkPosition, offset: BlockOffset) -> (r: Self)
        requires
            i32::MIN <= 16 * chunk.x,
            16 * chunk.x + offset.x <= i32::MAX,
            i32::MIN <= 16 * chunk.z,
            16 * chunk.z + offset.z <= i32::MAX,
        ensures
            r.x == 16 * chunk.x + offset.x,
            r.y == offset.y,
            r.z == 16 * chunk.z + offset.z,
    {
        BlockPosition {
            x: muladd(chunk.x, offset.x),
            y: offset.y as i32,
            z: muladd(chunk.z, offset.z),
        }
    }

    /// Splits the block position into its chunk position (`.0`) and the
    /// offset within that chunk (`.1`); the offset's `x` and `z` always lie
    /// in `0..16`.
    pub fn into_parts(self) -> (r: (ChunkPosition, BlockOffset))
        requires
            0 <= self.y < 0x10000,
        ensures
            self.x == 16 * r.0.x + r.1.x,
            self.z == 16 * r.0.z + r.1.z,
            r.1.x < 16,
            r.1.z < 16,
            r.1.y == self.y,
    {
        let (qx, rx) = divrem(self.x);
        let (qz, rz) = divrem(self.z);
        (ChunkPosition::new(qx, qz), BlockOffset::new(rx, self.y as u16, rz))
    }

    /// Returns the position of the chunk this block lies in: the floor of
    /// each horizontal coordinate divided by the chunk width.
    pub fn chunk(&self) -> (r: ChunkPosition)
        ensures
            16 * r.x <= self.x < 16 * r.x + 16,
            16 * r.z <= self.z < 16 * r.z + 16,
    {
        let (qx, _) = divrem(self.x);
        let (qz, _) = divrem(self.z);
        ChunkPosition { x: qx, z: qz }
    }

    /// Returns the squared euclidean distance between the two positions.
    /// Symmetric in its two operands.
    pub fn euclidean2(&self, other: &Self) -> (r: i32)
        requires
            i32::MIN < self.x - other.x <= i32::MAX,
            i32::MIN < self.y - other.y <= i32::MAX,
            i32::MIN < self.z - other.z <= i32::MAX,
            (self.x - other.x) * (self.x - other.x) + (self.y - other.y) * (self.y - other.y) + (
            self.z - other.z) * (self.z - other.z) <= i32::MAX,
        ensures
            r == (self.x - other.x) * (self.x - other.x) + (self.y - other.y) * (self.y
                - other.y) + (self.z - other.z) * (self.z - other.z),
    {
        let dx = self.x - other.x;
        let dy = self.y - other.y;
        let dz = self.z - other.z;
        proof {
            assert(dx * dx >= 0 && dy * dy >= 0 && dz * dz >= 0) by (nonlinear_arith);
        }
        dx * dx + dy * dy + dz * dz
    }

    /// Returns the manhattan distance between the two positions. Symmetric
    /// in its two operands.
    pub fn manhattan(&self, other: &Self) -> (r: i32)
        requires
            i32::MIN < self.x - other.x <= i32::MAX,
            i32::MIN < self.y - other.y <= i32::MAX,
            i32::MIN < self.z - other.z <= i32::MAX,
            abs(self.x - other.x) + abs(self.y - other.y) + abs(self.z - other.z) <= i32::MAX,
        ensures
            r == abs(self.x - other.x) + abs(self.y - other.y) + abs(self.z - other.z),
    {
        let dx = self.x - other.x;
        let dy = self.y - other.y;
        let dz = self.z - other.z;
        let ax: i32 = if dx < 0 {
            -dx
        } else {
            dx
        };
        let ay: i32 = if dy < 0 {
            -dy
        } else {
            dy
        };
        let az: i32 = if dz < 0 {
            -dz
        } else {
            dz
        };
        ax + ay + az
    }

    /// Returns the position `n` blocks south: `z` grows by `n`.
    pub fn south(self, n: i32) -> (r: Self)
        requires
            i32::MIN <= self.z + n <= i32::MAX,
        ensures
            r == (BlockPosition { z: (self.z + n) as i32, ..self }),
    {
        BlockPosition { x: self.x, y: self.y, z: self.z + n }
    }

    /// Returns the position `n` blocks north: `z` shrinks by `n`.
    pub fn north(self, n: i32) -> (r: Self)
        requires
            i32::MIN <= self.z - n <= i32::MAX,
        ensures
            r == (BlockPosition { z: (self.z - n) as i32, ..self }),
    {
        BlockPosition { x: self.x, y: self.y, z: self.z - n }
    }

    /// Returns the position `n` blocks east: `x` grows by `n`.
    pub fn east(self, n: i32) -> (r: Self)
        requires
            i32::MIN <= self.x + n <= i32::MAX,
        ensures
            r == (BlockPosition { x: (self.x + n) as i32, ..self }),
    {
        BlockPosition { x: self.x + n, y: self.y, z: self.z }
    }

    /// Returns the position `n` blocks west: `x` shrinks by `n`.
    pub fn west(self, n: i32) -> (r: Self)
        requires
            i32::MIN <= self.x - n <= i32::MAX,
        ensures
            r == (BlockPosition { x: (self.x - n) as i32, ..self }),
    {
        BlockPosition { x: self.x - n, y: self.y, z: self.z }
    }

    /// Returns the position `n` blocks up: `y` grows by `n`.
    pub fn up(self, n: i32) -> (r: Self)
        requires
            i32::MIN <= self.y + n <= i32::MAX,
        ensures
            r == (BlockPosition { y: (self.y + n) as i32, ..self }),
    {
        BlockPosition { x: self.x, y: self.y + n, z: self.z }
    }

    /// Returns the position `n` blocks down: `y` shrinks by `n`.
    pub fn down(self, n: i32) -> (r: Self)
        requires
            i32::MIN <= self.y - n <= i32::MAX,
        ensures
            r == (BlockPosition { y: (self.y - n) as i32, ..self }),
    {
        BlockPosition { x: self.x, y: self.y - n, z: self.z }
    }
}

} // verus!
