use vstd::prelude::*;

verus! {

/// Side of a chunk, in voxels.
pub const CS: usize = 62;

/// Side of a chunk with its one-voxel border of neighbour data.
pub const CS_P: usize = 64;

/// Voxels in one padded layer.
pub const CS_P2: usize = 4096;

/// Voxels in a padded chunk.
pub const CS_P3: usize = 262144;

/// Where a voxel sits inside a chunk.
#[derive(Debug, Clone, Copy, PartialEq, Eq, Structural, Hash)]
pub struct VoxelPosition {
    pub x: usize,
    pub y: usize,
    pub z: usize,
}

/// The slot of voxel (x, y, z) in a padded chunk buffer: `z` runs fastest,
/// then `x`, then `y`, each shifted by the border.
pub open spec fn pad_linearize(x: int, y: int, z: int) -> int {
    z + 1 + (x + 1) * 64 + (y + 1) * 4096
}

impl VoxelPosition {
    /// The position lies inside the chunk (not in its border).
    pub open spec fn in_chunk(&self) -> bool {
        self.x < CS && self.y < CS && self.z < CS
    }

    pub open spec fn slot(&self) -> int {
        pad_linearize(self.x as int, self.y as int, self.z as int)
    }

    /// The slot of this position in a padded chunk buffer.
    pub fn index(&self) -> (r: usize)
        requires
            self.in_chunk(),
        ensures
            r == self.slot(),
            r < CS_P3,
    {
        self.z + 1 + (self.x + 1) * CS_P + (self.y + 1) * CS_P2
    }
}

/// Different positions inside a chunk have different slots, and every slot
/// is in the buffer.
pub proof fn lemma_slot_injective(a: VoxelPosition, b: VoxelPosition)
    requires
        a.in_chunk(),
        b.in_chunk(),
        a.slot() == b.slot(),
    ensures
        a == b,
{
    assert(a.z == b.z);
    assert(a.x == b.x);
}

/// The slot layout is the mesher's padded buffer order: the first voxel
/// inside the border sits at slot 1 + 64 + 4096, and one step along z, x or
/// y moves 1, 64 or 4096 slots (`z` fastest, then `x`, then `y`).
pub proof fn lemma_slot_strides(x: int, y: int, z: int)
    ensures
        pad_linearize(0, 0, 0) == 4161,
        pad_linearize(x, y, z + 1) == pad_linearize(x, y, z) + 1,
        pad_linearize(x + 1, y, z) == pad_linearize(x, y, z) + 64,
        pad_linearize(x, y + 1, z) == pad_linearize(x, y, z) + 4096,
{
}

} // verus!
