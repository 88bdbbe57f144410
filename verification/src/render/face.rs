use vstd::prelude::*;

use crate::render::face_orientation::{orientation_of_group, FaceOrientation};

verus! {

/// Direction of a single face (Y-up, right handed).
#[derive(Debug, Clone, Copy)]
pub enum FaceDirection {
    UP,
    DOWN,
    LEFT,
    RIGHT,
    FRONT,
    BACK,
}

/// The direction of the mesher's face group number `i` (for `i < 6`):
/// up, down, right, left, front, back.
pub open spec fn face_direction_of_group(i: int) -> FaceDirection {
    if i == 0 {
        FaceDirection::UP
    } else if i == 1 {
        FaceDirection::DOWN
    } else if i == 2 {
        FaceDirection::RIGHT
    } else if i == 3 {
        FaceDirection::LEFT
    } else if i == 4 {
        FaceDirection::FRONT
    } else {
        FaceDirection::BACK
    }
}

impl FaceDirection {
    pub fn from_bgm(direction: usize) -> (r: Self)
        requires
            direction < 6,
        ensures
            r == face_direction_of_group(direction as int),
    {
        match direction {
            0 => FaceDirection::UP,
            1 => FaceDirection::DOWN,
            2 => FaceDirection::RIGHT,
            3 => FaceDirection::LEFT,
            4 => FaceDirection::FRONT,
            _ => FaceDirection::BACK,
        }
    }
}

/// The six mesher face groups map to six different directions.
pub proof fn lemma_from_bgm_injective(i: int, j: int)
    requires
        0 <= i < 6,
        0 <= j < 6,
        face_direction_of_group(i) == face_direction_of_group(j),
    ensures
        i == j,
{
}

/// Packs a position into the low 18 bits: `z` in bits 12..18, `y` in
/// bits 6..12 and `x` in bits 0..6.
pub open spec fn packed_xyz(x: u32, y: u32, z: u32) -> u32 {
    (z << 12) | (y << 6) | x
}

/// Packs a face size above a packed position: `height` in bits 24..30 and
/// `width` in bits 18..24.
pub open spec fn packed_vertex(xyz: u32, width: u32, height: u32) -> u32 {
    (height << 24) | (width << 18) | xyz
}

pub fn pack_xyz(x: u32, y: u32, z: u32) -> (r: u32)
    ensures
        r == packed_xyz(x, y, z),
{
    (z << 12) | (y << 6) | x
}

pub fn pack_vertex(xyz: u32, width: u32, height: u32) -> (r: u32)
    ensures
        r == packed_vertex(xyz, width, height),
{
    (height << 24) | (width << 18) | xyz
}

/// Six-bit coordinates survive packing: each can be read back from its
/// field, and nothing is set above bit 18.
pub proof fn lemma_packed_xyz_fields(x: u32, y: u32, z: u32)
    requires
        x < 64,
        y < 64,
        z < 64,
    ensures
        packed_xyz(x, y, z) & 63 == x,
        (packed_xyz(x, y, z) >> 6) & 63 == y,
        (packed_xyz(x, y, z) >> 12) & 63 == z,
        packed_xyz(x, y, z) < 0x40000,
{
    assert(((z << 12) | (y << 6) | x) & 63 == x) by (bit_vector)
        requires x < 64, y < 64, z < 64;
    assert((((z << 12) | (y << 6) | x) >> 6) & 63 == y) by (bit_vector)
        requires x < 64, y < 64, z < 64;
    assert((((z << 12) | (y << 6) | x) >> 12) & 63 == z) by (bit_vector)
        requires x < 64, y < 64, z < 64;
    assert(((z << 12) | (y << 6) | x) < 0x40000) by (bit_vector)
        requires x < 64, y < 64, z < 64;
}

/// A packed position and six-bit sizes survive packing into a vertex word.
pub proof fn lemma_packed_vertex_fields(xyz: u32, width: u32, height: u32)
    requires
        xyz < 0x40000,
        width < 64,
        height < 64,
    ensures
        packed_vertex(xyz, width, height) & 0x3ffff == xyz,
        (packed_vertex(xyz, width, height) >> 18) & 63 == width,
        (packed_vertex(xyz, width, height) >> 24) & 63 == height,
        packed_vertex(xyz, width, height) < 0x40000000,
{
    assert(((height << 24) | (width << 18) | xyz) & 0x3ffff == xyz) by (bit_vector)
        requires xyz < 0x40000, width < 64, height < 64;
    assert((((height << 24) | (width << 18) | xyz) >> 18) & 63 == width) by (bit_vector)
        requires xyz < 0x40000, width < 64, height < 64;
    assert((((height << 24) | (width << 18) | xyz) >> 24) & 63 == height) by (bit_vector)
        requires xyz < 0x40000, width < 64, height < 64;
    assert(((height << 24) | (width << 18) | xyz) < 0x40000000) by (bit_vector)
        requires xyz < 0x40000, width < 64, height < 64;
}

/// `FaceDirection` names the same direction as `FaceOrientation` for every mesher
/// face group: group `i` is UP, DOWN, RIGHT, LEFT, FRONT or BACK in both,
/// and each direction has the same group number in both.
pub proof fn lemma_face_direction_matches_face_orientation(i: int)
    requires
        0 <= i < 6,
    ensures
        (face_direction_of_group(i) == FaceDirection::UP) == (orientation_of_group(i) == FaceOrientation::UP),
        (face_direction_of_group(i) == FaceDirection::DOWN) == (orientation_of_group(i) == FaceOrientation::DOWN),
        (face_direction_of_group(i) == FaceDirection::RIGHT) == (orientation_of_group(i) == FaceOrientation::RIGHT),
        (face_direction_of_group(i) == FaceDirection::LEFT) == (orientation_of_group(i) == FaceOrientation::LEFT),
        (face_direction_of_group(i) == FaceDirection::FRONT) == (orientation_of_group(i) == FaceOrientation::FRONT),
        (face_direction_of_group(i) == FaceDirection::BACK) == (orientation_of_group(i) == FaceOrientation::BACK),

{
}

} // verus!
