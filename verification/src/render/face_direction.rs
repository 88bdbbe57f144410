use vstd::prelude::*;

use crate::render::face_orientation::{orientation_index, orientation_of_group, FaceOrientation};

verus! {

#[derive(Debug, Clone, Copy)]
pub enum FaceDirection {
    UP,
    DOWN,
    LEFT,
    RIGHT,
    FRONT,
    BACK,
}

/// Position of a direction among the mesher's six face groups
/// (up, down, right, left, front, back).
pub open spec fn direction_index(d: FaceDirection) -> u32 {
    match d {
        FaceDirection::UP => 0,
        FaceDirection::DOWN => 1,
        FaceDirection::RIGHT => 2,
        FaceDirection::LEFT => 3,
        FaceDirection::FRONT => 4,
        FaceDirection::BACK => 5,
    }
}

/// The direction of the mesher's face group number `i` (for `i < 6`).
pub open spec fn direction_of_group(i: int) -> FaceDirection {
    if i == 0 {
        FaceDirection::UP
    } else if i == 1 {
        FaceDirection::DOWN
    } else if i == 2 {
        FaceDirection::RIGHT
    } else if i == 3 {
        FaceDirection::LEFT
    } else if i == 4 {
        FaceDirection::FRONT
    } else {
        FaceDirection::BACK
    }
}

impl FaceDirection {
    pub fn to_index(direction: Self) -> (r: u32)
        ensures
            r == direction_index(direction),
            r < 6,
    {
        match direction {
            FaceDirection::UP => 0,
            FaceDirection::DOWN => 1,
            FaceDirection::RIGHT => 2,
            FaceDirection::LEFT => 3,
            FaceDirection::FRONT => 4,
            FaceDirection::BACK => 5,
        }
    }

    pub fn from_bgm(bgm_direction: usize) -> (r: Self)
        requires
            bgm_direction < 6,
        ensures
            r == direction_of_group(bgm_direction as int),
    {
        match bgm_direction {
            0 => FaceDirection::UP,
            1 => FaceDirection::DOWN,
            2 => FaceDirection::RIGHT,
            3 => FaceDirection::LEFT,
            4 => FaceDirection::FRONT,
            _ => FaceDirection::BACK,
        }
    }
}

/// Reading a mesher face group number and asking for its index gives the
/// number back.
pub proof fn lemma_to_index_from_bgm(i: int)
    requires
        0 <= i < 6,
    ensures
        direction_index(direction_of_group(i)) == i,
{
}

/// Each direction is the face group found at its own index.
pub proof fn lemma_from_bgm_to_index(d: FaceDirection)
    ensures
        direction_of_group(direction_index(d) as int) == d,
{
}

/// Distinct directions have distinct indices.
pub proof fn lemma_to_index_injective(a: FaceDirection, b: FaceDirection)
    requires
        direction_index(a) == direction_index(b),
    ensures
        a == b,
{
}

/// `FaceDirection` names the same direction as `FaceOrientation` for every mesher
/// face group: group `i` is UP, DOWN, RIGHT, LEFT, FRONT or BACK in both,
/// and each direction has the same group number in both.
pub proof fn lemma_face_direction_matches_face_orientation(i: int)
    requires
        0 <= i < 6,
    ensures
        (direction_of_group(i) == FaceDirection::UP) == (orientation_of_group(i) == FaceOrientation::UP),
        (direction_of_group(i) == FaceDirection::DOWN) == (orientation_of_group(i) == FaceOrientation::DOWN),
        (direction_of_group(i) == FaceDirection::RIGHT) == (orientation_of_group(i) == FaceOrientation::RIGHT),
        (direction_of_group(i) == FaceDirection::LEFT) == (orientation_of_group(i) == FaceOrientation::LEFT),
        (direction_of_group(i) == FaceDirection::FRONT) == (orientation_of_group(i) == FaceOrientation::FRONT),
        (direction_of_group(i) == FaceDirection::BACK) == (orientation_of_group(i) == FaceOrientation::BACK),
        direction_index(FaceDirection::UP) == orientation_index(FaceOrientation::UP),
        direction_index(FaceDirection::DOWN) == orientation_index(FaceOrientation::DOWN),
        direction_index(FaceDirection::RIGHT) == orientation_index(FaceOrientation::RIGHT),
        direction_index(FaceDirection::LEFT) == orientation_index(FaceOrientation::LEFT),
        direction_index(FaceDirection::FRONT) == orientation_index(FaceOrientation::FRONT),
        direction_index(FaceDirection::BACK) == orientation_index(FaceOrientation::BACK),
{
}

} // verus!
