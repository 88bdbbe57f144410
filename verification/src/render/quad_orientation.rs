use vstd::prelude::*;

use crate::render::face_orientation::{orientation_index, orientation_of_group, FaceOrientation};

verus! {

#[derive(Debug, Clone, Copy)]
pub enum QuadOrientation {
    UP,
    DOWN,
    LEFT,
    RIGHT,
    FRONT,
    BACK,
}

/// Position of a direction among the mesher's six face groups
/// (up, down, right, left, front, back).
pub open spec fn quad_index(d: QuadOrientation) -> u32 {
    match d {
        QuadOrientation::UP => 0,
        QuadOrientation::DOWN => 1,
        QuadOrientation::RIGHT => 2,
        QuadOrientation::LEFT => 3,
        QuadOrientation::FRONT => 4,
        QuadOrientation::BACK => 5,
    }
}

/// The direction of the mesher's face group number `i` (for `i < 6`).
pub open spec fn quad_of_group(i: int) -> QuadOrientation {
    if i == 0 {
        QuadOrientation::UP
    } else if i == 1 {
        QuadOrientation::DOWN
    } else if i == 2 {
        QuadOrientation::RIGHT
    } else if i == 3 {
        QuadOrientation::LEFT
    } else if i == 4 {
        QuadOrientation::FRONT
    } else {
        QuadOrientation::BACK
    }
}

impl QuadOrientation {
    pub fn to_index(direction: Self) -> (r: u32)
        ensures
            r == quad_index(direction),
            r < 6,
    {
        match direction {
            QuadOrientation::UP => 0,
            QuadOrientation::DOWN => 1,
            QuadOrientation::RIGHT => 2,
            QuadOrientation::LEFT => 3,
            QuadOrientation::FRONT => 4,
            QuadOrientation::BACK => 5,
        }
    }

    pub fn from_bgm(bgm_direction: usize) -> (r: Self)
        requires
            bgm_direction < 6,
        ensures
            r == quad_of_group(bgm_direction as int),
    {
        match bgm_direction {
            0 => QuadOrientation::UP,
            1 => QuadOrientation::DOWN,
            2 => QuadOrientation::RIGHT,
            3 => QuadOrientation::LEFT,
            4 => QuadOrientation::FRONT,
            _ => QuadOrientation::BACK,
        }
    }
}

/// Reading a mesher face group number and asking for its index gives the
/// number back.
pub proof fn lemma_to_index_from_bgm(i: int)
    requires
        0 <= i < 6,
    ensures
        quad_index(quad_of_group(i)) == i,
{
}

/// Each direction is the face group found at its own index.
pub proof fn lemma_from_bgm_to_index(d: QuadOrientation)
    ensures
        quad_of_group(quad_index(d) as int) == d,
{
}

/// Distinct directions have distinct indices.
pub proof fn lemma_to_index_injective(a: QuadOrientation, b: QuadOrientation)
    requires
        quad_index(a) == quad_index(b),
    ensures
        a == b,
{
}

/// `QuadOrientation` names the same direction as `FaceOrientation` for every mesher
/// face group: group `i` is UP, DOWN, RIGHT, LEFT, FRONT or BACK in both,
/// and each direction has the same group number in both.
pub proof fn lemma_quad_orientation_matches_face_orientation(i: int)
    requires
        0 <= i < 6,
    ensures
        (quad_of_group(i) == QuadOrientation::UP) == (orientation_of_group(i) == FaceOrientation::UP),
        (quad_of_group(i) == QuadOrientation::DOWN) == (orientation_of_group(i) == FaceOrientation::DOWN),
        (quad_of_group(i) == QuadOrientation::RIGHT) == (orientation_of_group(i) == FaceOrientation::RIGHT),
        (quad_of_group(i) == QuadOrientation::LEFT) == (orientation_of_group(i) == FaceOrientation::LEFT),
        (quad_of_group(i) == QuadOrientation::FRONT) == (orientation_of_group(i) == FaceOrientation::FRONT),
        (quad_of_group(i) == QuadOrientation::BACK) == (orientation_of_group(i) == FaceOrientation::BACK),
        quad_index(QuadOrientation::UP) == orientation_index(FaceOrientation::UP),
        quad_index(QuadOrientation::DOWN) == orientation_index(FaceOrientation::DOWN),
        quad_index(QuadOrientation::RIGHT) == orientation_index(FaceOrientation::RIGHT),
        quad_index(QuadOrientation::LEFT) == orientation_index(FaceOrientation::LEFT),
        quad_index(QuadOrientation::FRONT) == orientation_index(FaceOrientation::FRONT),
        quad_index(QuadOrientation::BACK) == orientation_index(FaceOrientation::BACK),
{
}

} // verus!
