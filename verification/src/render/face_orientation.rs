use vstd::prelude::*;

verus! {

/// The six axis-aligned faces of a voxel, in the order that the greedy
/// mesher emits its face groups.
#[derive(Debug, Clone, Copy, Hash, PartialEq, Eq, Structural)]
pub enum FaceOrientation {
    UP,
    DOWN,
    RIGHT,
    LEFT,
    FRONT,
    BACK,
}

/// Position of an orientation among the mesher's six face groups.
pub open spec fn orientation_index(o: FaceOrientation) -> u32 {
    match o {
        FaceOrientation::UP => 0,
        FaceOrientation::DOWN => 1,
        FaceOrientation::RIGHT => 2,
        FaceOrientation::LEFT => 3,
        FaceOrientation::FRONT => 4,
        FaceOrientation::BACK => 5,
    }
}

/// The orientation of the mesher's face group number `i` (for `i < 6`).
pub open spec fn orientation_of_group(i: int) -> FaceOrientation {
    if i == 0 {
        FaceOrientation::UP
    } else if i == 1 {
        FaceOrientation::DOWN
    } else if i == 2 {
        FaceOrientation::RIGHT
    } else if i == 3 {
        FaceOrientation::LEFT
    } else if i == 4 {
        FaceOrientation::FRONT
    } else {
        FaceOrientation::BACK
    }
}

impl FaceOrientation {
    pub fn index(&self) -> (r: u32)
        ensures
            r == orientation_index(*self),
            r < 6,
    {
        match *self {
            FaceOrientation::UP => 0,
            FaceOrientation::DOWN => 1,
            FaceOrientation::RIGHT => 2,
            FaceOrientation::LEFT => 3,
            FaceOrientation::FRONT => 4,
            FaceOrientation::BACK => 5,
        }
    }

    pub fn from_bgm(bgm_direction: usize) -> (r: Self)
        requires
            bgm_direction < 6,
        ensures
            r == orientation_of_group(bgm_direction as int),
    {
        match bgm_direction {
            0 => FaceOrientation::UP,
            1 => FaceOrientation::DOWN,
            2 => FaceOrientation::RIGHT,
            3 => FaceOrientation::LEFT,
            4 => FaceOrientation::FRONT,
            _ => FaceOrientation::BACK,
        }
    }
}

/// Reading a mesher face group number and asking for its index gives the
/// number back.
pub proof fn lemma_index_from_bgm(i: int)
    requires
        0 <= i < 6,
    ensures
        orientation_index(orientation_of_group(i)) == i,
{
}

/// Each orientation is the face group found at its own index.
pub proof fn lemma_from_bgm_index(o: FaceOrientation)
    ensures
        orientation_of_group(orientation_index(o) as int) == o,
{
}

/// Distinct orientations have distinct indices.
pub proof fn lemma_index_injective(a: FaceOrientation, b: FaceOrientation)
    requires
        orientation_index(a) == orientation_index(b),
    ensures
        a == b,
{
}

} // verus!
