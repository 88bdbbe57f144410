use vstd::prelude::*;

use crate::render::face_orientation::FaceOrientation;
use crate::render::render_server::MaterialId;

verus! {

/// What the faces of one draw share: orientation, size and material.
#[derive(Hash, PartialEq, Eq, Debug, Clone, Copy, Structural)]
pub struct FaceDescriptor {
    pub orientation: FaceOrientation,
    pub width: u32,
    pub height: u32,
    pub material_id: MaterialId,
}

} // verus!
