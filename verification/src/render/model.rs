use vstd::prelude::*;

use crate::render::render_server::MaterialId;

verus! {

/// The material index a loaded mesh names, 0 where it names none.
pub open spec fn named_material(mesh_material: Option<usize>) -> int {
    match mesh_material {
        Some(i) => i as int,
        None => 0,
    }
}

/// The material of a loaded mesh: the entry of `material_ids` (the
/// materials of its model file, in file order) at the index the mesh
/// names, or at 0 where it names none.
pub fn mesh_material(material_ids: &[MaterialId], named: Option<usize>) -> (r: MaterialId)
    requires
        named_material(named) < material_ids@.len(),
    ensures
        r == material_ids@[named_material(named)],
{
    let index = match named {
        Some(i) => i,
        None => 0,
    };
    material_ids[index]
}

} // verus!
