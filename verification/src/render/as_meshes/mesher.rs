//! The greedy mesher of `binary_greedy_meshing`, seen through the contracts
//! that the chunk relies on.

use std::collections::BTreeSet;

use binary_greedy_meshing::MeshData;
use vstd::prelude::*;

verus! {

#[verifier::external_type_specification]
#[verifier::external_body]
pub struct ExMeshData(MeshData);

/// The six quad lists (`quads`) that a `MeshData` currently holds, one per
/// face group: up, down, right, left, front, back.
pub uninterp spec fn mesh_data_quads(data: MeshData) -> Seq<Seq<u64>>;

/// The internal buffers of a `MeshData` are all zero and its quad lists are
/// empty: the state that `MeshData::new` and `MeshData::clear` leave.
pub uninterp spec fn mesh_data_cleared(data: MeshData) -> bool;

/// The quads that `binary_greedy_meshing::mesh` produces for a padded voxel
/// buffer and a set of transparent voxel values, starting from a cleared
/// `MeshData`.
pub uninterp spec fn greedy_quads(voxels: Seq<u16>, transparents: Set<u16>) -> Seq<Seq<u64>>;

/// The most quads the mesher makes in one direction: one per voxel face
/// of the 62³ chunk.
pub const MAX_QUADS_PER_DIRECTION: usize = 238328;

/// Six empty quad lists.
pub open spec fn no_quads() -> Seq<Seq<u64>> {
    seq![Seq::<u64>::empty(); 6]
}

/// Every quad carries, in its bits from 32 up, the value of a non-empty
/// voxel of `voxels`.
pub open spec fn quads_carry_voxel_values(quads: Seq<Seq<u64>>, voxels: Seq<u16>) -> bool {
    forall|f: int, j: int|
        0 <= f < quads.len() && 0 <= j < quads[f].len() ==> exists|k: int|
            0 <= k < voxels.len() && voxels[k] != 0 && #[trigger] (quads[f][j] >> 32) == voxels[k] as u64
}

/// `MeshData::new`: allocates zeroed buffers and six empty quad lists.
#[verifier::external_body]
pub fn new_mesh_data() -> (r: MeshData)
    ensures
        mesh_data_cleared(r),
        mesh_data_quads(r) == no_quads(),
{
    MeshData::new()
}

/// `MeshData::clear`: zeroes the buffers and empties the six quad lists.
#[verifier::external_body]
pub fn clear_mesh_data(data: &mut MeshData)
    ensures
        mesh_data_cleared(*final(data)),
        mesh_data_quads(*final(data)) == no_quads(),
{
    data.clear()
}

/// `binary_greedy_meshing::mesh`: culls hidden faces of a padded 64³ voxel
/// buffer and merges visible ones into quads, appended to the six lists of
/// `data`. On a cleared `data` the lists then hold `greedy_quads`. The
/// mesher reads each quad's voxel value (bits 32 and up) from a voxel that
/// is not 0 (it skips empty voxels when it builds the face masks). Which
/// quads come out, and in what order, is not stated. Each quad of a
/// direction clears at least one set bit of that direction's face masks,
/// which start at zero and receive at most one bit per voxel of the 62³
/// chunk, so no direction gets more than `MAX_QUADS_PER_DIRECTION` quads.
/// The voxel value is packed with `v_type << 32` on a `usize`, which
/// overflows (a panic in debug builds, a lost value in release builds)
/// unless `usize` has 64 bits.
#[verifier::external_body]
pub fn mesh_voxels(voxels: &[u16], data: &mut MeshData, transparents: BTreeSet<u16>)
    requires
        usize::BITS == 64,
        voxels@.len() == 262144,
        mesh_data_cleared(*old(data)),
    ensures
        mesh_data_quads(*final(data)) == greedy_quads(voxels@, transparents@),
        mesh_data_quads(*final(data)).len() == 6,
        forall|f: int| 0 <= f < 6 ==> (#[trigger] mesh_data_quads(*final(data))[f]).len() <= MAX_QUADS_PER_DIRECTION,
        quads_carry_voxel_values(mesh_data_quads(*final(data)), voxels@),
{
    binary_greedy_meshing::mesh(voxels, data, transparents)
}

/// Reads the field `quads` of a `MeshData` into plain vectors.
#[verifier::external_body]
pub fn quads_of(data: &MeshData) -> (r: Vec<Vec<u64>>)
    ensures
        r.deep_view() == mesh_data_quads(*data),
{
    data.quads.to_vec()
}

} // verus!
