use std::collections::BTreeSet;

use binary_greedy_meshing::MeshData;
use vstd::prelude::*;

use crate::render::as_meshes::face::FaceDescriptor;
use crate::render::as_meshes::quad::{quad_indices, quad_vertices, GridVertex, VoxelFace};
use crate::render::as_meshes::mesher::{
    clear_mesh_data, greedy_quads, mesh_voxels, new_mesh_data, quads_carry_voxel_values, quads_of,
    MAX_QUADS_PER_DIRECTION,
};
use crate::render::face::packed_xyz;
use crate::render::face_orientation::{orientation_index, orientation_of_group, FaceOrientation};
use crate::voxel_position::{VoxelPosition, CS_P3};
use crate::voxel_registry::{
    id_of_type, id_registered, registry_wf, type_of_id, VoxelRegistry, VoxelType,
    VoxelTypeIdentifier,
};

verus! {

const MASK_6: u64 = 0b111111;

/// The two triangles of each orientation's quad, orientations in mesher
/// group order (up, down, right, left, front, back).
const INDICES: [u32; 36] = [
    0, 1, 2, 0, 2, 3, // UP
    1, 0, 3, 1, 3, 2, // DOWN
    3, 2, 1, 3, 1, 0, // RIGHT
    0, 1, 2, 0, 2, 3, // LEFT
    0, 3, 1, 1, 3, 2, // FRONT
    0, 1, 2, 0, 2, 3, // BACK
];

/// Index `n` of the chunk's index buffer: entry `n % 6` of the triangles of
/// the orientation of group `n / 6`.
pub open spec fn chunk_index(n: int) -> u32 {
    quad_indices(orientation_of_group(n / 6))[n % 6]
}

/// Integer position of a face inside a chunk.
pub type GridPosition = (u32, u32, u32);

/// Face groups in the order they were first seen: a descriptor and the
/// positions of all faces that share it.
pub type FaceGroups = Seq<(FaceDescriptor, Seq<GridPosition>)>;

/// Arguments of one indexed indirect draw.
#[derive(Debug, Clone, Copy, PartialEq, Eq, Structural)]
pub struct DrawIndexedIndirectArgs {
    pub index_count: u32,
    pub instance_count: u32,
    pub first_index: u32,
    pub base_vertex: i32,
    pub first_instance: u32,
}

/// Position fields of a mesher quad: x in bits 0..6, y in 6..12, z in 12..18.
pub open spec fn quad_position(q: u64) -> GridPosition {
    ((q & 63) as u32, ((q >> 6) & 63) as u32, ((q >> 12) & 63) as u32)
}

/// Descriptor of a quad from face group `group`: width in bits 18..24,
/// height in bits 24..30, material 0.
pub open spec fn quad_descriptor(group: int, q: u64) -> FaceDescriptor {
    FaceDescriptor {
        orientation: orientation_of_group(group),
        width: ((q >> 18) & 63) as u32,
        height: ((q >> 24) & 63) as u32,
        material_id: 0,
    }
}

/// Voxel identifier of a quad: its bits from 32 up, as a `u16`.
pub open spec fn quad_voxel_id(q: u64) -> VoxelTypeIdentifier {
    (q >> 32) as u16
}

/// The decoded faces of one face group, in quad order.
pub open spec fn decode_group(group: int, qs: Seq<u64>) -> Seq<(FaceDescriptor, GridPosition)> {
    Seq::new(qs.len(), |j: int| (quad_descriptor(group, qs[j]), quad_position(qs[j])))
}

/// The decoded faces of all face groups, group after group.
pub open spec fn decoded_entries(quads: Seq<Seq<u64>>) -> Seq<(FaceDescriptor, GridPosition)>
    decreases quads.len(),
{
    if quads.len() == 0 {
        Seq::empty()
    } else {
        decoded_entries(quads.drop_last()) + decode_group(quads.len() - 1, quads.last())
    }
}

/// Every quad names a voxel type of the registry.
pub open spec fn quads_registered(quads: Seq<Seq<u64>>, types: Seq<VoxelType>) -> bool {
    forall|f: int, j: int|
        0 <= f < quads.len() && 0 <= j < quads[f].len() ==> id_registered(
            types,
            quad_voxel_id(#[trigger] quads[f][j]) as int,
        )
}

/// A group with descriptor `d` exists.
pub open spec fn has_group(groups: FaceGroups, d: FaceDescriptor) -> bool {
    exists|i: int| 0 <= i < groups.len() && groups[i].0 == d
}

/// Adds one face: to the group of its descriptor, or as a new last group.
pub open spec fn add_entry(groups: FaceGroups, d: FaceDescriptor, p: GridPosition) -> FaceGroups {
    if has_group(groups, d) {
        let i = choose|i: int| 0 <= i < groups.len() && groups[i].0 == d;
        groups.update(i, (d, groups[i].1.push(p)))
    } else {
        groups.push((d, seq![p]))
    }
}

/// Groups a sequence of faces by descriptor, keeping first-seen order.
pub open spec fn group_entries(entries: Seq<(FaceDescriptor, GridPosition)>) -> FaceGroups
    decreases entries.len(),
{
    if entries.len() == 0 {
        Seq::empty()
    } else {
        add_entry(group_entries(entries.drop_last()), entries.last().0, entries.last().1)
    }
}

/// No descriptor heads two groups.
pub open spec fn keys_unique(groups: FaceGroups) -> bool {
    forall|i: int, j: int| 0 <= i < j < groups.len() ==> groups[i].0 != groups[j].0
}

/// No group is empty.
pub open spec fn groups_nonempty(groups: FaceGroups) -> bool {
    forall|i: int| 0 <= i < groups.len() ==> #[trigger] groups[i].1.len() > 0
}

/// The positions of all groups, group after group.
pub open spec fn flatten_groups(groups: FaceGroups) -> Seq<GridPosition>
    decreases groups.len(),
{
    if groups.len() == 0 {
        Seq::empty()
    } else {
        flatten_groups(groups.drop_last()) + groups.last().1
    }
}

/// How many positions the groups before group `i` hold.
pub open spec fn instances_before(groups: FaceGroups, i: int) -> int {
    flatten_groups(groups.take(i)).len() as int
}

/// The indirect draw of group `i`: the six indices of its orientation's
/// quad, instanced once per face of the group.
pub open spec fn draw_args_for(groups: FaceGroups, i: int) -> DrawIndexedIndirectArgs {
    DrawIndexedIndirectArgs {
        index_count: 6,
        instance_count: groups[i].1.len() as u32,
        first_index: (6 * orientation_index(groups[i].0.orientation)) as u32,
        base_vertex: (4 * orientation_index(groups[i].0.orientation)) as i32,
        first_instance: instances_before(groups, i) as u32,
    }
}

/// Voxels are empty (0) or name a registered type.
pub open spec fn voxels_registered(voxels: Seq<VoxelTypeIdentifier>, types: Seq<VoxelType>) -> bool {
    forall|k: int| 0 <= k < voxels.len() ==> #[trigger] voxels[k] == 0 || id_registered(types, voxels[k] as int)
}

/// Faces grouped by descriptor, groups in first-seen order.
#[derive(Debug)]
pub struct FaceMap {
    descriptors: Vec<FaceDescriptor>,
    positions: Vec<Vec<GridPosition>>,
}

impl FaceMap {
    pub closed spec fn groups(&self) -> FaceGroups {
        Seq::new(self.descriptors@.len(), |i: int| (self.descriptors@[i], self.positions@[i]@))
    }

    pub closed spec fn wf(&self) -> bool {
        &&& self.descriptors@.len() == self.positions@.len()
        &&& keys_unique(self.groups())
        &&& groups_nonempty(self.groups())
    }

    pub fn new() -> (r: Self)
        ensures
            r.wf(),
            r.groups() == Seq::<(FaceDescriptor, Seq<GridPosition>)>::empty(),
    {
        let r = FaceMap { descriptors: Vec::new(), positions: Vec::new() };
        assert(r.groups() =~= Seq::<(FaceDescriptor, Seq<GridPosition>)>::empty());
        r
    }

    pub fn len(&self) -> (r: usize)
        requires
            self.wf(),
        ensures
            r == self.groups().len(),
    {
        self.descriptors.len()
    }

    /// Adds the face at `position` to the group of `descriptor`.
    pub fn add(&mut self, descriptor: FaceDescriptor, position: GridPosition)
        requires
            old(self).wf(),
        ensures
            final(self).wf(),
            final(self).groups() == add_entry(old(self).groups(), descriptor, position),
    {
        let ghost g0 = self.groups();
        let mut i: usize = 0;
        while i < self.descriptors.len()
            invariant
                self.descriptors@.len() == self.positions@.len(),
                self.groups() == g0,
                g0 == old(self).groups(),
                keys_unique(g0),
                groups_nonempty(g0),
                i <= self.descriptors@.len(),
                forall|j: int| 0 <= j < i ==> self.descriptors@[j] != descriptor,
            decreases self.descriptors@.len() - i,
        {
            if self.descriptors[i] == descriptor {
                assert(g0[i as int].0 == descriptor);
                assert(has_group(g0, descriptor));
                let ghost k = choose|k: int| 0 <= k < g0.len() && g0[k].0 == descriptor;
                assert(k == i) by {
                    if k < i {
                        assert(g0[k].0 != g0[i as int].0);
                    } else if k > i {
                        assert(g0[i as int].0 != g0[k].0);
                    }
                }
                self.positions[i].push(position);
                assert(self.groups() =~= g0.update(i as int, (descriptor, g0[i as int].1.push(position))));
                assert(groups_nonempty(self.groups()));
                assert(add_entry(g0, descriptor, position) == g0.update(k, (descriptor, g0[k].1.push(position))));
                return;
            }
            i += 1;
        }
        assert(!has_group(g0, descriptor));
        self.descriptors.push(descriptor);
        let single = vec![position];
        assert(single@ =~= seq![position]);
        self.positions.push(single);
        assert(self.groups() =~= g0.push((descriptor, seq![position])));
        assert(keys_unique(self.groups())) by {
            let g1 = self.groups();
            assert forall|a: int, b: int| 0 <= a < b < g1.len() implies g1[a].0 != g1[b].0 by {
                if b == g0.len() {
                    assert(g1[a] == g0[a]);
                }
            }
        }
        assert(groups_nonempty(self.groups()));
    }
}

/// A padded 64³ block of voxels (a 62³ chunk with one voxel of neighbour
/// data on each side) and the faces of its last meshing.
#[derive(Debug)]
pub struct Chunk {
    voxels: Vec<VoxelTypeIdentifier>,
    mesh_data: MeshData,
    face_map: FaceMap,
    voxel_registry: VoxelRegistry,
}

impl Chunk {
    /// The voxel buffer, one identifier per padded slot.
    pub closed spec fn voxels_view(&self) -> Seq<VoxelTypeIdentifier> {
        self.voxels@
    }

    /// The voxel types this chunk's identifiers refer to.
    pub closed spec fn registry_view(&self) -> Seq<VoxelType> {
        self.voxel_registry@
    }

    /// The faces of the last meshing, grouped by descriptor.
    pub closed spec fn face_groups(&self) -> FaceGroups {
        self.face_map.groups()
    }

    /// The buffer has one slot per padded voxel, the registry lists
    /// distinct types, every voxel is empty or registered, and the face
    /// groups have distinct, non-empty groups.
    pub closed spec fn wf(&self) -> bool {
        &&& self.voxels@.len() == CS_P3
        &&& registry_wf(self.voxel_registry@)
        &&& self.face_map.wf()
        &&& voxels_registered(self.voxels@, self.voxel_registry@)
    }

    /// An empty chunk whose voxels refer to `voxel_registry`.
    pub fn new(voxel_registry: VoxelRegistry) -> (r: Self)
        ensures
            r.wf(),
            r.voxels_view() == Seq::new(CS_P3 as nat, |k: int| 0u16),
            r.registry_view() == voxel_registry@,
            r.face_groups() == Seq::<(FaceDescriptor, Seq<GridPosition>)>::empty(),
    {
        let mut voxels: Vec<VoxelTypeIdentifier> = Vec::new();
        let mut k: usize = 0;
        while k < CS_P3
            invariant
                k <= CS_P3,
                voxels@ == Seq::new(k as nat, |j: int| 0u16),
            decreases CS_P3 - k,
        {
            voxels.push(0);
            k += 1;
            assert(voxels@ =~= Seq::new(k as nat, |j: int| 0u16));
        }
        // Asking for the length also establishes that the registry lists
        // its types without repeats.
        let _registered: usize = voxel_registry.len();
        let mesh_data = new_mesh_data();
        let face_map = FaceMap::new();
        Chunk { voxels, mesh_data, face_map, voxel_registry }
    }
}

impl Chunk {
    /// Stores the identifier of `voxel_type` at `position`. The type must be
    /// registered with this chunk.
    pub fn set_voxel_type_at(&mut self, position: VoxelPosition, voxel_type: VoxelType)
        requires
            old(self).wf(),
            position.in_chunk(),
            old(self).registry_view().contains(voxel_type),
        ensures
            final(self).wf(),
            final(self).voxels_view() == old(self).voxels_view().update(
                position.slot(),
                id_of_type(old(self).registry_view(), voxel_type)->0,
            ),
            final(self).registry_view() == old(self).registry_view(),
            final(self).face_groups() == old(self).face_groups(),
    {
        let idx = position.index();
        let voxel_id = self.voxel_registry.get_id(voxel_type).unwrap();
        proof {
            let types = self.voxel_registry@;
            assert(types[types.index_of(voxel_type)] == voxel_type);
        }
        self.voxels.set(idx, voxel_id);
        proof {
            let v1 = self.voxels@;
            let types = self.voxel_registry@;
            assert forall|k: int| 0 <= k < v1.len() implies #[trigger] v1[k] == 0 || id_registered(types, v1[k] as int) by {
                if k != idx as int {
                    assert(v1[k] == old(self).voxels@[k]);
                }
            }
        }
    }

    /// The type of the voxel at `position`, looked up in `voxel_registry`.
    pub fn get_voxel_type_at(&self, position: VoxelPosition, voxel_registry: &VoxelRegistry) -> (r: Option<VoxelType>)
        requires
            self.wf(),
            position.in_chunk(),
        ensures
            r == type_of_id(voxel_registry@, self.voxels_view()[position.slot()] as int),
    {
        let idx = position.index();
        let voxel_id = self.voxels[idx];
        voxel_registry.get_type(voxel_id)
    }

    /// Replaces the face groups with the faces of `quads`, the mesher's
    /// output: quad `q` of group `f` becomes a face of orientation `f`, with
    /// the position and size read from its bit fields and material 0, and
    /// faces are grouped by descriptor in first-seen order. Every quad's
    /// voxel must be registered with this chunk.
    pub fn update_faces_from_quads(&mut self, quads: &Vec<Vec<u64>>)
        requires
            old(self).wf(),
            quads@.len() <= 6,
            quads_registered(quads.deep_view(), old(self).registry_view()),
        ensures
            final(self).wf(),
            final(self).voxels_view() == old(self).voxels_view(),
            final(self).registry_view() == old(self).registry_view(),
            final(self).face_groups() == group_entries(decoded_entries(quads.deep_view())),
    {
        let ghost qv = quads.deep_view();
        let mut face_map = FaceMap::new();
        let mut f: usize = 0;
        proof {
            assert(qv.take(0) =~= Seq::<Seq<u64>>::empty());
        }
        while f < quads.len()
            invariant
                qv == quads.deep_view(),
                quads@.len() <= 6,
                f <= quads@.len(),
                quads_registered(qv, self.voxel_registry@),
                face_map.wf(),
                face_map.groups() == group_entries(decoded_entries(qv.take(f as int))),
            decreases quads@.len() - f,
        {
            let orientation = FaceOrientation::from_bgm(f);
            let bgm_faces = &quads[f];
            let ghost prefix = decoded_entries(qv.take(f as int));
            let mut j: usize = 0;
            proof {
                assert(decode_group(f as int, qv[f as int].take(0)) =~= Seq::empty());
                assert(prefix + decode_group(f as int, qv[f as int].take(0)) =~= prefix);
            }
            while j < bgm_faces.len()
                invariant
                    qv == quads.deep_view(),
                    f < quads@.len(),
                    bgm_faces@ == qv[f as int],
                    orientation == orientation_of_group(f as int),
                    j <= bgm_faces@.len(),
                    quads_registered(qv, self.voxel_registry@),
                    face_map.wf(),
                    prefix == decoded_entries(qv.take(f as int)),
                    face_map.groups() == group_entries(prefix + decode_group(f as int, qv[f as int].take(j as int))),
                decreases bgm_faces@.len() - j,
            {
                let bgm_face = bgm_faces[j];
                let x = bgm_face & MASK_6;
                let y = (bgm_face >> 6) & MASK_6;
                let z = (bgm_face >> 12) & MASK_6;
                let width = (bgm_face >> 18) & MASK_6;
                let height = (bgm_face >> 24) & MASK_6;
                let voxel_id = (bgm_face >> 32) as u16;
                proof {
                    assert(qv[f as int][j as int] == bgm_face);
                    assert(id_registered(self.voxel_registry@, quad_voxel_id(qv[f as int][j as int]) as int));
                }
                let voxel_type = self.voxel_registry.get_type(voxel_id);
                let _voxel_type = voxel_type.unwrap();
                let descriptor = FaceDescriptor {
                    orientation,
                    width: width as u32,
                    height: height as u32,
                    material_id: 0,
                };
                let position: GridPosition = (x as u32, y as u32, z as u32);
                let ghost before = prefix + decode_group(f as int, qv[f as int].take(j as int));
                face_map.add(descriptor, position);
                proof {
                    let after = prefix + decode_group(f as int, qv[f as int].take(j + 1));
                    assert(after =~= before.push((descriptor, position)));
                    assert(after.drop_last() =~= before);
                }
                j += 1;
            }
            proof {
                assert(qv[f as int].take(j as int) =~= qv[f as int]);
                assert(qv.take(f + 1).drop_last() =~= qv.take(f as int));
                assert(qv.take(f + 1).last() == qv[f as int]);
            }
            f += 1;
        }
        proof {
            assert(qv.take(f as int) =~= qv);
        }
        self.face_map = face_map;
    }
}

impl Chunk {
    /// Meshes the voxel buffer (no voxel value is transparent) and replaces
    /// the face groups with the faces of the resulting quads. The mesher
    /// packs voxel values above bit 32 of a `usize`, so this runs on
    /// targets where `usize` has 64 bits.
    pub fn update_faces(&mut self)
        requires
            usize::BITS == 64,
            old(self).wf(),
        ensures
            final(self).wf(),
            final(self).voxels_view() == old(self).voxels_view(),
            final(self).registry_view() == old(self).registry_view(),
            final(self).face_groups() == group_entries(
                decoded_entries(greedy_quads(old(self).voxels_view(), Set::<u16>::empty())),
            ),
            flatten_groups(final(self).face_groups()).len() <= 6 * MAX_QUADS_PER_DIRECTION,
    {
        clear_mesh_data(&mut self.mesh_data);
        self.face_map = FaceMap::new();
        let transparents: BTreeSet<u16> = BTreeSet::default();
        mesh_voxels(self.voxels.as_slice(), &mut self.mesh_data, transparents);
        let quads = quads_of(&self.mesh_data);
        proof {
            let qv = quads.deep_view();
            let voxels = self.voxels@;
            assert(quads_carry_voxel_values(qv, voxels));
            assert forall|f: int, j: int| 0 <= f < qv.len() && 0 <= j < qv[f].len() implies id_registered(
                self.voxel_registry@,
                quad_voxel_id(#[trigger] qv[f][j]) as int,
            ) by {
                let k = choose|k: int| 0 <= k < voxels.len() && voxels[k] != 0 && (qv[f][j] >> 32) == voxels[k] as u64;
                assert(voxels[k] == 0 || id_registered(self.voxel_registry@, voxels[k] as int));
            }
            lemma_decoded_entries_len(qv, qv.len() as int);
            lemma_group_entries_count(decoded_entries(qv));
        }
        self.update_faces_from_quads(&quads);
    }
}

/// Meshing depends on the voxels alone and leaves them and the registry
/// as they were, so meshing a second time gives the same face groups as
/// the first: `first` and `second` are what two `update_faces` calls in a
/// row produce from `start`.
pub proof fn lemma_update_faces_repeatable(start: Chunk, first: Chunk, second: Chunk)
    requires
        first.voxels_view() == start.voxels_view(),
        first.registry_view() == start.registry_view(),
        first.face_groups() == group_entries(
            decoded_entries(greedy_quads(start.voxels_view(), Set::<u16>::empty())),
        ),
        second.voxels_view() == first.voxels_view(),
        second.registry_view() == first.registry_view(),
        second.face_groups() == group_entries(
            decoded_entries(greedy_quads(first.voxels_view(), Set::<u16>::empty())),
        ),
    ensures
        second.face_groups() == first.face_groups(),
        second.voxels_view() == start.voxels_view(),
        second.registry_view() == start.registry_view(),
{
}

/// Quad lists of at most `MAX_QUADS_PER_DIRECTION` quads each decode to at
/// most that many faces per list.
pub proof fn lemma_decoded_entries_len(quads: Seq<Seq<u64>>, n: int)
    requires
        n == quads.len(),
        forall|f: int| 0 <= f < quads.len() ==> (#[trigger] quads[f]).len() <= MAX_QUADS_PER_DIRECTION,
    ensures
        decoded_entries(quads).len() <= n * MAX_QUADS_PER_DIRECTION,
    decreases quads.len(),
{
    if quads.len() > 0 {
        let rest = quads.drop_last();
        assert forall|f: int| 0 <= f < rest.len() implies (#[trigger] rest[f]).len() <= MAX_QUADS_PER_DIRECTION by {
            assert(rest[f] == quads[f]);
        }
        lemma_decoded_entries_len(rest, n - 1);
        assert(quads.last() == quads[quads.len() - 1]);
    }
}

/// The positions of the first `i + 1` groups are those of the first `i`
/// groups followed by those of group `i`.
pub proof fn lemma_flatten_take_step(groups: FaceGroups, i: int)
    requires
        0 <= i < groups.len(),
    ensures
        flatten_groups(groups.take(i + 1)) == flatten_groups(groups.take(i)) + groups[i].1,
{
    assert(groups.take(i + 1).drop_last() =~= groups.take(i));
    assert(groups.take(i + 1).last() == groups[i]);
}

/// The positions of the first `m` groups are a prefix of all positions.
pub proof fn lemma_flatten_prefix(groups: FaceGroups, m: int)
    requires
        0 <= m <= groups.len(),
    ensures
        flatten_groups(groups.take(m)).len() <= flatten_groups(groups).len(),
        forall|n: int| 0 <= n < flatten_groups(groups.take(m)).len() ==>
            #[trigger] flatten_groups(groups)[n] == flatten_groups(groups.take(m))[n],
    decreases groups.len(),
{
    if m == groups.len() {
        assert(groups.take(m) =~= groups);
    } else {
        let rest = groups.drop_last();
        assert(rest.take(m) =~= groups.take(m));
        lemma_flatten_prefix(rest, m);
        assert(flatten_groups(groups) == flatten_groups(rest) + groups.last().1);
    }
}

/// The positions of all groups number as many as the positions before a
/// group past the last one.
pub proof fn lemma_instances_before_all(groups: FaceGroups)
    ensures
        instances_before(groups, groups.len() as int) == flatten_groups(groups).len(),
{
    assert(groups.take(groups.len() as int) =~= groups);
}

/// The positions of the faces in `entries` whose descriptor is `d`, in
/// order.
pub open spec fn positions_of(entries: Seq<(FaceDescriptor, GridPosition)>, d: FaceDescriptor) -> Seq<GridPosition>
    decreases entries.len(),
{
    if entries.len() == 0 {
        Seq::empty()
    } else {
        let rest = positions_of(entries.drop_last(), d);
        if entries.last().0 == d {
            rest.push(entries.last().1)
        } else {
            rest
        }
    }
}

proof fn lemma_positions_of_absent(entries: Seq<(FaceDescriptor, GridPosition)>, d: FaceDescriptor)
    requires
        forall|j: int| 0 <= j < entries.len() ==> #[trigger] entries[j].0 != d,
    ensures
        positions_of(entries, d) == Seq::<GridPosition>::empty(),
    decreases entries.len(),
{
    if entries.len() > 0 {
        let rest = entries.drop_last();
        assert forall|j: int| 0 <= j < rest.len() implies #[trigger] rest[j].0 != d by {
            assert(rest[j] == entries[j]);
        }
        lemma_positions_of_absent(rest, d);
        assert(entries.last() == entries[entries.len() - 1]);
    }
}

/// Grouping faces by descriptor: every descriptor of the faces heads
/// exactly one group and no other descriptor heads one, no group is
/// empty, and each group holds, in order, the positions of exactly the
/// faces with its descriptor.
pub proof fn lemma_group_entries_exact(entries: Seq<(FaceDescriptor, GridPosition)>)
    ensures
        keys_unique(group_entries(entries)),
        groups_nonempty(group_entries(entries)),
        forall|i: int| 0 <= i < group_entries(entries).len() ==>
            #[trigger] group_entries(entries)[i].1 == positions_of(entries, group_entries(entries)[i].0),
        forall|d: FaceDescriptor| has_group(group_entries(entries), d) <==>
            exists|j: int| 0 <= j < entries.len() && #[trigger] entries[j].0 == d,
    decreases entries.len(),
{
    if entries.len() > 0 {
        let rest = entries.drop_last();
        let (d, p) = entries.last();
        lemma_group_entries_exact(rest);
        let g = group_entries(rest);
        let g1 = group_entries(entries);
        assert(g1 == add_entry(g, d, p));
        assert(entries.last() == entries[entries.len() - 1]);
        assert forall|x: FaceDescriptor| #[trigger] positions_of(entries, x) == (if x == d {
            positions_of(rest, x).push(p)
        } else {
            positions_of(rest, x)
        }) by {}
        if has_group(g, d) {
            let k = choose|k: int| 0 <= k < g.len() && g[k].0 == d;
            assert(g1 == g.update(k, (d, g[k].1.push(p))));
            assert forall|i: int, j: int| 0 <= i < j < g1.len() implies g1[i].0 != g1[j].0 by {
                assert(g[i].0 != g[j].0);
            }
            assert forall|i: int| 0 <= i < g1.len() implies #[trigger] g1[i].1 == positions_of(
                entries,
                g1[i].0,
            ) by {
                if i != k {
                    assert(g[i].0 != g[k].0 || i == k);
                    if i < k {
                        assert(g[i].0 != g[k].0);
                    } else {
                        assert(g[k].0 != g[i].0);
                    }
                }
            }
            assert forall|x: FaceDescriptor| has_group(g1, x) <==> exists|j: int|
                0 <= j < entries.len() && #[trigger] entries[j].0 == x by {
                if has_group(g1, x) {
                    let i = choose|i: int| 0 <= i < g1.len() && g1[i].0 == x;
                    assert(g[i].0 == x);
                    assert(has_group(g, x));
                    let j = choose|j: int| 0 <= j < rest.len() && #[trigger] rest[j].0 == x;
                    assert(entries[j] == rest[j]);
                }
                if exists|j: int| 0 <= j < entries.len() && #[trigger] entries[j].0 == x {
                    let j = choose|j: int| 0 <= j < entries.len() && #[trigger] entries[j].0 == x;
                    if j < rest.len() {
                        assert(rest[j] == entries[j]);
                        assert(has_group(g, x));
                        let i = choose|i: int| 0 <= i < g.len() && g[i].0 == x;
                        assert(g1[i].0 == x);
                    } else {
                        assert(g1[k].0 == x);
                    }
                }
            }
        } else {
            assert(g1 == g.push((d, seq![p])));
            assert forall|j: int| 0 <= j < rest.len() implies #[trigger] rest[j].0 != d by {
                if rest[j].0 == d {
                    assert(exists|jj: int| 0 <= jj < rest.len() && #[trigger] rest[jj].0 == d);
                }
            }
            lemma_positions_of_absent(rest, d);
            assert(positions_of(entries, d) =~= seq![p]);
            assert forall|i: int, j: int| 0 <= i < j < g1.len() implies g1[i].0 != g1[j].0 by {
                if j == g.len() {
                    assert(g1[i] == g[i]);
                    if g[i].0 == d {
                        assert(has_group(g, d));
                    }
                }
            }
            assert forall|i: int| 0 <= i < g1.len() implies #[trigger] g1[i].1 == positions_of(
                entries,
                g1[i].0,
            ) by {
                if i < g.len() {
                    assert(g1[i] == g[i]);
                    if g[i].0 == d {
                        assert(has_group(g, d));
                    }
                }
            }
            assert forall|x: FaceDescriptor| has_group(g1, x) <==> exists|j: int|
                0 <= j < entries.len() && #[trigger] entries[j].0 == x by {
                if has_group(g1, x) {
                    let i = choose|i: int| 0 <= i < g1.len() && g1[i].0 == x;
                    if i < g.len() {
                        assert(g[i].0 == x);
                        assert(has_group(g, x));
                        let j = choose|j: int| 0 <= j < rest.len() && #[trigger] rest[j].0 == x;
                        assert(entries[j] == rest[j]);
                    } else {
                        assert(entries[entries.len() - 1].0 == x);
                    }
                }
                if exists|j: int| 0 <= j < entries.len() && #[trigger] entries[j].0 == x {
                    let j = choose|j: int| 0 <= j < entries.len() && #[trigger] entries[j].0 == x;
                    if j < rest.len() {
                        assert(rest[j] == entries[j]);
                        assert(has_group(g, x));
                        let i = choose|i: int| 0 <= i < g.len() && g[i].0 == x;
                        assert(g1[i].0 == x);
                    } else {
                        assert(g1[g.len() as int].0 == x);
                    }
                }
            }
        }
    }
}

/// The indirect draws tile the instance list: the first starts at
/// instance 0, each starts where the previous one ends, the last ends at
/// the end of the list, and instance `k` of draw `i` is face `k` of group
/// `i`.
pub proof fn lemma_draws_tile_instances(groups: FaceGroups)
    requires
        flatten_groups(groups).len() <= u32::MAX,
    ensures
        groups.len() > 0 ==> draw_args_for(groups, 0).first_instance == 0,
        forall|i: int| 0 <= i < groups.len() ==> (#[trigger] draw_args_for(groups, i)).instance_count
            == groups[i].1.len(),
        forall|i: int| 0 <= i < groups.len() - 1 ==> draw_args_for(groups, i).first_instance
            + draw_args_for(groups, i).instance_count == (#[trigger] draw_args_for(groups, i + 1)).first_instance,
        groups.len() > 0 ==> draw_args_for(groups, groups.len() - 1).first_instance + draw_args_for(
            groups,
            groups.len() - 1,
        ).instance_count == flatten_groups(groups).len(),
        forall|i: int, k: int| 0 <= i < groups.len() && 0 <= k < groups[i].1.len() ==> {
            &&& draw_args_for(groups, i).first_instance + k < flatten_groups(groups).len()
            &&& flatten_groups(groups)[draw_args_for(groups, i).first_instance + k] == #[trigger] groups[i].1[k]
        },
{
    assert(groups.take(0) =~= Seq::<(FaceDescriptor, Seq<GridPosition>)>::empty());
    assert forall|i: int| 0 <= i < groups.len() implies {
        &&& instances_before(groups, i) + groups[i].1.len() == instances_before(groups, i + 1)
        &&& instances_before(groups, i + 1) <= flatten_groups(groups).len()
        &&& forall|n: int| 0 <= n < instances_before(groups, i + 1) ==>
            #[trigger] flatten_groups(groups)[n] == flatten_groups(groups.take(i + 1))[n]
    } by {
        lemma_flatten_take_step(groups, i);
        lemma_flatten_prefix(groups, i + 1);
    }
    lemma_instances_before_all(groups);
    assert forall|i: int| 0 <= i < groups.len() implies (#[trigger] draw_args_for(groups, i)).instance_count
        == groups[i].1.len() by {
        assert(instances_before(groups, i) + groups[i].1.len() == instances_before(groups, i + 1));
    }
    assert forall|i: int, k: int| 0 <= i < groups.len() && 0 <= k < groups[i].1.len() implies {
        &&& draw_args_for(groups, i).first_instance + k < flatten_groups(groups).len()
        &&& flatten_groups(groups)[draw_args_for(groups, i).first_instance + k] == #[trigger] groups[i].1[k]
    } by {
        lemma_flatten_take_step(groups, i);
        lemma_flatten_prefix(groups, i + 1);
        let n = instances_before(groups, i) + k;
        assert(flatten_groups(groups.take(i + 1))[n] == groups[i].1[k]);
    }
    if groups.len() > 0 {
        let last = groups.len() - 1;
        assert(instances_before(groups, last) + groups[last].1.len() == instances_before(groups, last + 1));
    }
}

impl Chunk {
    /// The position of every face, group after group: the instance list
    /// that `indirect_indexed_args` indexes into.
    pub fn instances(&self) -> (r: Vec<GridPosition>)
        requires
            self.wf(),
        ensures
            r@ == flatten_groups(self.face_groups()),
    {
        let ghost groups = self.face_groups();
        let mut vec: Vec<GridPosition> = Vec::new();
        let mut i: usize = 0;
        assert(groups.take(0) =~= Seq::<(FaceDescriptor, Seq<GridPosition>)>::empty());
        while i < self.face_map.descriptors.len()
            invariant
                self.wf(),
                groups == self.face_groups(),
                i <= groups.len(),
                vec@ == flatten_groups(groups.take(i as int)),
            decreases groups.len() - i,
        {
            let positions = &self.face_map.positions[i];
            let mut k: usize = 0;
            assert(positions@ == groups[i as int].1);
            assert(vec@ =~= flatten_groups(groups.take(i as int)) + positions@.take(0));
            while k < positions.len()
                invariant
                    k <= positions@.len(),
                    i < groups.len(),
                    positions@ == groups[i as int].1,
                    vec@ == flatten_groups(groups.take(i as int)) + positions@.take(k as int),
                decreases positions@.len() - k,
            {
                vec.push(positions[k]);
                k += 1;
                assert(vec@ =~= flatten_groups(groups.take(i as int)) + positions@.take(k as int));
            }
            proof {
                assert(positions@.take(k as int) =~= positions@);
                lemma_flatten_take_step(groups, i as int);
            }
            i += 1;
        }
        proof {
            assert(groups.take(i as int) =~= groups);
        }
        vec
    }

    /// One indexed indirect draw per face group, in group order. Group `i`
    /// draws the six indices of its orientation's quad, with base vertex
    /// four times the orientation index, over the instances of its faces,
    /// which start after the faces of all earlier groups. The instance
    /// count must fit in a `u32`.
    pub fn indirect_indexed_args(&self) -> (r: Vec<DrawIndexedIndirectArgs>)
        requires
            self.wf(),
            flatten_groups(self.face_groups()).len() <= u32::MAX,
        ensures
            r@.len() == self.face_groups().len(),
            forall|i: int| 0 <= i < r@.len() ==> #[trigger] r@[i] == draw_args_for(self.face_groups(), i),
    {
        let ghost groups = self.face_groups();
        let mut args: Vec<DrawIndexedIndirectArgs> = Vec::new();
        let mut last_instance_idx: u32 = 0;
        let mut i: usize = 0;
        assert(groups.take(0) =~= Seq::<(FaceDescriptor, Seq<GridPosition>)>::empty());
        while i < self.face_map.descriptors.len()
            invariant
                self.wf(),
                groups == self.face_groups(),
                flatten_groups(groups).len() <= u32::MAX,
                i <= groups.len(),
                args@.len() == i,
                last_instance_idx == instances_before(groups, i as int),
                forall|j: int| 0 <= j < i ==> #[trigger] args@[j] == draw_args_for(groups, j),
            decreases groups.len() - i,
        {
            proof {
                lemma_flatten_take_step(groups, i as int);
                lemma_flatten_prefix(groups, i + 1);
            }
            let instance_count = self.face_map.positions[i].len() as u32;
            let index = self.face_map.descriptors[i].orientation.index();
            let base_vertex = (4 * index) as i32;
            let first_index = 6 * index;
            let first_instance = last_instance_idx;
            last_instance_idx += instance_count;
            args.push(DrawIndexedIndirectArgs {
                index_count: 6,
                instance_count,
                first_index,
                base_vertex,
                first_instance,
            });
            i += 1;
        }
        args
    }

    /// The vertex buffer shared by all draws: the four corners of the unit
    /// face of each orientation, in mesher group order (up, down, right,
    /// left, front, back).
    pub fn vertices(&self) -> (r: Vec<GridVertex>)
        ensures
            r@.len() == 24,
            forall|n: int| 0 <= n < 24 ==> #[trigger] r@[n] == quad_vertices(orientation_of_group(n / 4), 1, 1)[n % 4],
    {
        let mut r: Vec<GridVertex> = Vec::new();
        let mut g: usize = 0;
        while g < 6
            invariant
                g <= 6,
                r@.len() == 4 * g,
                forall|n: int| 0 <= n < 4 * g ==> #[trigger] r@[n] == quad_vertices(orientation_of_group(n / 4), 1, 1)[n % 4],
            decreases 6 - g,
        {
            let quad = VoxelFace::vertices(FaceOrientation::from_bgm(g), 1, 1);
            let ghost before = r@;
            r.push(quad[0]);
            r.push(quad[1]);
            r.push(quad[2]);
            r.push(quad[3]);
            assert forall|n: int| 0 <= n < 4 * (g + 1) implies #[trigger] r@[n] == quad_vertices(
                orientation_of_group(n / 4),
                1,
                1,
            )[n % 4] by {
                if n < 4 * g {
                    assert(r@[n] == before[n]);
                } else {
                    assert(n / 4 == g as int);
                    assert(r@[n] == quad@[n - 4 * g]);
                }
            }
            g += 1;
        }
        r
    }

    /// The index buffer shared by all draws: six indices per orientation.
    pub fn indices(&self) -> (r: &[u32])
        ensures
            r@.len() == 36,
            forall|n: int| 0 <= n < 36 ==> #[trigger] r@[n] == chunk_index(n),
    {
        let r: &[u32] = &INDICES;
        assert(r@ =~= Seq::new(36, |n: int| chunk_index(n)));
        r
    }

    pub fn material_id(&self) -> (r: usize)
        ensures
            r == 1,
    {
        1
    }

    /// The number of indirect draws: one per face group.
    /// The number of indirect draws, one per face group. Where the faces
    /// fit in a `u32` (what `indirect_indexed_args` asks), it is the exact
    /// number of groups.
    pub fn draw_count(&self) -> (r: u32)
        requires
            self.wf(),
        ensures
            r == self.face_groups().len() as u32,
            flatten_groups(self.face_groups()).len() <= u32::MAX ==> r == self.face_groups().len(),
    {
        proof {
            if flatten_groups(self.face_groups()).len() <= u32::MAX {
                lemma_draw_count_matches_args(self.face_groups());
            }
        }
        self.face_map.len() as u32
    }
}

impl Default for Chunk {
    fn default() -> (r: Self)
        ensures
            r.wf(),
            r.voxels_view() == Seq::new(CS_P3 as nat, |k: int| 0u16),
            r.registry_view() == Seq::<VoxelType>::empty(),
            r.face_groups() == Seq::<(FaceDescriptor, Seq<GridPosition>)>::empty(),
    {
        Chunk::new(VoxelRegistry::default())
    }
}

/// Each indirect draw reads the six indices of its group's orientation
/// from the chunk's index buffer, and its base vertex is the first of that
/// orientation's four vertices.
pub proof fn lemma_draw_indices_match_orientation(groups: FaceGroups, i: int, k: int)
    requires
        0 <= i < groups.len(),
        0 <= k < 6,
    ensures
        draw_args_for(groups, i).index_count == 6,
        draw_args_for(groups, i).first_index + k < 36,
        chunk_index(draw_args_for(groups, i).first_index + k) == quad_indices(groups[i].0.orientation)[k],
        draw_args_for(groups, i).base_vertex == 4 * orientation_index(groups[i].0.orientation),
{
    let o = groups[i].0.orientation;
    let idx = orientation_index(o) as int;
    let n = 6 * idx + k;
    assert(n / 6 == idx && n % 6 == k) by {
        assert(0 <= idx < 6);
        if idx == 0 {
        } else if idx == 1 {
        } else if idx == 2 {
        } else if idx == 3 {
        } else if idx == 4 {
        } else {
        }
    }
    assert(orientation_of_group(idx) == o);
}

/// What a well-formed chunk holds: a voxel buffer with one slot per padded
/// voxel, a registry of distinct types, voxels that are empty or
/// registered, and distinct, non-empty face groups.
pub proof fn lemma_chunk_wf_facts(chunk: Chunk)
    requires
        chunk.wf(),
    ensures
        chunk.voxels_view().len() == CS_P3,
        registry_wf(chunk.registry_view()),
        voxels_registered(chunk.voxels_view(), chunk.registry_view()),
        keys_unique(chunk.face_groups()),
        groups_nonempty(chunk.face_groups()),
{
}

/// Reading back a voxel that was just set gives the type that was set, and
/// every other voxel of the chunk keeps its identifier: `before` and
/// `after` are a chunk before and after `set_voxel_type_at(p, t)`.
pub proof fn lemma_get_after_set(before: Chunk, after: Chunk, p: VoxelPosition, q: VoxelPosition, t: VoxelType)
    requires
        before.wf(),
        before.registry_view().contains(t),
        p.in_chunk(),
        q.in_chunk(),
        after.voxels_view() == before.voxels_view().update(
            p.slot(),
            id_of_type(before.registry_view(), t)->0,
        ),
        after.registry_view() == before.registry_view(),
    ensures
        type_of_id(after.registry_view(), after.voxels_view()[p.slot()] as int) == Some(t),
        q != p ==> after.voxels_view()[q.slot()] == before.voxels_view()[q.slot()],
{
    let types = before.registry_view();
    crate::voxel_registry::lemma_type_of_id_of_type(types, t);
    if q != p {
        if q.slot() == p.slot() {
            crate::voxel_position::lemma_slot_injective(p, q);
        }
    }
}

proof fn lemma_flatten_update_len(groups: FaceGroups, i: int, g: (FaceDescriptor, Seq<GridPosition>))
    requires
        0 <= i < groups.len(),
    ensures
        flatten_groups(groups.update(i, g)).len() == flatten_groups(groups).len() - groups[i].1.len() + g.1.len(),
    decreases groups.len(),
{
    let u = groups.update(i, g);
    if i == groups.len() - 1 {
        assert(u.drop_last() =~= groups.drop_last());
    } else {
        lemma_flatten_update_len(groups.drop_last(), i, g);
        assert(u.drop_last() =~= groups.drop_last().update(i, g));
    }
}

/// Grouping neither loses nor duplicates a face: the groups hold as many
/// positions as there were faces.
pub proof fn lemma_group_entries_count(entries: Seq<(FaceDescriptor, GridPosition)>)
    ensures
        flatten_groups(group_entries(entries)).len() == entries.len(),
    decreases entries.len(),
{
    if entries.len() > 0 {
        let rest = entries.drop_last();
        let (d, p) = entries.last();
        lemma_group_entries_count(rest);
        let g = group_entries(rest);
        assert(group_entries(entries) == add_entry(g, d, p));
        if has_group(g, d) {
            lemma_group_entries_exact(rest);
            let k = choose|i: int| 0 <= i < g.len() && g[i].0 == d;
            let g1 = group_entries(entries);
            assert(g1[k] == (d, g[k].1.push(p)));
            assert(g1 =~= g.update(k, (d, g[k].1.push(p))));
            lemma_flatten_update_len(g, k, (d, g[k].1.push(p)));
        } else {
            let g1 = g.push((d, seq![p]));
            assert(g1.drop_last() =~= g);
            assert(flatten_groups(g1) == flatten_groups(g) + seq![p]);
        }
    }
}

/// Non-empty groups number no more than their positions; so when the
/// positions fit in a `u32`, `draw_count` is the number of indirect draws.
pub proof fn lemma_draw_count_matches_args(groups: FaceGroups)
    requires
        groups_nonempty(groups),
        flatten_groups(groups).len() <= u32::MAX,
    ensures
        groups.len() <= flatten_groups(groups).len(),
        groups.len() as u32 == groups.len(),
    decreases groups.len(),
{
    if groups.len() > 0 {
        let rest = groups.drop_last();
        assert(groups_nonempty(rest)) by {
            assert forall|i: int| 0 <= i < rest.len() implies #[trigger] rest[i].1.len() > 0 by {
                assert(rest[i] == groups[i]);
            }
        }
        assert(groups.last().1.len() > 0) by {
            assert(groups[groups.len() - 1].1.len() > 0);
        }
        lemma_draw_count_matches_args(rest);
    }
}

/// A mesher quad word decodes to the fields it was packed from: for every
/// six-bit `x`, `y`, `z`, `width` and `height` and every voxel value `v`,
/// the word `(v << 32) | (height << 24) | (width << 18) | (z << 12) |
/// (y << 6) | x` is a face at `(x, y, z)`, `width` by `height`, of material
/// 0, facing its group's orientation, made of voxel `v`. Its low 18 bits
/// are the position as `pack_xyz` packs it, so every coordinate below 64
/// comes back whole.
pub proof fn lemma_quad_word_fields(group: int, x: u64, y: u64, z: u64, width: u64, height: u64, v: u64)
    requires
        x < 64,
        y < 64,
        z < 64,
        width < 64,
        height < 64,
        v < 0x10000,
    ensures
        ({
            let q = (v << 32) | (height << 24) | (width << 18) | (z << 12) | (y << 6) | x;
            &&& quad_position(q) == (x as u32, y as u32, z as u32)
            &&& quad_descriptor(group, q).width == width
            &&& quad_descriptor(group, q).height == height
            &&& quad_descriptor(group, q).material_id == 0
            &&& quad_descriptor(group, q).orientation == orientation_of_group(group)
            &&& quad_voxel_id(q) == v
            &&& q & 0x3ffff == packed_xyz(x as u32, y as u32, z as u32) as u64
        }),
{
    let q = (v << 32) | (height << 24) | (width << 18) | (z << 12) | (y << 6) | x;
    assert(q & 63 == x) by (bit_vector)
        requires
            q == (v << 32) | (height << 24) | (width << 18) | (z << 12) | (y << 6) | x,
            x < 64, y < 64, z < 64, width < 64, height < 64, v < 0x10000;
    assert((q >> 6) & 63 == y) by (bit_vector)
        requires
            q == (v << 32) | (height << 24) | (width << 18) | (z << 12) | (y << 6) | x,
            x < 64, y < 64, z < 64, width < 64, height < 64, v < 0x10000;
    assert((q >> 12) & 63 == z) by (bit_vector)
        requires
            q == (v << 32) | (height << 24) | (width << 18) | (z << 12) | (y << 6) | x,
            x < 64, y < 64, z < 64, width < 64, height < 64, v < 0x10000;
    assert((q >> 18) & 63 == width) by (bit_vector)
        requires
            q == (v << 32) | (height << 24) | (width << 18) | (z << 12) | (y << 6) | x,
            x < 64, y < 64, z < 64, width < 64, height < 64, v < 0x10000;
    assert((q >> 24) & 63 == height) by (bit_vector)
        requires
            q == (v << 32) | (height << 24) | (width << 18) | (z << 12) | (y << 6) | x,
            x < 64, y < 64, z < 64, width < 64, height < 64, v < 0x10000;
    assert(q >> 32 == v) by (bit_vector)
        requires
            q == (v << 32) | (height << 24) | (width << 18) | (z << 12) | (y << 6) | x,
            x < 64, y < 64, z < 64, width < 64, height < 64, v < 0x10000;
    assert(q & 0x3ffff == ((((z as u32) << 12) | ((y as u32) << 6) | (x as u32)) as u64)) by (bit_vector)
        requires
            q == (v << 32) | (height << 24) | (width << 18) | (z << 12) | (y << 6) | x,
            x < 64, y < 64, z < 64, width < 64, height < 64, v < 0x10000;
}

} // verus!
