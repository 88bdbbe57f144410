use vstd::prelude::*;

use crate::render::as_meshes::chunk::GridPosition;
use crate::render::face_orientation::{orientation_index, orientation_of_group, FaceOrientation};
use crate::render::render_server::MaterialId;

verus! {

/// A vertex on the voxel grid. Coordinates are whole numbers of voxels,
/// the values that the renderer's float vertex holds; the normal is zero.
#[derive(Debug, Clone, Copy)]
pub struct GridVertex {
    pub position: [i64; 3],
    pub normal: [i64; 3],
    pub tex_coords: [i64; 2],
}

/// A grid vertex with zero normal.
pub open spec fn grid_vertex(x: int, y: int, z: int, u: int, v: int) -> GridVertex {
    GridVertex {
        position: [x as i64, y as i64, z as i64],
        normal: [0i64, 0i64, 0i64],
        tex_coords: [u as i64, v as i64],
    }
}

/// The four corners of a `w` by `h` face of orientation `o`, anchored at
/// the origin, with their texture coordinates.
pub open spec fn quad_vertices(o: FaceOrientation, w: int, h: int) -> Seq<GridVertex> {
    match o {
        FaceOrientation::FRONT => seq![
            grid_vertex(0, 0, 0, 0, 0),
            grid_vertex(-w, 0, 0, w, 0),
            grid_vertex(-w, h, 0, w, h),
            grid_vertex(0, h, 0, 0, h),
        ],
        FaceOrientation::BACK => seq![
            grid_vertex(w, 0, 0, 0, 0),
            grid_vertex(0, 0, 0, w, 0),
            grid_vertex(0, h, 0, w, h),
            grid_vertex(w, h, 0, 0, h),
        ],
        FaceOrientation::UP => seq![
            grid_vertex(0, 0, h, 0, 0),
            grid_vertex(w, 0, h, w, 0),
            grid_vertex(w, 0, 0, w, h),
            grid_vertex(0, 0, 0, 0, h),
        ],
        FaceOrientation::DOWN => seq![
            grid_vertex(0, 0, 0, w, 0),
            grid_vertex(-w, 0, 0, 0, 0),
            grid_vertex(-w, 0, h, 0, h),
            grid_vertex(0, 0, h, w, h),
        ],
        FaceOrientation::RIGHT => seq![
            grid_vertex(0, 0, h, 0, 0),
            grid_vertex(0, 0, 0, 0, h),
            grid_vertex(0, -w, 0, w, h),
            grid_vertex(0, -w, h, w, 0),
        ],
        FaceOrientation::LEFT => seq![
            grid_vertex(0, 0, 0, 0, 0),
            grid_vertex(0, 0, h, h, 0),
            grid_vertex(0, w, h, h, w),
            grid_vertex(0, w, 0, 0, w),
        ],
    }
}

/// The two triangles of a face of orientation `o`, as indices into its
/// four corners.
pub open spec fn quad_indices(o: FaceOrientation) -> Seq<u32> {
    match o {
        FaceOrientation::UP => seq![0u32, 1, 2, 0, 2, 3],
        FaceOrientation::DOWN => seq![1u32, 0, 3, 1, 3, 2],
        FaceOrientation::LEFT => seq![0u32, 1, 2, 0, 2, 3],
        FaceOrientation::RIGHT => seq![3u32, 2, 1, 3, 1, 0],
        FaceOrientation::FRONT => seq![0u32, 3, 1, 1, 3, 2],
        FaceOrientation::BACK => seq![0u32, 1, 2, 0, 2, 3],
    }
}

fn vertex(x: i64, y: i64, z: i64, u: i64, v: i64) -> (r: GridVertex)
    ensures
        r == grid_vertex(x as int, y as int, z as int, u as int, v as int),
{
    GridVertex { position: [x, y, z], normal: [0, 0, 0], tex_coords: [u, v] }
}

/// One face of a voxel mesh: its quad and the positions it is drawn at.
#[derive(Debug)]
pub struct VoxelFace {
    orientation: FaceOrientation,
    vertices: [GridVertex; 4],
    indices: [u32; 6],
    instances: Vec<GridPosition>,
    material_id: MaterialId,
}

/// What the faces of one draw share: orientation, size and material.
#[derive(Hash, PartialEq, Eq, Clone, Copy, Structural)]
pub struct FaceDescriptor {
    pub orientation: FaceOrientation,
    pub width: u32,
    pub height: u32,
    pub material_id: MaterialId,
}

impl VoxelFace {
    pub closed spec fn orientation_view(&self) -> FaceOrientation {
        self.orientation
    }

    pub closed spec fn vertices_view(&self) -> Seq<GridVertex> {
        self.vertices@
    }

    pub closed spec fn indices_view(&self) -> Seq<u32> {
        self.indices@
    }

    pub closed spec fn instances_view(&self) -> Seq<GridPosition> {
        self.instances@
    }

    pub closed spec fn material_id_view(&self) -> MaterialId {
        self.material_id
    }

    /// The face described by `descriptor`, drawn once at each of
    /// `positions`.
    pub fn new(descriptor: &FaceDescriptor, positions: &[GridPosition]) -> (r: Self)
        ensures
            r.orientation_view() == descriptor.orientation,
            r.vertices_view() == quad_vertices(descriptor.orientation, descriptor.width as int, descriptor.height as int),
            r.indices_view() == quad_indices(descriptor.orientation),
            r.instances_view() == positions@,
            r.material_id_view() == descriptor.material_id,
    {
        let orientation = descriptor.orientation;
        let width = descriptor.width;
        let height = descriptor.height;
        let material_id = descriptor.material_id;

        let mut instances: Vec<GridPosition> = Vec::new();
        let mut i: usize = 0;
        while i < positions.len()
            invariant
                i <= positions@.len(),
                instances@ == positions@.take(i as int),
            decreases positions@.len() - i,
        {
            instances.push(positions[i]);
            i += 1;
            assert(instances@ =~= positions@.take(i as int));
        }
        assert(positions@.take(i as int) =~= positions@);

        let vertices = Self::vertices(orientation, width, height);
        let indices = Self::indices(orientation);

        Self { orientation, vertices, indices, material_id, instances }
    }

    /// The face described by `descriptor`, drawn at `instances`.
    pub fn new2(descriptor: &FaceDescriptor, instances: Vec<GridPosition>) -> (r: Self)
        ensures
            r.orientation_view() == descriptor.orientation,
            r.vertices_view() == quad_vertices(descriptor.orientation, descriptor.width as int, descriptor.height as int),
            r.indices_view() == quad_indices(descriptor.orientation),
            r.instances_view() == instances@,
            r.material_id_view() == descriptor.material_id,
    {
        let orientation = descriptor.orientation;
        let width = descriptor.width;
        let height = descriptor.height;
        let material_id = descriptor.material_id;

        let vertices = Self::vertices(orientation, width, height);
        let indices = Self::indices(orientation);

        Self { orientation, vertices, indices, material_id, instances }
    }

    /// The four corners of a `width` by `height` face of orientation
    /// `direction`.
    pub fn vertices(direction: FaceOrientation, width: u32, height: u32) -> (r: [GridVertex; 4])
        ensures
            r@ == quad_vertices(direction, width as int, height as int),
    {
        let w = width as i64;
        let h = height as i64;
        let r = match direction {
            FaceOrientation::FRONT => [
                vertex(0, 0, 0, 0, 0),
                vertex(-w, 0, 0, w, 0),
                vertex(-w, h, 0, w, h),
                vertex(0, h, 0, 0, h),
            ],
            FaceOrientation::BACK => [
                vertex(w, 0, 0, 0, 0),
                vertex(0, 0, 0, w, 0),
                vertex(0, h, 0, w, h),
                vertex(w, h, 0, 0, h),
            ],
            FaceOrientation::UP => [
                vertex(0, 0, h, 0, 0),
                vertex(w, 0, h, w, 0),
                vertex(w, 0, 0, w, h),
                vertex(0, 0, 0, 0, h),
            ],
            FaceOrientation::DOWN => [
                vertex(0, 0, 0, w, 0),
                vertex(-w, 0, 0, 0, 0),
                vertex(-w, 0, h, 0, h),
                vertex(0, 0, h, w, h),
            ],
            FaceOrientation::RIGHT => [
                vertex(0, 0, h, 0, 0),
                vertex(0, 0, 0, 0, h),
                vertex(0, -w, 0, w, h),
                vertex(0, -w, h, w, 0),
            ],
            FaceOrientation::LEFT => [
                vertex(0, 0, 0, 0, 0),
                vertex(0, 0, h, h, 0),
                vertex(0, w, h, h, w),
                vertex(0, w, 0, 0, w),
            ],
        };
        assert(r@ =~= quad_vertices(direction, width as int, height as int));
        r
    }

    /// The two triangles of a face of orientation `direction`.
    pub fn indices(direction: FaceOrientation) -> (r: [u32; 6])
        ensures
            r@ == quad_indices(direction),
    {
        let r = match direction {
            FaceOrientation::UP => [0, 1, 2, 0, 2, 3],
            FaceOrientation::DOWN => [1, 0, 3, 1, 3, 2],
            FaceOrientation::LEFT => [0, 1, 2, 0, 2, 3],
            FaceOrientation::RIGHT => [3, 2, 1, 3, 1, 0],
            FaceOrientation::FRONT => [0, 3, 1, 1, 3, 2],
            FaceOrientation::BACK => [0, 1, 2, 0, 2, 3],
        };
        assert(r@ =~= quad_indices(direction));
        r
    }

    pub fn orientation(&self) -> (r: FaceOrientation)
        ensures
            r == self.orientation_view(),
    {
        self.orientation
    }
}

/// Both triangles of every face use corners 0 to 3 only, each triangle
/// has three different corners, and together they touch all four.
pub proof fn lemma_quad_indices_cover_corners(o: FaceOrientation)
    ensures
        quad_indices(o).len() == 6,
        forall|k: int| 0 <= k < 6 ==> #[trigger] quad_indices(o)[k] < 4,
        quad_indices(o)[0] != quad_indices(o)[1] && quad_indices(o)[1] != quad_indices(o)[2]
            && quad_indices(o)[0] != quad_indices(o)[2],
        quad_indices(o)[3] != quad_indices(o)[4] && quad_indices(o)[4] != quad_indices(o)[5]
            && quad_indices(o)[3] != quad_indices(o)[5],
        forall|c: u32| c < 4 ==> #[trigger] quad_indices(o).contains(c),
{
    let s = quad_indices(o);
    assert forall|c: u32| c < 4 implies #[trigger] s.contains(c) by {
        if c == s[0] {
            assert(s[0] == c);
        } else if c == s[1] {
            assert(s[1] == c);
        } else if c == s[2] {
            assert(s[2] == c);
        } else if c == s[3] {
            assert(s[3] == c);
        } else if c == s[4] {
            assert(s[4] == c);
        } else {
            assert(s[5] == c);
        }
    }
}

/// The axis a face of orientation `o` is perpendicular to: 0 for x, 1 for
/// y, 2 for z.
pub open spec fn normal_axis(o: FaceOrientation) -> int {
    match o {
        FaceOrientation::UP | FaceOrientation::DOWN => 1,
        FaceOrientation::RIGHT | FaceOrientation::LEFT => 0,
        FaceOrientation::FRONT | FaceOrientation::BACK => 2,
    }
}

/// Every face lies flat in the plane through the origin across its normal
/// axis, and its texture coordinates never go below zero.
pub proof fn lemma_quad_vertices_flat(o: FaceOrientation, w: int, h: int)
    requires
        0 <= w < 0x1_0000_0000,
        0 <= h < 0x1_0000_0000,
    ensures
        quad_vertices(o, w, h).len() == 4,
        forall|k: int| 0 <= k < 4 ==> (#[trigger] quad_vertices(o, w, h)[k]).position[normal_axis(o)] == 0,
        forall|k: int| 0 <= k < 4 ==> (#[trigger] quad_vertices(o, w, h)[k]).tex_coords[0] >= 0
            && quad_vertices(o, w, h)[k].tex_coords[1] >= 0,
{
}

/// Whether faces of orientation `o` look along the positive direction of
/// their axis (UP, RIGHT, FRONT) rather than the negative one.
pub open spec fn faces_positive(o: FaceOrientation) -> bool {
    match o {
        FaceOrientation::UP | FaceOrientation::RIGHT | FaceOrientation::FRONT => true,
        _ => false,
    }
}

/// Coordinate `axis` of the corner that index `k` of the face's triangle
/// list names.
pub open spec fn corner_coord(o: FaceOrientation, w: int, h: int, k: int, axis: int) -> int {
    quad_vertices(o, w, h)[quad_indices(o)[k] as int].position[axis] as int
}

/// Coordinate `axis` of the cross product (b - a) x (c - a) of triangle `t`
/// (0 or 1) of a face, with a, b, c its corners in index order.
pub open spec fn triangle_normal(o: FaceOrientation, w: int, h: int, t: int, axis: int) -> int {
    let (i, j) = if axis == 0 {
        (1int, 2int)
    } else if axis == 1 {
        (2int, 0int)
    } else {
        (0int, 1int)
    };
    let u_i = corner_coord(o, w, h, 3 * t + 1, i) - corner_coord(o, w, h, 3 * t, i);
    let u_j = corner_coord(o, w, h, 3 * t + 1, j) - corner_coord(o, w, h, 3 * t, j);
    let v_i = corner_coord(o, w, h, 3 * t + 2, i) - corner_coord(o, w, h, 3 * t, i);
    let v_j = corner_coord(o, w, h, 3 * t + 2, j) - corner_coord(o, w, h, 3 * t, j);
    u_i * v_j - u_j * v_i
}

/// Both triangles of a `w` by `h` face wind the same way, outward: the
/// normal of each points along the face's axis, in the face's direction,
/// with length `w * h` (twice the triangle's area). The two triangles
/// share one diagonal of the quad, corners 0 and 2 or corners 1 and 3.
pub proof fn lemma_quad_triangles_face_outward(o: FaceOrientation, w: int, h: int)
    requires
        0 < w < 0x1_0000_0000,
        0 < h < 0x1_0000_0000,
    ensures
        forall|t: int, axis: int|
            0 <= t < 2 && 0 <= axis < 3 ==> #[trigger] triangle_normal(o, w, h, t, axis) == if axis
                != normal_axis(o) {
                0
            } else if faces_positive(o) {
                w * h
            } else {
                -(w * h)
            },
        ({
            let s = quad_indices(o);
            let first = set![s[0], s[1], s[2]];
            let second = set![s[3], s[4], s[5]];
            first.intersect(second) == set![0u32, 2u32] || first.intersect(second) == set![1u32, 3u32]
        }),
{
    let s = quad_indices(o);
    let first = set![s[0], s[1], s[2]];
    let second = set![s[3], s[4], s[5]];
    assert(first.intersect(second) =~= set![0u32, 2u32] || first.intersect(second) =~= set![1u32, 3u32]);
    assert forall|t: int, axis: int| 0 <= t < 2 && 0 <= axis < 3 implies #[trigger] triangle_normal(
        o,
        w,
        h,
        t,
        axis,
    ) == if axis != normal_axis(o) {
        0
    } else if faces_positive(o) {
        w * h
    } else {
        -(w * h)
    } by {
        assert((w as i64) as int == w && ((-w) as i64) as int == -w);
        assert((h as i64) as int == h && ((-h) as i64) as int == -h);
        lemma_side_products(w, h);
    }
}

/// The products of two coordinates of a `w` by `h` face's corners.
proof fn lemma_side_products(w: int, h: int)
    by (nonlinear_arith)
    ensures
        0int * 0int == 0,
        0int * w == 0,
        0int * (-w) == 0,
        0int * h == 0,
        0int * (-h) == 0,
        w * 0int == 0,
        w * w == w * w,
        w * (-w) == -(w * w),
        w * h == w * h,
        w * (-h) == -(w * h),
        (-w) * 0int == 0,
        (-w) * w == -(w * w),
        (-w) * (-w) == w * w,
        (-w) * h == -(w * h),
        (-w) * (-h) == w * h,
        h * 0int == 0,
        h * w == w * h,
        h * (-w) == -(w * h),
        h * h == h * h,
        h * (-h) == -(h * h),
        (-h) * 0int == 0,
        (-h) * w == -(w * h),
        (-h) * (-w) == w * h,
        (-h) * h == -(h * h),
        (-h) * (-h) == h * h,
{
}

/// The axis along which a face's width runs: x for up, down, front and
/// back faces, y for right and left faces.
pub open spec fn width_axis(o: FaceOrientation) -> int {
    match o {
        FaceOrientation::RIGHT | FaceOrientation::LEFT => 1,
        _ => 0,
    }
}

/// The axis along which a face's height runs: y for front and back faces,
/// z for the others.
pub open spec fn height_axis(o: FaceOrientation) -> int {
    match o {
        FaceOrientation::FRONT | FaceOrientation::BACK => 1,
        _ => 2,
    }
}

/// Whether a face's width runs from its anchor towards negative
/// coordinates: the mesher anchors down, right and front quads at the far
/// end of their width (it adds the length to the anchor for those groups).
pub open spec fn width_backward(o: FaceOrientation) -> bool {
    match o {
        FaceOrientation::DOWN | FaceOrientation::RIGHT | FaceOrientation::FRONT => true,
        _ => false,
    }
}

/// Coordinate `axis` of corner `k` of a `w` by `h` face of orientation `o`.
pub open spec fn corner_at(o: FaceOrientation, w: int, h: int, k: int, axis: int) -> int {
    quad_vertices(o, w, h)[k].position[axis] as int
}

/// The corners of a `w` by `h` face cover exactly its rectangle: along the
/// width axis they run over `[0, w]` (or `[-w, 0]` for faces anchored at
/// the far end), along the height axis over `[0, h]`, and both ends of
/// each range are reached by some corner.
pub proof fn lemma_quad_extent(o: FaceOrientation, w: int, h: int)
    requires
        0 < w < 0x1_0000_0000,
        0 < h < 0x1_0000_0000,
    ensures
        ({
            let wa = width_axis(o);
            let ha = height_axis(o);
            let lo = if width_backward(o) { -w } else { 0 };
            let hi = if width_backward(o) { 0 } else { w };
            &&& wa != ha && wa != normal_axis(o) && ha != normal_axis(o)
            &&& forall|k: int| 0 <= k < 4 ==> lo <= #[trigger] corner_at(o, w, h, k, wa) <= hi
            &&& forall|k: int| 0 <= k < 4 ==> 0 <= #[trigger] corner_at(o, w, h, k, ha) <= h
            &&& corner_at(o, w, h, 0, wa) == lo || corner_at(o, w, h, 1, wa) == lo
                || corner_at(o, w, h, 2, wa) == lo || corner_at(o, w, h, 3, wa) == lo
            &&& corner_at(o, w, h, 0, wa) == hi || corner_at(o, w, h, 1, wa) == hi
                || corner_at(o, w, h, 2, wa) == hi || corner_at(o, w, h, 3, wa) == hi
            &&& corner_at(o, w, h, 0, ha) == 0 || corner_at(o, w, h, 1, ha) == 0
                || corner_at(o, w, h, 2, ha) == 0 || corner_at(o, w, h, 3, ha) == 0
            &&& corner_at(o, w, h, 0, ha) == h || corner_at(o, w, h, 1, ha) == h
                || corner_at(o, w, h, 2, ha) == h || corner_at(o, w, h, 3, ha) == h
        }),
{
    assert((w as i64) as int == w && ((-w) as i64) as int == -w);
    assert((h as i64) as int == h && ((-h) as i64) as int == -h);
}

/// The mesher's face groups, by the way their faces point: groups 0 and 1
/// face along y, 2 and 3 along x, 4 and 5 along z, and the even group of
/// each pair faces towards positive coordinates (the mesher places those
/// faces one voxel further along the axis). With the outward winding of
/// `lemma_quad_triangles_face_outward`, group 0 is up, 1 down, 2 right,
/// 3 left, 4 front and 5 back.
pub proof fn lemma_group_faces(i: int)
    requires
        0 <= i < 6,
    ensures
        normal_axis(orientation_of_group(i)) == (if i < 2 {
            1int
        } else if i < 4 {
            0int
        } else {
            2int
        }),
        faces_positive(orientation_of_group(i)) == (i % 2 == 0),
        orientation_index(orientation_of_group(i)) == i,
{
}

} // verus!
