use vox_core::render::as_meshes::quad::{FaceDescriptor, VoxelFace};
use vox_core::render::cube::cube_indices;
use vox_core::render::face::{pack_vertex, pack_xyz};
use vox_core::render::face_orientation::FaceOrientation;

#[test]
fn cube_indices_exact() {
    let idx = cube_indices();
    assert_eq!(
        &idx[..],
        &[
            0, 1, 2, 0, 2, 3, 4, 5, 6, 4, 6, 7, 8, 9, 10, 8, 10, 11, 12, 13, 14, 12, 14, 15, 16,
            17, 18, 16, 18, 19, 20, 21, 22, 20, 22, 23
        ]
    );
    assert!(idx.iter().all(|&i| i < 24));
}

#[test]
fn pack_xyz_layout() {
    assert_eq!(pack_xyz(1, 2, 3), (3 << 12) | (2 << 6) | 1);
    assert_eq!(pack_xyz(63, 63, 63), 0x3ffff);
    let p = pack_xyz(5, 17, 42);
    assert_eq!(p & 63, 5);
    assert_eq!((p >> 6) & 63, 17);
    assert_eq!((p >> 12) & 63, 42);
}

#[test]
fn pack_vertex_layout() {
    let xyz = pack_xyz(5, 17, 42);
    let v = pack_vertex(xyz, 9, 33);
    assert_eq!(v & 0x3ffff, xyz);
    assert_eq!((v >> 18) & 63, 9);
    assert_eq!((v >> 24) & 63, 33);
    assert_eq!(pack_vertex(0, 1, 1), (1 << 24) | (1 << 18));
}

#[test]
fn voxel_face_indices_per_orientation() {
    assert_eq!(VoxelFace::indices(FaceOrientation::UP), [0, 1, 2, 0, 2, 3]);
    assert_eq!(VoxelFace::indices(FaceOrientation::DOWN), [1, 0, 3, 1, 3, 2]);
    assert_eq!(VoxelFace::indices(FaceOrientation::LEFT), [0, 1, 2, 0, 2, 3]);
    assert_eq!(VoxelFace::indices(FaceOrientation::RIGHT), [3, 2, 1, 3, 1, 0]);
    assert_eq!(VoxelFace::indices(FaceOrientation::FRONT), [0, 3, 1, 1, 3, 2]);
    assert_eq!(VoxelFace::indices(FaceOrientation::BACK), [0, 1, 2, 0, 2, 3]);
}

#[test]
fn voxel_face_vertices_front() {
    let v = VoxelFace::vertices(FaceOrientation::FRONT, 3, 2);
    assert_eq!(v[0].position, [0, 0, 0]);
    assert_eq!(v[1].position, [-3, 0, 0]);
    assert_eq!(v[2].position, [-3, 2, 0]);
    assert_eq!(v[3].position, [0, 2, 0]);
    assert_eq!(v[2].tex_coords, [3, 2]);
    assert!(v.iter().all(|x| x.normal == [0, 0, 0]));
}

#[test]
fn voxel_face_vertices_left_swaps_texture_axes() {
    let v = VoxelFace::vertices(FaceOrientation::LEFT, 3, 2);
    assert_eq!(v[1].position, [0, 0, 2]);
    assert_eq!(v[1].tex_coords, [2, 0]);
    assert_eq!(v[2].position, [0, 3, 2]);
    assert_eq!(v[2].tex_coords, [2, 3]);
    assert_eq!(v[3].tex_coords, [0, 3]);
}

#[test]
fn voxel_face_vertices_lie_in_plane() {
    for (o, axis) in [
        (FaceOrientation::UP, 1),
        (FaceOrientation::DOWN, 1),
        (FaceOrientation::RIGHT, 0),
        (FaceOrientation::LEFT, 0),
        (FaceOrientation::FRONT, 2),
        (FaceOrientation::BACK, 2),
    ] {
        let v = VoxelFace::vertices(o, 7, 4);
        assert!(v.iter().all(|x| x.position[axis] == 0));
        assert!(v.iter().all(|x| x.tex_coords[0] >= 0 && x.tex_coords[1] >= 0));
    }
}

#[test]
fn voxel_face_new_keeps_descriptor_and_positions() {
    let d = FaceDescriptor { orientation: FaceOrientation::BACK, width: 2, height: 5, material_id: 4 };
    let face = VoxelFace::new(&d, &[(1, 2, 3), (4, 5, 6)]);
    assert_eq!(face.orientation(), FaceOrientation::BACK);
    let face2 = VoxelFace::new2(&d, vec![(0, 0, 0)]);
    assert_eq!(face2.orientation(), FaceOrientation::BACK);
}

#[test]
fn voxel_face_triangles_wind_outward() {
    for (o, axis, sign) in [
        (FaceOrientation::UP, 1, 1),
        (FaceOrientation::DOWN, 1, -1),
        (FaceOrientation::RIGHT, 0, 1),
        (FaceOrientation::LEFT, 0, -1),
        (FaceOrientation::FRONT, 2, 1),
        (FaceOrientation::BACK, 2, -1),
    ] {
        let v = VoxelFace::vertices(o, 3, 5);
        let idx = VoxelFace::indices(o);
        for t in 0..2 {
            let a = v[idx[3 * t] as usize].position;
            let b = v[idx[3 * t + 1] as usize].position;
            let c = v[idx[3 * t + 2] as usize].position;
            let u = [b[0] - a[0], b[1] - a[1], b[2] - a[2]];
            let w = [c[0] - a[0], c[1] - a[1], c[2] - a[2]];
            let n = [u[1] * w[2] - u[2] * w[1], u[2] * w[0] - u[0] * w[2], u[0] * w[1] - u[1] * w[0]];
            for k in 0..3 {
                let expected = if k == axis { sign * 15 } else { 0 };
                assert_eq!(n[k], expected);
            }
        }
        let first = [idx[0], idx[1], idx[2]];
        let mut shared: Vec<u32> = idx[3..].iter().copied().filter(|i| first.contains(i)).collect();
        shared.sort();
        assert!(shared == vec![0, 2] || shared == vec![1, 3]);
    }
}
