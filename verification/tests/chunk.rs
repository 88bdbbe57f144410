use vox_core::render::as_meshes::chunk::{Chunk, DrawIndexedIndirectArgs};
use vox_core::render::as_meshes::mesher::MAX_QUADS_PER_DIRECTION;
use vox_core::render::as_meshes::quad::VoxelFace;
use vox_core::render::face_orientation::FaceOrientation;
use vox_core::voxel_position::VoxelPosition;
use vox_core::voxel_registry::{VoxelRegistry, VoxelType};

fn registry() -> VoxelRegistry {
    let mut r = VoxelRegistry::default();
    r.register(VoxelType { kind: 1 });
    r.register(VoxelType { kind: 2 });
    r
}

fn quad(x: u64, y: u64, z: u64, w: u64, h: u64, v: u64) -> u64 {
    (v << 32) | (h << 24) | (w << 18) | (z << 12) | (y << 6) | x
}

fn check_tiling(chunk: &Chunk) {
    let instances = chunk.instances();
    let args = chunk.indirect_indexed_args();
    assert_eq!(args.len() as u32, chunk.draw_count());
    let mut next = 0u32;
    for a in &args {
        assert_eq!(a.first_instance, next);
        assert_eq!(a.index_count, 6);
        assert_eq!(a.base_vertex as u32 * 6, a.first_index * 4);
        next += a.instance_count;
    }
    assert_eq!(next as usize, instances.len());
}

#[test]
fn default_chunk_has_no_faces() {
    let mut chunk = Chunk::default();
    chunk.update_faces();
    assert_eq!(chunk.draw_count(), 0);
    assert!(chunk.instances().is_empty());
    assert!(chunk.indirect_indexed_args().is_empty());
    assert_eq!(chunk.material_id(), 1);
}

#[test]
fn get_after_set() {
    let reg = registry();
    let mut chunk = Chunk::new(registry());
    let p = VoxelPosition { x: 3, y: 4, z: 5 };
    let q = VoxelPosition { x: 3, y: 4, z: 6 };
    assert_eq!(chunk.get_voxel_type_at(p, &reg), None);
    chunk.set_voxel_type_at(p, VoxelType { kind: 2 });
    assert_eq!(chunk.get_voxel_type_at(p, &reg), Some(VoxelType { kind: 2 }));
    assert_eq!(chunk.get_voxel_type_at(q, &reg), None);
    chunk.set_voxel_type_at(p, VoxelType { kind: 1 });
    assert_eq!(chunk.get_voxel_type_at(p, &reg), Some(VoxelType { kind: 1 }));
}

#[test]
fn single_voxel_has_six_unit_faces() {
    let mut chunk = Chunk::new(registry());
    chunk.set_voxel_type_at(VoxelPosition { x: 10, y: 20, z: 30 }, VoxelType { kind: 1 });
    chunk.update_faces();
    assert_eq!(chunk.draw_count(), 6);
    assert_eq!(chunk.instances().len(), 6);
    let args = chunk.indirect_indexed_args();
    for (i, a) in args.iter().enumerate() {
        assert_eq!(a.instance_count, 1);
        assert_eq!(a.first_instance, i as u32);
        assert_eq!(a.first_index, 6 * i as u32);
        assert_eq!(a.base_vertex, 4 * i as i32);
    }
    check_tiling(&chunk);
}

#[test]
fn slab_merges_into_groups() {
    let mut chunk = Chunk::new(registry());
    for x in 0..4 {
        for z in 0..3 {
            chunk.set_voxel_type_at(VoxelPosition { x, y: 0, z }, VoxelType { kind: 2 });
        }
    }
    chunk.set_voxel_type_at(VoxelPosition { x: 40, y: 40, z: 40 }, VoxelType { kind: 1 });
    chunk.update_faces();
    check_tiling(&chunk);
    assert!(chunk.draw_count() >= 6);
}

#[test]
fn faces_from_quads_group_by_descriptor() {
    let mut chunk = Chunk::new(registry());
    let quads = vec![
        vec![quad(1, 2, 3, 1, 1, 1), quad(4, 5, 6, 2, 1, 1), quad(7, 8, 9, 1, 1, 2)],
        vec![quad(0, 0, 0, 1, 1, 1)],
        vec![],
        vec![],
        vec![],
        vec![quad(9, 9, 9, 3, 3, 2)],
    ];
    chunk.update_faces_from_quads(&quads);
    assert_eq!(chunk.draw_count(), 4);
    assert_eq!(
        chunk.instances(),
        vec![(1, 2, 3), (7, 8, 9), (4, 5, 6), (0, 0, 0), (9, 9, 9)]
    );
    let args = chunk.indirect_indexed_args();
    assert_eq!(
        args,
        vec![
            DrawIndexedIndirectArgs { index_count: 6, instance_count: 2, first_index: 0, base_vertex: 0, first_instance: 0 },
            DrawIndexedIndirectArgs { index_count: 6, instance_count: 1, first_index: 0, base_vertex: 0, first_instance: 2 },
            DrawIndexedIndirectArgs { index_count: 6, instance_count: 1, first_index: 6, base_vertex: 4, first_instance: 3 },
            DrawIndexedIndirectArgs { index_count: 6, instance_count: 1, first_index: 30, base_vertex: 20, first_instance: 4 },
        ]
    );
    check_tiling(&chunk);
}

#[test]
fn chunk_indices_follow_quad_indices() {
    let chunk = Chunk::default();
    let idx = chunk.indices();
    assert_eq!(idx.len(), 36);
    for g in 0..6usize {
        let o = FaceOrientation::from_bgm(g);
        assert_eq!(&idx[6 * g..6 * g + 6], &VoxelFace::indices(o)[..]);
    }
}

#[test]
fn update_faces_is_repeatable() {
    let mut chunk = Chunk::new(registry());
    chunk.set_voxel_type_at(VoxelPosition { x: 1, y: 1, z: 1 }, VoxelType { kind: 1 });
    chunk.set_voxel_type_at(VoxelPosition { x: 2, y: 1, z: 1 }, VoxelType { kind: 1 });
    chunk.update_faces();
    let first = chunk.instances();
    let first_args = chunk.indirect_indexed_args();
    chunk.update_faces();
    assert_eq!(chunk.instances(), first);
    assert_eq!(chunk.indirect_indexed_args(), first_args);
    // Two touching voxels of one type merge: fewer faces than two cubes.
    assert!(first.len() < 12);
    assert_eq!(first.len() as u32, first_args.iter().map(|a| a.instance_count).sum::<u32>());
}

#[test]
fn update_faces_sees_later_changes() {
    let mut chunk = Chunk::new(registry());
    chunk.set_voxel_type_at(VoxelPosition { x: 5, y: 5, z: 5 }, VoxelType { kind: 1 });
    chunk.update_faces();
    assert_eq!(chunk.instances().len(), 6);
    chunk.set_voxel_type_at(VoxelPosition { x: 20, y: 5, z: 5 }, VoxelType { kind: 2 });
    assert_eq!(chunk.instances().len(), 6);
    chunk.update_faces();
    assert_eq!(chunk.instances().len(), 12);
    check_tiling(&chunk);
}

#[test]
fn unit_faces_positions_are_in_chunk_range() {
    let mut chunk = Chunk::new(registry());
    chunk.set_voxel_type_at(VoxelPosition { x: 61, y: 0, z: 61 }, VoxelType { kind: 2 });
    chunk.update_faces();
    for (x, y, z) in chunk.instances() {
        assert!(x < 64 && y < 64 && z < 64);
    }
}

#[test]
fn chunk_vertices_are_unit_quads_in_group_order() {
    let chunk = Chunk::default();
    let v = chunk.vertices();
    assert_eq!(v.len(), 24);
    for g in 0..6usize {
        let quad = VoxelFace::vertices(FaceOrientation::from_bgm(g), 1, 1);
        for k in 0..4 {
            assert_eq!(v[4 * g + k].position, quad[k].position);
            assert_eq!(v[4 * g + k].tex_coords, quad[k].tex_coords);
        }
    }
    assert_eq!(v[0].position, [0, 0, 1]);
    assert_eq!(v[5].position, [-1, 0, 0]);
    assert_eq!(v[23].position, [1, 1, 0]);
}

#[test]
fn checkerboard_faces_stay_within_direction_bound() {
    let mut chunk = Chunk::new(registry());
    for x in 0..62usize {
        for y in 0..62usize {
            for z in 0..62usize {
                if (x + y + z) % 2 == 0 {
                    chunk.set_voxel_type_at(VoxelPosition { x, y, z }, VoxelType { kind: 1 });
                }
            }
        }
    }
    chunk.update_faces();
    let instances = chunk.instances();
    // Every filled voxel shows all six faces, and none merge.
    let filled = (62 * 62 * 62 + 1) / 2;
    assert_eq!(instances.len(), 6 * filled);
    assert!(instances.len() <= 6 * MAX_QUADS_PER_DIRECTION);
    check_tiling(&chunk);
}
