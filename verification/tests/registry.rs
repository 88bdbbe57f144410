use vox_core::render::material::MaterialId;
use vox_core::render::text::GlyphonLabelId;
use vox_core::voxel_position::{VoxelPosition, CS_P3};
use vox_core::voxel_registry::{VoxelRegistry, VoxelType};

#[test]
fn registry_ids_start_at_one() {
    let mut r = VoxelRegistry::default();
    let stone = VoxelType { kind: 7 };
    let dirt = VoxelType { kind: 9 };
    assert_eq!(r.get_id(stone), None);
    assert_eq!(r.register(stone), Some(1));
    assert_eq!(r.register(dirt), Some(2));
    assert_eq!(r.register(stone), Some(1));
    assert_eq!(r.len(), 2);
    assert_eq!(r.get_id(dirt), Some(2));
    assert_eq!(r.get_type(1), Some(stone));
    assert_eq!(r.get_type(2), Some(dirt));
    assert_eq!(r.get_type(0), None);
    assert_eq!(r.get_type(3), None);
}

#[test]
fn registry_round_trip() {
    let mut r = VoxelRegistry::default();
    for k in 0..20u32 {
        r.register(VoxelType { kind: k * 3 });
    }
    for k in 0..20u32 {
        let t = VoxelType { kind: k * 3 };
        let id = r.get_id(t).unwrap();
        assert_eq!(r.get_type(id), Some(t));
    }
}

#[test]
fn position_index_matches_mesher_layout() {
    assert_eq!(CS_P3, binary_greedy_meshing::CS_P3);
    for (x, y, z) in [(0, 0, 0), (1, 2, 3), (61, 61, 61), (10, 0, 61)] {
        let p = VoxelPosition { x, y, z };
        assert_eq!(p.index(), binary_greedy_meshing::pad_linearize(x, y, z));
    }
    assert_eq!(VoxelPosition { x: 0, y: 0, z: 0 }.index(), 1 + 64 + 4096);
}

#[test]
fn material_id_get() {
    assert_eq!(MaterialId::Index(3).get(), 3);
    assert_eq!(MaterialId::Index(0).get(), 0);
}

#[test]
fn label_ids_compare_by_number() {
    assert!(GlyphonLabelId(1) == GlyphonLabelId(1));
    assert!(GlyphonLabelId(1) != GlyphonLabelId(2));
}
