use vox_core::render::model::mesh_material;
use vox_core::render::surface::preferred_format;

#[test]
fn mesh_material_uses_named_index() {
    let ids = [4usize, 9, 2];
    assert_eq!(mesh_material(&ids, Some(1)), 9);
    assert_eq!(mesh_material(&ids, Some(2)), 2);
}

#[test]
fn mesh_material_defaults_to_first() {
    let ids = [4usize, 9];
    assert_eq!(mesh_material(&ids, None), 4);
}

#[test]
fn preferred_format_takes_first_srgb() {
    assert_eq!(preferred_format(&[false, true, true]), 1);
    assert_eq!(preferred_format(&[true, false]), 0);
}

#[test]
fn preferred_format_falls_back_to_first() {
    assert_eq!(preferred_format(&[false, false, false]), 0);
    assert_eq!(preferred_format(&[false]), 0);
}
