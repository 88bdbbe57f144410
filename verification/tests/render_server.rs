use vox_core::render::render_server::RenderServer;
use vox_core::render::render_storage::{MaterialId, RenderStorage};

#[test]
fn render_server_hands_out_ids_in_push_order() {
    let mut server: RenderServer<&str, u32> = RenderServer::new();
    assert_eq!(server.next_material_id(), 0);
    assert_eq!(server.push_material(10), 0);
    assert_eq!(server.push_material(20), 1);
    assert_eq!(server.next_material_id(), 2);

    assert_eq!(server.next_mesh_id(), 0);
    assert_eq!(server.push_mesh("cube"), 0);
    assert_eq!(server.push_mesh("face"), 1);
    assert_eq!(server.push_mesh("quad"), 2);

    assert_eq!(server.materials(), &vec![10, 20]);
    assert_eq!(server.meshes(), &vec!["cube", "face", "quad"]);
}

#[test]
fn render_server_finds_material_by_id() {
    let mut server: RenderServer<u8, u32> = RenderServer::default();
    let first = server.push_material(7);
    let second = server.push_material(9);
    server.push_mesh(1);
    assert_eq!(*server.get_material(first), 7);
    assert_eq!(*server.get_material(second), 9);
}

#[test]
fn render_server_starts_empty() {
    let server: RenderServer<u8, u8> = RenderServer::new();
    assert!(server.meshes().is_empty());
    assert!(server.materials().is_empty());
}

#[test]
fn render_storage_returns_last_index() {
    let mut storage: RenderStorage<u8, &str> = RenderStorage::new();
    assert!(matches!(storage.push_material("stone"), MaterialId::Index(0)));
    assert!(matches!(storage.push_material("grass"), MaterialId::Index(1)));
    storage.push_mesh(3);
    storage.push_mesh(4);
    assert_eq!(storage.materials(), &vec!["stone", "grass"]);
    assert_eq!(storage.meshes(), &vec![3, 4]);

    let MaterialId::Index(idx) = storage.push_material("sand");
    assert_eq!(storage.materials()[idx], "sand");
}

#[test]
fn render_storage_default_is_empty() {
    let storage: RenderStorage<u8, u8> = RenderStorage::default();
    assert!(storage.meshes().is_empty());
    assert!(storage.materials().is_empty());
}
