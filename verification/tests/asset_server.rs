use std::rc::Rc;

use vox_core::asset::{Asset, NameView};
use vox_core::assets::asset_server::AssetServer;

struct Named {
    name: String,
    payload: u32,
}

impl Asset for Named {
    // The view of the name above; only the verifier reads it, at run time
    // nothing calls it.
    fn name_view(&self) -> NameView {
        unreachable!()
    }

    fn file_name(&self) -> &str {
        &self.name
    }
}

fn named(name: &str, payload: u32) -> Named {
    Named { name: name.to_string(), payload }
}

#[test]
fn get_after_insert_finds_asset() {
    let mut server: AssetServer<Named> = AssetServer::new();
    assert!(server.get("stone.png").is_none());
    assert!(server.insert(named("stone.png", 1)).is_none());
    let found = server.get("stone.png").unwrap();
    assert_eq!(found.payload, 1);
    assert_eq!(found.name, "stone.png");
    assert!(server.get("dirt.png").is_none());
}

#[test]
fn insert_replaces_same_name() {
    let mut server: AssetServer<Named> = AssetServer::new();
    server.insert(named("a.obj", 1));
    server.insert(named("b.obj", 2));
    let previous = server.insert(named("a.obj", 3)).unwrap();
    assert_eq!(previous.payload, 1);
    assert_eq!(server.get("a.obj").unwrap().payload, 3);
    assert_eq!(server.get("b.obj").unwrap().payload, 2);
}

#[test]
fn get_shares_the_stored_asset() {
    let mut server: AssetServer<Named> = AssetServer::new();
    server.insert(named("x", 5));
    let a = server.get("x").unwrap();
    let b = server.get("x").unwrap();
    assert!(Rc::ptr_eq(&a, &b));
}

#[test]
fn other_names_untouched_by_insert() {
    let mut server: AssetServer<Named> = AssetServer::new();
    for (i, name) in ["a", "b", "ab", "ba", "a.png", "A"].iter().enumerate() {
        assert!(server.insert(named(name, i as u32)).is_none());
    }
    server.insert(named("ab", 100));
    assert_eq!(server.get("a").unwrap().payload, 0);
    assert_eq!(server.get("b").unwrap().payload, 1);
    assert_eq!(server.get("ab").unwrap().payload, 100);
    assert_eq!(server.get("ba").unwrap().payload, 3);
    assert_eq!(server.get("A").unwrap().payload, 5);
    assert!(server.get("").is_none());
    assert!(server.get("a.pn").is_none());
    assert!(server.get("aa").is_none());
}
