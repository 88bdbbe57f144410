pub mod face_direction;
pub mod face_orientation;
pub mod quad_orientation;
pub mod face;
pub mod as_meshes;
pub mod render_server;
pub mod material;
pub mod render_storage;
pub mod text;
pub mod texture;
pub mod cube;
pub mod model;
pub mod surface;
