//! Voxel meshing core: face orientations, chunk face grouping, indirect draw
//! arguments, movement-key state, window-event handling and typed stores for
//! assets, GPU resources and text labels.

pub mod asset;
pub mod assets;
pub mod camera_controller;
pub mod render;
pub mod resources;
pub mod voxel_position;
pub mod voxel_registry;
pub mod window_events;
