pub mod chunk;
pub mod face;
pub mod mesher;
pub mod quad;
