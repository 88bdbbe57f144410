pub mod input;
