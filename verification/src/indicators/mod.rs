pub mod engine;
pub mod fibonacci;
