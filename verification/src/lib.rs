pub mod engine;
pub mod game;
