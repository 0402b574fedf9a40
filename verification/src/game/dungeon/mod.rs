pub mod room_template;
pub mod templates;
pub mod graph;
pub mod floor_gen;
pub mod encounters;
pub mod world;
