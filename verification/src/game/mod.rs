pub mod dungeon;
pub mod enemies;
pub mod boons;
pub mod sprites;
pub mod save;
pub mod run_state;
pub mod weapons;
pub mod boon_select;
pub mod pickup;
pub mod player;
pub mod tiles;
pub mod hud;
pub mod controls;
pub mod progress;
pub mod screens;
pub mod weapon_select;
