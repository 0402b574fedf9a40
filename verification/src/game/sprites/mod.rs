pub mod font;
pub mod effects;
pub mod boon_icons;
pub mod title;
pub mod player;
pub mod skeleton;
pub mod ghost;
pub mod boss;
pub mod slime;
pub mod pickups;
