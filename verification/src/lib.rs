pub mod laws;
pub mod name;
pub mod super_villain;

pub use super_villain::{MalformedName, MegaWeapon, Names, SuperVillain, PLANNING_SECONDS};
