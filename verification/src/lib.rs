//! Registries of identifiable game content, and the saved and live forms of
//! what a player owns out of them.

pub mod ailment;
pub mod dex;
pub mod id;
pub mod item;
pub mod moves;
pub mod pokemon;
pub mod random;
pub mod types;
