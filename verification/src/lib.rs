//! The combat and character core of a turn-based adventure game: fighters
//! (three player classes and scaled enemies) behind a shared capability
//! interface, resource-gated special abilities, potion effects, enemy
//! scaling, and a battle resolver with damage variance and critical hits.
//! Every health and resource mutation saturates within its bounds, and a
//! battle between two live fighters provably ends in victory or defeat.

pub mod battle;
pub mod enemy;
pub mod item;
pub mod mage;
pub mod narrative;
pub mod player;
pub mod rng;
pub mod rogue;
pub mod scaling;
pub mod traits;
pub mod warrior;
