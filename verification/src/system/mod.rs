//! The decisions that the game systems take every frame and on every event.
//!
//! Times are counted in nanoseconds since the server started.

pub mod collision;
pub mod command;
pub mod despawn;
pub mod handler;
pub mod keys;
pub mod network;
pub mod physics;
pub mod powerups;
pub mod ping;
pub mod sets;
pub mod spatial;
pub mod specials;
pub mod upgrades;
pub mod visibility;
