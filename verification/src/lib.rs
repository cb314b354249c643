//! Verified core of an AIRMASH game server: the binary wire format of the
//! protocol, its small data types, and the decisions that the game systems
//! take each frame.

pub mod component;
pub mod game_config;
pub mod protocol;
pub mod rng;
pub mod system;
pub mod text;
