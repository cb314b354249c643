//! The small data types that packets are made of.

pub mod flags;
pub mod keycode;
pub mod level_ty;
pub mod serverkeystate;
pub mod status;
pub mod upgrades;
