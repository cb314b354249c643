//! Serialization and deserialization for the AIRMASH protocol.

pub mod bytes;
pub mod datatypes;
pub mod de;
pub mod error;
pub mod impls;
pub mod laws;
pub mod ser;
pub mod serde_am;
