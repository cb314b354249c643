//! The errors that serialization and deserialization report.

use std::str::Utf8Error;
use vstd::prelude::*;

verus! {

/// `std::str::Utf8Error`, carried through unchanged inside the errors below.
#[verifier::external_type_specification]
#[verifier::external_body]
pub struct ExUtf8Error(Utf8Error);

/// All the errors that can occur when serializing messages of the AIRMASH
/// protocol.
#[derive(Debug)]
pub enum SerError {
    Utf8Error(Utf8Error),
    ArrayLengthTooBig,
}

/// All the errors that can occur when deserializing messages of the AIRMASH
/// protocol.
#[derive(Debug, Clone, Copy)]
pub enum DeError {
    Eof,
    Utf8Error(Utf8Error),
    InvalidPacketType,
    TrailingBytes,
    InvalidPlaneType(u8),
    InvalidFlag(u16),
    InvalidLevelType(u8),
    InvalidMobType(u8),
    InvalidPlayerStatus(u8),
    InvalidKeyCode(u8),
    EntityMayNotBeDeserialized,
    InvalidEnumValue(&'static str, u64),
}

} // verus!
