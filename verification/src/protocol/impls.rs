//! The encodings of the primitive types: integers are little-endian, signed
//! integers in two's complement, and `bool` is one byte.

use vstd::prelude::*;

use crate::protocol::bytes::{
    byte_range, from_twos, le_encode, lemma_byte_range_values, lemma_decode_bound,
};
use crate::protocol::de::{spec_read_le, Deserializer};
use crate::protocol::error::{DeError, SerError};
use crate::protocol::ser::Serializer;
use crate::protocol::serde_am::{Deserialize, Serialize};

verus! {

/// The facts about an `n`-byte read that the impls below share.
proof fn lemma_read_bound(bytes: Seq<u8>, n: nat)
    requires
        bytes.len() >= n,
    ensures
        spec_read_le(bytes, n) matches Ok(d) && d < byte_range(n),
{
    lemma_decode_bound(bytes.take(n as int));
}

impl Serialize for u8 {
    open spec fn spec_serialize(&self) -> Seq<u8> {
        le_encode(*self as int, 1)
    }

    open spec fn serializable(&self) -> bool {
        true
    }

    fn serialize(&self, ser: &mut Serializer) -> (r: Result<(), SerError>)
        ensures
            r is Ok,
    {
        ser.serialize_u8(*self)
    }
}

impl<'de> Deserialize<'de> for u8 {
    open spec fn spec_deserialize(bytes: Seq<u8>) -> Result<(u8, nat), DeError> {
        match spec_read_le(bytes, 1) {
            Ok(d) => Ok((d as u8, 1)),
            Err(e) => Err(e),
        }
    }

    fn deserialize(de: &mut Deserializer<'de>) -> (r: Result<u8, DeError>) {
        proof {
            lemma_byte_range_values();
            if de.bytes@.len() >= 1 {
                lemma_read_bound(de.bytes@, 1);
            }
        }
        de.deserialize_u8()
    }
}

impl Serialize for u16 {
    open spec fn spec_serialize(&self) -> Seq<u8> {
        le_encode(*self as int, 2)
    }

    open spec fn serializable(&self) -> bool {
        true
    }

    fn serialize(&self, ser: &mut Serializer) -> (r: Result<(), SerError>)
        ensures
            r is Ok,
    {
        ser.serialize_u16(*self)
    }
}

impl<'de> Deserialize<'de> for u16 {
    open spec fn spec_deserialize(bytes: Seq<u8>) -> Result<(u16, nat), DeError> {
        match spec_read_le(bytes, 2) {
            Ok(d) => Ok((d as u16, 2)),
            Err(e) => Err(e),
        }
    }

    fn deserialize(de: &mut Deserializer<'de>) -> (r: Result<u16, DeError>) {
        proof {
            lemma_byte_range_values();
            if de.bytes@.len() >= 2 {
                lemma_read_bound(de.bytes@, 2);
            }
        }
        de.deserialize_u16()
    }
}

impl Serialize for u32 {
    open spec fn spec_serialize(&self) -> Seq<u8> {
        le_encode(*self as int, 4)
    }

    open spec fn serializable(&self) -> bool {
        true
    }

    fn serialize(&self, ser: &mut Serializer) -> (r: Result<(), SerError>)
        ensures
            r is Ok,
    {
        ser.serialize_u32(*self)
    }
}

impl<'de> Deserialize<'de> for u32 {
    open spec fn spec_deserialize(bytes: Seq<u8>) -> Result<(u32, nat), DeError> {
        match spec_read_le(bytes, 4) {
            Ok(d) => Ok((d as u32, 4)),
            Err(e) => Err(e),
        }
    }

    fn deserialize(de: &mut Deserializer<'de>) -> (r: Result<u32, DeError>) {
        proof {
            lemma_byte_range_values();
            if de.bytes@.len() >= 4 {
                lemma_read_bound(de.bytes@, 4);
            }
        }
        de.deserialize_u32()
    }
}

impl Serialize for u64 {
    open spec fn spec_serialize(&self) -> Seq<u8> {
        le_encode(*self as int, 8)
    }

    open spec fn serializable(&self) -> bool {
        true
    }

    fn serialize(&self, ser: &mut Serializer) -> (r: Result<(), SerError>)
        ensures
            r is Ok,
    {
        ser.serialize_u64(*self)
    }
}

impl<'de> Deserialize<'de> for u64 {
    open spec fn spec_deserialize(bytes: Seq<u8>) -> Result<(u64, nat), DeError> {
        match spec_read_le(bytes, 8) {
            Ok(d) => Ok((d as u64, 8)),
            Err(e) => Err(e),
        }
    }

    fn deserialize(de: &mut Deserializer<'de>) -> (r: Result<u64, DeError>) {
        proof {
            lemma_byte_range_values();
            if de.bytes@.len() >= 8 {
                lemma_read_bound(de.bytes@, 8);
            }
        }
        de.deserialize_u64()
    }
}

impl Serialize for i8 {
    open spec fn spec_serialize(&self) -> Seq<u8> {
        le_encode(*self as int, 1)
    }

    open spec fn serializable(&self) -> bool {
        true
    }

    fn serialize(&self, ser: &mut Serializer) -> (r: Result<(), SerError>)
        ensures
            r is Ok,
    {
        ser.serialize_i8(*self)
    }
}

impl<'de> Deserialize<'de> for i8 {
    open spec fn spec_deserialize(bytes: Seq<u8>) -> Result<(i8, nat), DeError> {
        match spec_read_le(bytes, 1) {
            Ok(d) => Ok((from_twos(d as int, 1) as i8, 1)),
            Err(e) => Err(e),
        }
    }

    fn deserialize(de: &mut Deserializer<'de>) -> (r: Result<i8, DeError>) {
        proof {
            lemma_byte_range_values();
            if de.bytes@.len() >= 1 {
                lemma_read_bound(de.bytes@, 1);
            }
        }
        de.deserialize_i8()
    }
}

impl Serialize for i16 {
    open spec fn spec_serialize(&self) -> Seq<u8> {
        le_encode(*self as int, 2)
    }

    open spec fn serializable(&self) -> bool {
        true
    }

    fn serialize(&self, ser: &mut Serializer) -> (r: Result<(), SerError>)
        ensures
            r is Ok,
    {
        ser.serialize_i16(*self)
    }
}

impl<'de> Deserialize<'de> for i16 {
    open spec fn spec_deserialize(bytes: Seq<u8>) -> Result<(i16, nat), DeError> {
        match spec_read_le(bytes, 2) {
            Ok(d) => Ok((from_twos(d as int, 2) as i16, 2)),
            Err(e) => Err(e),
        }
    }

    fn deserialize(de: &mut Deserializer<'de>) -> (r: Result<i16, DeError>) {
        proof {
            lemma_byte_range_values();
            if de.bytes@.len() >= 2 {
                lemma_read_bound(de.bytes@, 2);
            }
        }
        de.deserialize_i16()
    }
}

impl Serialize for i32 {
    open spec fn spec_serialize(&self) -> Seq<u8> {
        le_encode(*self as int, 4)
    }

    open spec fn serializable(&self) -> bool {
        true
    }

    fn serialize(&self, ser: &mut Serializer) -> (r: Result<(), SerError>)
        ensures
            r is Ok,
    {
        ser.serialize_i32(*self)
    }
}

impl<'de> Deserialize<'de> for i32 {
    open spec fn spec_deserialize(bytes: Seq<u8>) -> Result<(i32, nat), DeError> {
        match spec_read_le(bytes, 4) {
            Ok(d) => Ok((from_twos(d as int, 4) as i32, 4)),
            Err(e) => Err(e),
        }
    }

    fn deserialize(de: &mut Deserializer<'de>) -> (r: Result<i32, DeError>) {
        proof {
            lemma_byte_range_values();
            if de.bytes@.len() >= 4 {
                lemma_read_bound(de.bytes@, 4);
            }
        }
        de.deserialize_i32()
    }
}

impl Serialize for i64 {
    open spec fn spec_serialize(&self) -> Seq<u8> {
        le_encode(*self as int, 8)
    }

    open spec fn serializable(&self) -> bool {
        true
    }

    fn serialize(&self, ser: &mut Serializer) -> (r: Result<(), SerError>)
        ensures
            r is Ok,
    {
        ser.serialize_i64(*self)
    }
}

impl<'de> Deserialize<'de> for i64 {
    open spec fn spec_deserialize(bytes: Seq<u8>) -> Result<(i64, nat), DeError> {
        match spec_read_le(bytes, 8) {
            Ok(d) => Ok((from_twos(d as int, 8) as i64, 8)),
            Err(e) => Err(e),
        }
    }

    fn deserialize(de: &mut Deserializer<'de>) -> (r: Result<i64, DeError>) {
        proof {
            lemma_byte_range_values();
            if de.bytes@.len() >= 8 {
                lemma_read_bound(de.bytes@, 8);
            }
        }
        de.deserialize_i64()
    }
}

impl Serialize for bool {
    open spec fn spec_serialize(&self) -> Seq<u8> {
        seq![if *self { 1u8 } else { 0u8 }]
    }

    open spec fn serializable(&self) -> bool {
        true
    }

    fn serialize(&self, ser: &mut Serializer) -> (r: Result<(), SerError>)
        ensures
            r is Ok,
    {
        let r = ser.serialize_u8(if *self { 1 } else { 0 });
        assert(ser.output@ =~= old(ser).output@ + self.spec_serialize());
        r
    }
}

impl<'de> Deserialize<'de> for bool {
    /// Any nonzero byte reads as `true`.
    open spec fn spec_deserialize(bytes: Seq<u8>) -> Result<(bool, nat), DeError> {
        if bytes.len() == 0 {
            Err(DeError::Eof)
        } else {
            Ok((bytes[0] != 0, 1))
        }
    }

    fn deserialize(de: &mut Deserializer<'de>) -> (r: Result<bool, DeError>) {
        match de.deserialize_u8()? {
            0 => Ok(false),
            _ => Ok(true),
        }
    }
}

} // verus!
