//! Reading protocol values from bytes.

use vstd::prelude::*;
use vstd::utf8::{decode_utf8, valid_utf8};

use crate::protocol::bytes::{
    byte_range, from_twos, le_decode, lemma_byte_range_values, lemma_decode_append,
};
use crate::protocol::error::DeError;
use crate::protocol::serde_am::Deserialize;
use crate::text::str_from_utf8;

verus! {

/// The input that remains to be read.
pub struct Deserializer<'a> {
    pub bytes: &'a [u8],
}

/// Reading an `n`-byte little-endian unsigned value from the front of
/// `bytes`: its value, or `Eof` when fewer than `n` bytes remain.
pub open spec fn spec_read_le(bytes: Seq<u8>, n: nat) -> Result<nat, DeError> {
    if bytes.len() < n {
        Err(DeError::Eof)
    } else {
        Ok(le_decode(bytes.take(n as int)))
    }
}

/// What is left of `bytes` after an `n`-byte read: nothing when the read
/// ran out of input, since every partial read consumes what it finds.
pub open spec fn spec_rest_after(bytes: Seq<u8>, n: nat) -> Seq<u8> {
    if bytes.len() < n {
        Seq::empty()
    } else {
        bytes.skip(n as int)
    }
}

/// Deserializes a value from a byte buffer, and returns an error when the
/// bytes cannot be deserialized to the given type or are not all used.
pub fn from_bytes<'a, T: Deserialize<'a>>(b: &'a [u8]) -> (r: Result<T, DeError>)
    ensures
        r == spec_from_bytes::<T>(b@),
{
    let mut deserializer = Deserializer::from_bytes(b);
    let t = T::deserialize(&mut deserializer)?;
    if deserializer.bytes.len() == 0 {
        Ok(t)
    } else {
        Err(DeError::TrailingBytes)
    }
}

/// Reading a whole buffer as one value: the value when it uses every byte,
/// `TrailingBytes` when bytes are left over, or the error of the read.
pub open spec fn spec_from_bytes<'a, T: Deserialize<'a>>(b: Seq<u8>) -> Result<T, DeError> {
    match T::spec_deserialize(b) {
        Ok((v, n)) => if n == b.len() {
            Ok(v)
        } else {
            Err(DeError::TrailingBytes)
        },
        Err(e) => Err(e),
    }
}

proof fn lemma_read_split(bytes: Seq<u8>, a: nat, b: nat)
    requires
        bytes.len() >= a + b,
    ensures
        le_decode(bytes.take((a + b) as int)) == le_decode(bytes.take(a as int)) + byte_range(a) * le_decode(
            bytes.skip(a as int).take(b as int),
        ),
{
    assert(bytes.take((a + b) as int) =~= bytes.take(a as int) + bytes.skip(a as int).take(b as int));
    lemma_decode_append(bytes.take(a as int), bytes.skip(a as int).take(b as int));
}

impl<'a> Deserializer<'a> {
    pub fn from_bytes(bytes: &'a [u8]) -> (r: Self)
        ensures
            r.bytes@ == bytes@,
    {
        return Self { bytes };
    }
}

impl<'de> Deserializer<'de> {
    pub fn deserialize_i8(&mut self) -> (r: Result<i8, DeError>)
        ensures
            match spec_read_le(old(self).bytes@, 1) {
                Ok(d) => (r matches Ok(v) && v == from_twos(d as int, 1)),
                Err(e) => r == Err::<i8, DeError>(e),
            },
            final(self).bytes@ == spec_rest_after(old(self).bytes@, 1),
    {
        let v = self.deserialize_u8()?;
        proof {
            lemma_byte_range_values();
            assert((v as i8) as int == if v < 128 { v as int } else { v - 256 }) by (bit_vector);
        }
        Ok(v as i8)
    }

    pub fn deserialize_i16(&mut self) -> (r: Result<i16, DeError>)
        ensures
            match spec_read_le(old(self).bytes@, 2) {
                Ok(d) => (r matches Ok(v) && v == from_twos(d as int, 2)),
                Err(e) => r == Err::<i16, DeError>(e),
            },
            final(self).bytes@ == spec_rest_after(old(self).bytes@, 2),
    {
        let v = self.deserialize_u16()?;
        proof {
            lemma_byte_range_values();
            assert((v as i16) as int == if v < 32768 { v as int } else { v - 65536 })
                by (bit_vector);
        }
        Ok(v as i16)
    }

    pub fn deserialize_i32(&mut self) -> (r: Result<i32, DeError>)
        ensures
            match spec_read_le(old(self).bytes@, 4) {
                Ok(d) => (r matches Ok(v) && v == from_twos(d as int, 4)),
                Err(e) => r == Err::<i32, DeError>(e),
            },
            final(self).bytes@ == spec_rest_after(old(self).bytes@, 4),
    {
        let v = self.deserialize_u32()?;
        proof {
            lemma_byte_range_values();
            assert((v as i32) as int == if v < 0x8000_0000 {
                v as int
            } else {
                v - 0x1_0000_0000
            }) by (bit_vector);
        }
        Ok(v as i32)
    }

    pub fn deserialize_i64(&mut self) -> (r: Result<i64, DeError>)
        ensures
            match spec_read_le(old(self).bytes@, 8) {
                Ok(d) => (r matches Ok(v) && v == from_twos(d as int, 8)),
                Err(e) => r == Err::<i64, DeError>(e),
            },
            final(self).bytes@ == spec_rest_after(old(self).bytes@, 8),
    {
        let v = self.deserialize_u64()?;
        proof {
            lemma_byte_range_values();
            assert((v as i64) as int == if v < 0x8000_0000_0000_0000 {
                v as int
            } else {
                v - 0x1_0000_0000_0000_0000
            }) by (bit_vector);
        }
        Ok(v as i64)
    }

    pub fn deserialize_u8(&mut self) -> (r: Result<u8, DeError>)
        ensures
            match spec_read_le(old(self).bytes@, 1) {
                Ok(d) => (r matches Ok(v) && v == d),
                Err(e) => r == Err::<u8, DeError>(e),
            },
            old(self).bytes@.len() > 0 ==> r == Ok::<u8, DeError>(old(self).bytes@[0]),
            final(self).bytes@ == spec_rest_after(old(self).bytes@, 1),
    {
        if self.bytes.len() == 0 {
            return Err(DeError::Eof);
        }
        let b = self.bytes[0];
        self.bytes = &self.bytes[1..self.bytes.len()];
        proof {
            reveal_with_fuel(le_decode, 2);
            assert(old(self).bytes@.take(1).drop_first() =~= Seq::<u8>::empty());
        }
        Ok(b)
    }

    pub fn deserialize_u16(&mut self) -> (r: Result<u16, DeError>)
        ensures
            match spec_read_le(old(self).bytes@, 2) {
                Ok(d) => (r matches Ok(v) && v == d),
                Err(e) => r == Err::<u16, DeError>(e),
            },
            final(self).bytes@ == spec_rest_after(old(self).bytes@, 2),
    {
        let ghost s = self.bytes@;
        let lo = self.deserialize_u8()?;
        let hi = match self.deserialize_u8() {
            Ok(hi) => hi,
            Err(e) => {
                assert(self.bytes@ =~= Seq::<u8>::empty());
                return Err(e);
            },
        };
        proof {
            reveal_with_fuel(le_decode, 3);
            assert(s.take(2).drop_first().drop_first() =~= Seq::<u8>::empty());
            assert(s.take(2).drop_first()[0] == hi);
            assert(((hi as u16) << 8 | lo as u16) as int == lo + 256 * hi) by (bit_vector);
            assert(self.bytes@ =~= s.skip(2));
        }
        Ok(((hi as u16) << 8) | (lo as u16))
    }

    pub fn deserialize_u32(&mut self) -> (r: Result<u32, DeError>)
        ensures
            match spec_read_le(old(self).bytes@, 4) {
                Ok(d) => (r matches Ok(v) && v == d),
                Err(e) => r == Err::<u32, DeError>(e),
            },
            final(self).bytes@ == spec_rest_after(old(self).bytes@, 4),
    {
        let ghost s = self.bytes@;
        let lo = self.deserialize_u16()?;
        let hi = match self.deserialize_u16() {
            Ok(hi) => hi,
            Err(e) => {
                return Err(e);
            },
        };
        proof {
            lemma_byte_range_values();
            lemma_read_split(s, 2, 2);
            assert(s.skip(2).skip(2) =~= s.skip(4));
            assert(((hi as u32) << 16 | lo as u32) as int == lo + 65536 * hi) by (bit_vector);
        }
        Ok(((hi as u32) << 16) | (lo as u32))
    }

    pub fn deserialize_u64(&mut self) -> (r: Result<u64, DeError>)
        ensures
            match spec_read_le(old(self).bytes@, 8) {
                Ok(d) => (r matches Ok(v) && v == d),
                Err(e) => r == Err::<u64, DeError>(e),
            },
            final(self).bytes@ == spec_rest_after(old(self).bytes@, 8),
    {
        let ghost s = self.bytes@;
        let lo = self.deserialize_u32()?;
        let hi = match self.deserialize_u32() {
            Ok(hi) => hi,
            Err(e) => {
                return Err(e);
            },
        };
        proof {
            lemma_byte_range_values();
            lemma_read_split(s, 4, 4);
            assert(s.skip(4).skip(4) =~= s.skip(8));
            assert(((hi as u64) << 32 | lo as u64) as int == lo + 0x1_0000_0000 * hi)
                by (bit_vector);
        }
        Ok(((hi as u64) << 32) | (lo as u64))
    }

    pub fn deserialize_unit(&mut self) -> (r: Result<(), DeError>)
        ensures
            r is Ok,
            final(self).bytes@ == old(self).bytes@,
    {
        Ok(())
    }

    /// Reads the next `len` bytes as they are.
    pub fn deserialize_bytes(&mut self, len: usize) -> (r: Result<&'de [u8], DeError>)
        ensures
            old(self).bytes@.len() < len ==> r == Err::<&'de [u8], DeError>(DeError::Eof)
                && final(self).bytes@ == old(self).bytes@,
            old(self).bytes@.len() >= len ==> (r matches Ok(b) && b@ == old(self).bytes@.take(
                len as int,
            ) && final(self).bytes@ == old(self).bytes@.skip(len as int)),
    {
        if self.bytes.len() < len {
            return Err(DeError::Eof);
        }
        let slice = &self.bytes[0..len];
        self.bytes = &self.bytes[len..self.bytes.len()];
        Ok(slice)
    }

    /// Reads the next `len` bytes as UTF-8 text.
    pub fn deserialize_str(&mut self, len: usize) -> (r: Result<&'de str, DeError>)
        ensures
            old(self).bytes@.len() < len ==> r == Err::<&'de str, DeError>(DeError::Eof)
                && final(self).bytes@ == old(self).bytes@,
            old(self).bytes@.len() >= len ==> {
                let b = old(self).bytes@.take(len as int);
                &&& final(self).bytes@ == old(self).bytes@.skip(len as int)
                &&& valid_utf8(b) ==> (r matches Ok(s) && s@ == decode_utf8(b))
                &&& !valid_utf8(b) ==> r matches Err(DeError::Utf8Error(_))
            },
    {
        let bytes = self.deserialize_bytes(len)?;
        match str_from_utf8(bytes) {
            Ok(val) => Ok(val),
            Err(e) => Err(DeError::Utf8Error(e)),
        }
    }
}

} // verus!
