//! Writing protocol values to bytes.

use vstd::prelude::*;

use crate::protocol::bytes::{byte_range, le_encode, lemma_byte_range_pos, lemma_byte_range_values, lemma_encode_shift};
use crate::protocol::error::SerError;
use crate::protocol::serde_am::Serialize;

verus! {

/// Accumulates the bytes of the values written to it.
pub struct Serializer {
    pub output: Vec<u8>,
}

/// Serializes a value to a byte vector: a value that can be written gives
/// `Ok` of exactly its bytes.
pub fn to_bytes<T: Serialize>(value: &T) -> (r: Result<Vec<u8>, SerError>)
    requires
        value.serializable(),
    ensures
        r matches Ok(bytes) && bytes@ == value.spec_serialize(),
{
    let mut serializer = Serializer { output: Vec::new() };
    value.serialize(&mut serializer)?;
    assert(serializer.output@ =~= value.spec_serialize());
    Ok(serializer.output)
}

proof fn lemma_le2(v: u16)
    ensures
        le_encode(v as int, 2) == seq![v as u8, (v >> 8) as u8],
{
    reveal_with_fuel(le_encode, 3);
    assert((v as int % 256) as u8 == v as u8) by (bit_vector);
    assert(((v as int / 256) % 256) as u8 == (v >> 8) as u8) by (bit_vector);
    assert(le_encode(v as int, 2) =~= seq![v as u8, (v >> 8) as u8]);
}

proof fn lemma_le_split(v: int, a: nat, b: nat)
    requires
        0 <= v,
    ensures
        le_encode(v, a + b) == le_encode(v % byte_range(a), a) + le_encode(v / byte_range(a), b),
    decreases a,
{
    if a == 0 {
        assert(le_encode(v, 0) =~= Seq::<u8>::empty());
        assert(v / 1 == v);
        assert(le_encode(v, b) =~= Seq::<u8>::empty() + le_encode(v, b));
    } else {
        let m = byte_range((a - 1) as nat);
        lemma_byte_range_pos((a - 1) as nat);
        lemma_le_split(v / 256, (a - 1) as nat, b);
        vstd::arithmetic::div_mod::lemma_div_denominator(v, 256, m);
        vstd::arithmetic::div_mod::lemma_mod_breakdown(v, 256, m);
        let w = v % byte_range(a);
        vstd::arithmetic::div_mod::lemma_fundamental_div_mod(v / 256, m);
        assert(w == 256 * ((v / 256) % m) + v % 256);
        vstd::arithmetic::div_mod::lemma_fundamental_div_mod_converse(
            w,
            256,
            (v / 256) % m,
            v % 256,
        );
        assert(le_encode(v, a + b) =~= seq![(v % 256) as u8] + le_encode(
            v / 256,
            ((a - 1) + b) as nat,
        ));
        assert(le_encode(w, a) =~= seq![(w % 256) as u8] + le_encode(w / 256, (a - 1) as nat));
    }
}

impl Serializer {
    pub fn serialize_i8(&mut self, v: i8) -> (r: Result<(), SerError>)
        ensures
            r is Ok,
            final(self).output@ == old(self).output@ + le_encode(v as int, 1),
    {
        proof {
            reveal_with_fuel(le_encode, 2);
            assert((v as u8) as int == v as int % 256) by (bit_vector);
            assert(le_encode(v as int, 1) =~= seq![v as u8]);
        }
        self.serialize_u8(v as u8)
    }

    pub fn serialize_i16(&mut self, v: i16) -> (r: Result<(), SerError>)
        ensures
            r is Ok,
            final(self).output@ == old(self).output@ + le_encode(v as int, 2),
    {
        proof {
            lemma_byte_range_values();
            assert((v as u16) as int == if v < 0 { v + 65536 } else { v as int }) by (bit_vector);
            if v < 0 {
                lemma_encode_shift(v as int, 1, 2);
            }
        }
        self.serialize_u16(v as u16)
    }

    pub fn serialize_i32(&mut self, v: i32) -> (r: Result<(), SerError>)
        ensures
            r is Ok,
            final(self).output@ == old(self).output@ + le_encode(v as int, 4),
    {
        proof {
            lemma_byte_range_values();
            assert((v as u32) as int == if v < 0 { v + 0x1_0000_0000 } else { v as int })
                by (bit_vector);
            if v < 0 {
                lemma_encode_shift(v as int, 1, 4);
            }
        }
        self.serialize_u32(v as u32)
    }

    pub fn serialize_i64(&mut self, v: i64) -> (r: Result<(), SerError>)
        ensures
            r is Ok,
            final(self).output@ == old(self).output@ + le_encode(v as int, 8),
    {
        proof {
            lemma_byte_range_values();
            assert((v as u64) as int == if v < 0 {
                v + 0x1_0000_0000_0000_0000
            } else {
                v as int
            }) by (bit_vector);
            if v < 0 {
                lemma_encode_shift(v as int, 1, 8);
            }
        }
        self.serialize_u64(v as u64)
    }

    pub fn serialize_u8(&mut self, v: u8) -> (r: Result<(), SerError>)
        ensures
            r is Ok,
            final(self).output@ == old(self).output@.push(v),
            final(self).output@ == old(self).output@ + le_encode(v as int, 1),
    {
        proof {
            reveal_with_fuel(le_encode, 2);
            assert(le_encode(v as int, 1) =~= seq![v]);
        }
        self.output.push(v);
        assert(self.output@ =~= old(self).output@ + le_encode(v as int, 1));
        Ok(())
    }

    pub fn serialize_u16(&mut self, v: u16) -> (r: Result<(), SerError>)
        ensures
            r is Ok,
            final(self).output@ == old(self).output@ + le_encode(v as int, 2),
    {
        proof {
            lemma_le2(v);
        }
        let _ = self.serialize_u8(v as u8);
        let _ = self.serialize_u8((v >> 8) as u8);
        assert(self.output@ =~= old(self).output@ + le_encode(v as int, 2));
        Ok(())
    }

    pub fn serialize_u32(&mut self, v: u32) -> (r: Result<(), SerError>)
        ensures
            r is Ok,
            final(self).output@ == old(self).output@ + le_encode(v as int, 4),
    {
        proof {
            lemma_byte_range_values();
            lemma_le_split(v as int, 2, 2);
            assert((v as u16) as int == v as int % 65536) by (bit_vector);
            assert((v >> 16) as u16 as int == v as int / 65536) by (bit_vector);
        }
        let _ = self.serialize_u16(v as u16);
        let _ = self.serialize_u16((v >> 16) as u16);
        assert(self.output@ =~= old(self).output@ + le_encode(v as int, 4));
        Ok(())
    }

    pub fn serialize_u64(&mut self, v: u64) -> (r: Result<(), SerError>)
        ensures
            r is Ok,
            final(self).output@ == old(self).output@ + le_encode(v as int, 8),
    {
        proof {
            lemma_byte_range_values();
            lemma_le_split(v as int, 4, 4);
            assert((v as u32) as int == v as int % 0x1_0000_0000) by (bit_vector);
            assert((v >> 32) as u32 as int == v as int / 0x1_0000_0000) by (bit_vector);
        }
        let _ = self.serialize_u32(v as u32);
        let _ = self.serialize_u32((v >> 32) as u32);
        assert(self.output@ =~= old(self).output@ + le_encode(v as int, 8));
        Ok(())
    }

    pub fn serialize_unit(&mut self) -> (r: Result<(), SerError>)
        ensures
            r is Ok,
            final(self).output@ == old(self).output@,
    {
        Ok(())
    }

    /// Appends the bytes of `v` as they are. The length must have been
    /// written separately beforehand.
    pub fn serialize_bytes(&mut self, v: &[u8]) -> (r: Result<(), SerError>)
        ensures
            r is Ok,
            final(self).output@ == old(self).output@ + v@,
    {
        self.output.extend_from_slice(v);
        assert(self.output@ =~= old(self).output@ + v@);
        Ok(())
    }

    /// Writes `true` as the byte 1 and `false` as the byte 0.
    pub fn serialize_bool(&mut self, v: bool) -> (r: Result<(), SerError>)
        ensures
            r is Ok,
            final(self).output@ == old(self).output@.push(if v { 1u8 } else { 0u8 }),
    {
        self.serialize_u8(if v { 1 } else { 0 })
    }
}

} // verus!
