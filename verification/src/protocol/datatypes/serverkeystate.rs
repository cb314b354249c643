//! The key state bitfield of the `PlayerUpdate` packet.

use vstd::prelude::*;

use crate::protocol::de::Deserializer;
use crate::protocol::error::{DeError, SerError};
use crate::protocol::ser::Serializer;
use crate::protocol::serde_am::{Deserialize, Serialize};

verus! {

/// Key state bitfield for the `PlayerUpdate` packet.
#[derive(Debug, Copy, Clone, Eq, PartialEq, Default, Hash, Structural)]
pub struct ServerKeyState {
    pub up: bool,
    pub down: bool,
    pub left: bool,
    pub right: bool,
    pub boost: bool,
    pub strafe: bool,
    pub stealth: bool,
    pub flagspeed: bool,
}

/// One bit per field: `up` is bit 0, then `down`, `left`, `right`, `boost`,
/// `strafe`, `stealth`, and `flagspeed` is bit 7.
pub open spec fn spec_keystate_byte(k: ServerKeyState) -> u8 {
    (if k.up { 1u8 } else { 0u8 }) | (if k.down { 2u8 } else { 0u8 }) | (if k.left {
        4u8
    } else {
        0u8
    }) | (if k.right { 8u8 } else { 0u8 }) | (if k.boost { 16u8 } else { 0u8 }) | (if k.strafe {
        32u8
    } else {
        0u8
    }) | (if k.stealth { 64u8 } else { 0u8 }) | (if k.flagspeed { 128u8 } else { 0u8 })
}

/// The key state whose fields are the bits of `val`.
pub open spec fn spec_keystate_of_byte(val: u8) -> ServerKeyState {
    ServerKeyState {
        up: val & 1 != 0,
        down: val & 2 != 0,
        left: val & 4 != 0,
        right: val & 8 != 0,
        boost: val & 16 != 0,
        strafe: val & 32 != 0,
        stealth: val & 64 != 0,
        flagspeed: val & 128 != 0,
    }
}

/// The bitfield is a bijection between key states and bytes: a key state
/// reads back unchanged, and every byte is the bitfield of the key state that
/// it reads as.
pub proof fn lemma_keystate_byte_bijective(k: ServerKeyState, val: u8)
    ensures
        spec_keystate_of_byte(spec_keystate_byte(k)) == k,
        spec_keystate_byte(spec_keystate_of_byte(val)) == val,
{
    let (a, b, c, d, e, f, g, h) = (
        k.up,
        k.down,
        k.left,
        k.right,
        k.boost,
        k.strafe,
        k.stealth,
        k.flagspeed,
    );
    let x = spec_keystate_byte(k);
    assert(x == (if a { 1u8 } else { 0u8 }) | (if b { 2u8 } else { 0u8 }) | (if c {
        4u8
    } else {
        0u8
    }) | (if d { 8u8 } else { 0u8 }) | (if e { 16u8 } else { 0u8 }) | (if f {
        32u8
    } else {
        0u8
    }) | (if g { 64u8 } else { 0u8 }) | (if h { 128u8 } else { 0u8 }));
    assert({
        &&& (x & 1 != 0) == a
        &&& (x & 2 != 0) == b
        &&& (x & 4 != 0) == c
        &&& (x & 8 != 0) == d
        &&& (x & 16 != 0) == e
        &&& (x & 32 != 0) == f
        &&& (x & 64 != 0) == g
        &&& (x & 128 != 0) == h
    }) by (bit_vector)
        requires
            x == (if a { 1u8 } else { 0u8 }) | (if b { 2u8 } else { 0u8 }) | (if c {
                4u8
            } else {
                0u8
            }) | (if d { 8u8 } else { 0u8 }) | (if e { 16u8 } else { 0u8 }) | (if f {
                32u8
            } else {
                0u8
            }) | (if g { 64u8 } else { 0u8 }) | (if h { 128u8 } else { 0u8 }),
    ;
    assert(((if val & 1 != 0 { 1u8 } else { 0u8 }) | (if val & 2 != 0 { 2u8 } else { 0u8 }) | (
    if val & 4 != 0 {
        4u8
    } else {
        0u8
    }) | (if val & 8 != 0 { 8u8 } else { 0u8 }) | (if val & 16 != 0 { 16u8 } else { 0u8 }) | (
    if val & 32 != 0 {
        32u8
    } else {
        0u8
    }) | (if val & 64 != 0 { 64u8 } else { 0u8 }) | (if val & 128 != 0 {
        128u8
    } else {
        0u8
    })) == val) by (bit_vector);
}

/// Each key has its own fixed bit in the byte sent for a key state: `up` is
/// 1, `down` 2, `left` 4, `right` 8, `boost` 16, `strafe` 32, `stealth` 64
/// and `flagspeed` 128. A key state is written as the one byte that has
/// exactly the bits of its held keys, and a byte is read as the key state
/// that holds exactly the keys of its set bits.
pub proof fn lemma_keystate_bits(k: ServerKeyState, val: u8)
    ensures
        k.spec_serialize().len() == 1,
        (k.spec_serialize()[0] & 1 != 0) == k.up,
        (k.spec_serialize()[0] & 2 != 0) == k.down,
        (k.spec_serialize()[0] & 4 != 0) == k.left,
        (k.spec_serialize()[0] & 8 != 0) == k.right,
        (k.spec_serialize()[0] & 16 != 0) == k.boost,
        (k.spec_serialize()[0] & 32 != 0) == k.strafe,
        (k.spec_serialize()[0] & 64 != 0) == k.stealth,
        (k.spec_serialize()[0] & 128 != 0) == k.flagspeed,
        ServerKeyState::spec_deserialize(seq![val]) matches Ok((d, n)) && n == 1 && d.up == (val
            & 1 != 0) && d.down == (val & 2 != 0) && d.left == (val & 4 != 0) && d.right == (val
            & 8 != 0) && d.boost == (val & 16 != 0) && d.strafe == (val & 32 != 0) && d.stealth
            == (val & 64 != 0) && d.flagspeed == (val & 128 != 0),
{
    lemma_keystate_byte_bijective(k, val);
    let d = spec_keystate_of_byte(spec_keystate_byte(k));
    assert(d == k);
    assert(k.spec_serialize()[0] == spec_keystate_byte(k));
}

impl Serialize for ServerKeyState {
    open spec fn spec_serialize(&self) -> Seq<u8> {
        seq![spec_keystate_byte(*self)]
    }

    open spec fn serializable(&self) -> bool {
        true
    }

    fn serialize(&self, ser: &mut Serializer) -> (r: Result<(), SerError>)
        ensures
            r is Ok,
    {
        let val: u8 = (if self.up { 1u8 } else { 0u8 }) | (if self.down { 2u8 } else { 0u8 }) | (
        if self.left {
            4u8
        } else {
            0u8
        }) | (if self.right { 8u8 } else { 0u8 }) | (if self.boost { 16u8 } else { 0u8 }) | (
        if self.strafe {
            32u8
        } else {
            0u8
        }) | (if self.stealth { 64u8 } else { 0u8 }) | (if self.flagspeed {
            128u8
        } else {
            0u8
        });
        let r = ser.serialize_u8(val);
        assert(ser.output@ =~= old(ser).output@ + self.spec_serialize());
        r
    }
}

impl<'de> Deserialize<'de> for ServerKeyState {
    open spec fn spec_deserialize(bytes: Seq<u8>) -> Result<(ServerKeyState, nat), DeError> {
        if bytes.len() == 0 {
            Err(DeError::Eof)
        } else {
            Ok((spec_keystate_of_byte(bytes[0]), 1))
        }
    }

    fn deserialize(de: &mut Deserializer<'de>) -> (r: Result<Self, DeError>) {
        let val = de.deserialize_u8()?;
        Ok(ServerKeyState {
            up: (val & 0b00000001) != 0,
            down: (val & 0b00000010) != 0,
            left: (val & 0b00000100) != 0,
            right: (val & 0b00001000) != 0,
            boost: (val & 0b00010000) != 0,
            strafe: (val & 0b00100000) != 0,
            stealth: (val & 0b01000000) != 0,
            flagspeed: (val & 0b10000000) != 0,
        })
    }
}

} // verus!
