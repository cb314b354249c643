//! The upgrade bitfield that packets carry for each player.

use vstd::prelude::*;

use crate::protocol::de::Deserializer;
use crate::protocol::error::{DeError, SerError};
use crate::protocol::ser::Serializer;
use crate::protocol::serde_am::{Deserialize, Serialize};

verus! {

/// The speed upgrade level and the shield and inferno powerups of a player.
#[derive(Debug, Copy, Clone, Eq, PartialEq, Default, Hash, Structural)]
pub struct Upgrades {
    pub speed: u8,
    pub shield: bool,
    pub inferno: bool,
}

/// The speed in the three low bits, the shield in bit 3 and the inferno in
/// bit 4.
pub open spec fn spec_upgrades_byte(u: Upgrades) -> u8 {
    (u.speed & 7) | (if u.shield { 8u8 } else { 0u8 }) | (if u.inferno { 16u8 } else { 0u8 })
}

pub open spec fn spec_upgrades_of_byte(val: u8) -> Upgrades {
    Upgrades { speed: val & 7, shield: val & 8 != 0, inferno: val & 16 != 0 }
}

/// Upgrades with a speed below 8 read back unchanged; a byte reads as the
/// upgrades whose bitfield is its five low bits.
pub proof fn lemma_upgrades_byte_roundtrip(u: Upgrades, val: u8)
    ensures
        u.speed < 8 ==> spec_upgrades_of_byte(spec_upgrades_byte(u)) == u,
        spec_upgrades_byte(spec_upgrades_of_byte(val)) == val & 0x1f,
{
    let (s, a, b) = (u.speed, u.shield, u.inferno);
    let x = spec_upgrades_byte(u);
    assert(x == (s & 7) | (if a { 8u8 } else { 0u8 }) | (if b { 16u8 } else { 0u8 }));
    assert(s < 8 ==> (x & 7 == s && (x & 8 != 0) == a && (x & 16 != 0) == b)) by (bit_vector)
        requires
            x == (s & 7) | (if a { 8u8 } else { 0u8 }) | (if b { 16u8 } else { 0u8 }),
    ;
    assert(((val & 7) & 7) | (if val & 8 != 0 { 8u8 } else { 0u8 }) | (if val & 16 != 0 {
        16u8
    } else {
        0u8
    }) == val & 0x1f) by (bit_vector);
}

impl Serialize for Upgrades {
    open spec fn spec_serialize(&self) -> Seq<u8> {
        seq![spec_upgrades_byte(*self)]
    }

    /// A speed of 8 or more does not fit the bitfield and cannot be written.
    open spec fn serializable(&self) -> bool {
        self.speed < 8
    }

    fn serialize(&self, ser: &mut Serializer) -> (r: Result<(), SerError>)
        ensures
            r is Ok,
    {
        let val: u8 = (self.speed & 7) | (if self.shield { 8u8 } else { 0u8 }) | (if self.inferno {
            16u8
        } else {
            0u8
        });
        let r = ser.serialize_u8(val);
        assert(ser.output@ =~= old(ser).output@ + self.spec_serialize());
        r
    }
}

impl<'de> Deserialize<'de> for Upgrades {
    /// The three high bits of the byte are ignored.
    open spec fn spec_deserialize(bytes: Seq<u8>) -> Result<(Upgrades, nat), DeError> {
        if bytes.len() == 0 {
            Err(DeError::Eof)
        } else {
            Ok((spec_upgrades_of_byte(bytes[0]), 1))
        }
    }

    fn deserialize(de: &mut Deserializer<'de>) -> (r: Result<Self, DeError>) {
        let val = de.deserialize_u8()?;
        Ok(Self { speed: val & 7, shield: (val & 8) != 0, inferno: (val & 16) != 0 })
    }
}

} // verus!
