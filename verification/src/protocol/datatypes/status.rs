//! Whether a player is alive.

use vstd::prelude::*;

use crate::protocol::de::Deserializer;
use crate::protocol::error::{DeError, SerError};
use crate::protocol::ser::Serializer;
use crate::protocol::serde_am::{Deserialize, Serialize};

verus! {

#[derive(Copy, Clone, Debug, Eq, PartialEq, Hash, Structural)]
pub enum PlayerStatus {
    Alive,
    Dead,
}

pub open spec fn spec_status_number(s: PlayerStatus) -> u8 {
    match s {
        PlayerStatus::Alive => 0,
        PlayerStatus::Dead => 1,
    }
}

pub open spec fn spec_status_of_number(v: u8) -> Option<PlayerStatus> {
    match v {
        0 => Some(PlayerStatus::Alive),
        1 => Some(PlayerStatus::Dead),
        _ => None,
    }
}

impl PlayerStatus {
    pub fn to_u8(&self) -> (r: u8)
        ensures
            r == spec_status_number(*self),
    {
        match *self {
            PlayerStatus::Alive => 0,
            PlayerStatus::Dead => 1,
        }
    }

    pub fn from_u8(v: u8) -> (r: Option<Self>)
        ensures
            r == spec_status_of_number(v),
    {
        match v {
            0 => Some(PlayerStatus::Alive),
            1 => Some(PlayerStatus::Dead),
            _ => None,
        }
    }

    /// The status of a player that is alive or not.
    pub fn from_alive(alive: bool) -> (r: Self)
        ensures
            r == (if alive { PlayerStatus::Alive } else { PlayerStatus::Dead }),
    {
        if alive {
            PlayerStatus::Alive
        } else {
            PlayerStatus::Dead
        }
    }
}

/// Each status's number reads back as that status, and the only numbers that
/// read as a status are the two status numbers.
pub proof fn lemma_status_number_inverse(s: PlayerStatus, v: u8)
    ensures
        spec_status_of_number(spec_status_number(s)) == Some(s),
        spec_status_of_number(v) == Some(s) ==> spec_status_number(s) == v,
{
}

impl Serialize for PlayerStatus {
    open spec fn spec_serialize(&self) -> Seq<u8> {
        seq![spec_status_number(*self)]
    }

    open spec fn serializable(&self) -> bool {
        true
    }

    fn serialize(&self, ser: &mut Serializer) -> (r: Result<(), SerError>)
        ensures
            r is Ok,
    {
        let r = ser.serialize_u8(self.to_u8());
        assert(ser.output@ =~= old(ser).output@ + self.spec_serialize());
        r
    }
}

impl<'de> Deserialize<'de> for PlayerStatus {
    /// A byte other than 0 or 1 is refused with `InvalidPlayerStatus`.
    open spec fn spec_deserialize(bytes: Seq<u8>) -> Result<(PlayerStatus, nat), DeError> {
        if bytes.len() == 0 {
            Err(DeError::Eof)
        } else {
            match spec_status_of_number(bytes[0]) {
                Some(s) => Ok((s, 1)),
                None => Err(DeError::InvalidPlayerStatus(bytes[0])),
            }
        }
    }

    fn deserialize(de: &mut Deserializer<'de>) -> (r: Result<PlayerStatus, DeError>) {
        let ival = de.deserialize_u8()?;
        match Self::from_u8(ival) {
            Some(v) => Ok(v),
            None => Err(DeError::InvalidPlayerStatus(ival)),
        }
    }
}

} // verus!
