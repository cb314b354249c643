//! Why a player's level is announced.

use vstd::prelude::*;

use crate::protocol::de::Deserializer;
use crate::protocol::error::{DeError, SerError};
use crate::protocol::ser::Serializer;
use crate::protocol::serde_am::{Deserialize, Serialize};

verus! {

#[derive(Debug, Copy, Clone, PartialEq, Eq, Hash, Structural)]
pub enum PlayerLevelType {
    Login,
    LevelUp,
}

impl Serialize for PlayerLevelType {
    /// `Login` is written as 0 and `LevelUp` as 1.
    open spec fn spec_serialize(&self) -> Seq<u8> {
        seq![
            match *self {
                PlayerLevelType::Login => 0u8,
                PlayerLevelType::LevelUp => 1u8,
            },
        ]
    }

    open spec fn serializable(&self) -> bool {
        true
    }

    fn serialize(&self, ser: &mut Serializer) -> (r: Result<(), SerError>)
        ensures
            r is Ok,
    {
        let val = match self {
            PlayerLevelType::Login => 0,
            PlayerLevelType::LevelUp => 1,
        };
        let r = ser.serialize_u8(val);
        assert(ser.output@ =~= old(ser).output@ + self.spec_serialize());
        r
    }
}

impl<'de> Deserialize<'de> for PlayerLevelType {
    /// A byte other than 0 or 1 is refused with `InvalidLevelType`.
    open spec fn spec_deserialize(bytes: Seq<u8>) -> Result<(PlayerLevelType, nat), DeError> {
        if bytes.len() == 0 {
            Err(DeError::Eof)
        } else if bytes[0] == 0 {
            Ok((PlayerLevelType::Login, 1))
        } else if bytes[0] == 1 {
            Ok((PlayerLevelType::LevelUp, 1))
        } else {
            Err(DeError::InvalidLevelType(bytes[0]))
        }
    }

    fn deserialize(de: &mut Deserializer<'de>) -> (r: Result<PlayerLevelType, DeError>) {
        let val = de.deserialize_u8()?;
        match val {
            0 => Ok(PlayerLevelType::Login),
            1 => Ok(PlayerLevelType::LevelUp),
            _ => Err(DeError::InvalidLevelType(val)),
        }
    }
}

} // verus!
