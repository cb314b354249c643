//! The keys that the client reports to the server.

use vstd::prelude::*;

use crate::protocol::de::Deserializer;
use crate::protocol::error::{DeError, SerError};
use crate::protocol::ser::Serializer;
use crate::protocol::serde_am::{Deserialize, Serialize};

verus! {

/// All the keys that are sent from the client to the server.
#[derive(Debug, Copy, Clone, PartialEq, Eq, Hash, Structural)]
pub enum KeyCode {
    Up,
    Down,
    Left,
    Right,
    Fire,
    Special,
}

/// The number that stands for each key on the wire.
pub open spec fn spec_key_number(k: KeyCode) -> u8 {
    match k {
        KeyCode::Up => 1,
        KeyCode::Down => 2,
        KeyCode::Left => 3,
        KeyCode::Right => 4,
        KeyCode::Fire => 5,
        KeyCode::Special => 6,
    }
}

/// The key that a number stands for, if any.
pub open spec fn spec_key_of_number(code: u8) -> Option<KeyCode> {
    match code {
        1 => Some(KeyCode::Up),
        2 => Some(KeyCode::Down),
        3 => Some(KeyCode::Left),
        4 => Some(KeyCode::Right),
        5 => Some(KeyCode::Fire),
        6 => Some(KeyCode::Special),
        _ => None,
    }
}

impl KeyCode {
    /// Get the keycode associated with the numerical value. Returns `None`
    /// otherwise.
    pub fn from_u8(code: u8) -> (r: Option<KeyCode>)
        ensures
            r == spec_key_of_number(code),
    {
        match code {
            1 => Some(KeyCode::Up),
            2 => Some(KeyCode::Down),
            3 => Some(KeyCode::Left),
            4 => Some(KeyCode::Right),
            5 => Some(KeyCode::Fire),
            6 => Some(KeyCode::Special),
            _ => None,
        }
    }

    /// Get the numerical value associated with the keycode. This value is the
    /// value that is actually sent over the network.
    pub fn to_u8(self) -> (r: u8)
        ensures
            r == spec_key_number(self),
    {
        match self {
            KeyCode::Up => 1,
            KeyCode::Down => 2,
            KeyCode::Left => 3,
            KeyCode::Right => 4,
            KeyCode::Fire => 5,
            KeyCode::Special => 6,
        }
    }
}

/// Every key's number reads back as that key, and a number that reads as a
/// key is that key's number.
pub proof fn lemma_key_number_inverse(k: KeyCode, code: u8)
    ensures
        spec_key_of_number(spec_key_number(k)) == Some(k),
        spec_key_of_number(code) == Some(k) ==> spec_key_number(k) == code,
{
}

impl Serialize for KeyCode {
    open spec fn spec_serialize(&self) -> Seq<u8> {
        seq![spec_key_number(*self)]
    }

    open spec fn serializable(&self) -> bool {
        true
    }

    fn serialize(&self, ser: &mut Serializer) -> (r: Result<(), SerError>)
        ensures
            r is Ok,
    {
        let r = ser.serialize_u8(self.to_u8());
        assert(ser.output@ =~= old(ser).output@ + self.spec_serialize());
        r
    }
}

impl<'de> Deserialize<'de> for KeyCode {
    /// A byte that stands for no key is refused with `InvalidKeyCode`.
    open spec fn spec_deserialize(bytes: Seq<u8>) -> Result<(KeyCode, nat), DeError> {
        if bytes.len() == 0 {
            Err(DeError::Eof)
        } else {
            match spec_key_of_number(bytes[0]) {
                Some(k) => Ok((k, 1)),
                None => Err(DeError::InvalidKeyCode(bytes[0])),
            }
        }
    }

    fn deserialize(de: &mut Deserializer<'de>) -> (r: Result<KeyCode, DeError>) {
        let ival = de.deserialize_u8()?;
        match KeyCode::from_u8(ival) {
            Some(code) => Ok(code),
            None => Err(DeError::InvalidKeyCode(ival)),
        }
    }
}

} // verus!
