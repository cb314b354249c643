//! The serialization traits of the protocol.
//!
//! Each type states, as a specification function, the exact bytes it is
//! written as and how a byte sequence is read back into it.

use vstd::prelude::*;

use crate::protocol::de::Deserializer;
use crate::protocol::error::{DeError, SerError};
use crate::protocol::ser::Serializer;

verus! {

/// A value that can be written to a [`Serializer`].
pub trait Serialize {
    /// The bytes that this value is written as.
    spec fn spec_serialize(&self) -> Seq<u8>;

    /// Whether this value can be written at all.
    spec fn serializable(&self) -> bool;

    /// Appends the encoding of this value to the output of `ser`; a value that
    /// can be written is written without error.
    fn serialize(&self, ser: &mut Serializer) -> (r: Result<(), SerError>)
        requires
            self.serializable(),
        ensures
            r is Ok,
            final(ser).output@ == old(ser).output@ + self.spec_serialize(),
    ;
}

/// A value that can be read from a [`Deserializer`].
pub trait Deserialize<'de>: Sized {
    /// Reading a value from the front of `bytes`: the value and the number of
    /// bytes it takes up, or the error that reading it reports.
    spec fn spec_deserialize(bytes: Seq<u8>) -> Result<(Self, nat), DeError>;

    /// Reads a value from the front of the remaining input of `de`.
    fn deserialize(de: &mut Deserializer<'de>) -> (r: Result<Self, DeError>)
        ensures
            match Self::spec_deserialize(old(de).bytes@) {
                Ok((v, n)) => {
                    &&& r == Ok::<Self, DeError>(v)
                    &&& n <= old(de).bytes@.len()
                    &&& final(de).bytes@ == old(de).bytes@.skip(n as int)
                },
                Err(e) => r == Err::<Self, DeError>(e),
            },
    ;
}

} // verus!
