//! What a read gives back of a write, for every type of the protocol.

use vstd::prelude::*;

use crate::protocol::bytes::{
    byte_range, from_twos, le_decode, le_encode, lemma_byte_range_values, lemma_decode_encode,
    lemma_encode_len, lemma_encode_shift,
};
use crate::protocol::datatypes::keycode::KeyCode;
use crate::protocol::datatypes::level_ty::PlayerLevelType;
use crate::protocol::datatypes::serverkeystate::{
    lemma_keystate_byte_bijective, ServerKeyState,
};
use crate::protocol::datatypes::status::PlayerStatus;
use crate::protocol::datatypes::upgrades::{lemma_upgrades_byte_roundtrip, Upgrades};
use crate::protocol::de::spec_from_bytes;
use crate::protocol::error::DeError;
use crate::protocol::serde_am::{Deserialize, Serialize};

verus! {

/// Reading the bytes that `v` is written as, followed by anything at all,
/// gives back `v` and uses exactly those bytes.
pub open spec fn roundtrips<'de, T: Serialize + Deserialize<'de>>(v: T) -> bool {
    forall|rest: Seq<u8>|
        #[trigger] T::spec_deserialize(v.spec_serialize() + rest) == Ok::<(T, nat), DeError>(
            (v, v.spec_serialize().len()),
        )
}

/// A value that round-trips is read back whole from exactly its own bytes:
/// `from_bytes(to_bytes(v)) == Ok(v)`.
pub proof fn lemma_from_bytes_of_to_bytes<'de, T: Serialize + Deserialize<'de>>(v: T)
    requires
        roundtrips::<T>(v),
    ensures
        spec_from_bytes::<T>(v.spec_serialize()) == Ok::<T, DeError>(v),
{
    assert(v.spec_serialize() + Seq::<u8>::empty() =~= v.spec_serialize());
    assert(T::spec_deserialize(v.spec_serialize() + Seq::<u8>::empty()) == Ok::<(T, nat), DeError>(
        (v, v.spec_serialize().len()),
    ));
}

/// The first `n` bytes of an `n`-byte encoding followed by anything are the
/// encoding, and they decode to the value modulo `256^n`.
proof fn lemma_read_encoding(v: int, n: nat, rest: Seq<u8>)
    ensures
        (le_encode(v, n) + rest).len() >= n,
        (le_encode(v, n) + rest).take(n as int) == le_encode(v, n),
        le_decode((le_encode(v, n) + rest).take(n as int)) == ((v % byte_range(n)) + byte_range(
            n,
        )) % byte_range(n),
{
    lemma_encode_len(v, n);
    assert((le_encode(v, n) + rest).take(n as int) =~= le_encode(v, n));
    let m = byte_range(n);
    crate::protocol::bytes::lemma_byte_range_pos(n);
    let w = v % m;
    vstd::arithmetic::div_mod::lemma_fundamental_div_mod(v, m);
    let q = v / m;
    assert(v == w + q * m) by (nonlinear_arith)
        requires
            v == m * q + w,
    ;
    lemma_encode_shift(w, q, n);
    lemma_decode_encode(w, n);
    vstd::arithmetic::div_mod::lemma_mod_self_0(m);
    vstd::arithmetic::div_mod::lemma_mod_twice(v, m);
    vstd::arithmetic::div_mod::lemma_add_mod_noop(w, m, m);
}

pub proof fn lemma_u8_roundtrips(v: u8)
    ensures
        roundtrips::<u8>(v),
{
    lemma_byte_range_values();
    lemma_encode_len(v as int, 1);
    assert forall|rest: Seq<u8>|
        #[trigger] u8::spec_deserialize(v.spec_serialize() + rest) == Ok::<(u8, nat), DeError>(
            (v, v.spec_serialize().len()),
        ) by {
        lemma_read_encoding(v as int, 1, rest);
    }
}

pub proof fn lemma_u16_roundtrips(v: u16)
    ensures
        roundtrips::<u16>(v),
{
    lemma_byte_range_values();
    lemma_encode_len(v as int, 2);
    assert forall|rest: Seq<u8>|
        #[trigger] u16::spec_deserialize(v.spec_serialize() + rest) == Ok::<(u16, nat), DeError>(
            (v, v.spec_serialize().len()),
        ) by {
        lemma_read_encoding(v as int, 2, rest);
    }
}

pub proof fn lemma_u32_roundtrips(v: u32)
    ensures
        roundtrips::<u32>(v),
{
    lemma_byte_range_values();
    lemma_encode_len(v as int, 4);
    assert forall|rest: Seq<u8>|
        #[trigger] u32::spec_deserialize(v.spec_serialize() + rest) == Ok::<(u32, nat), DeError>(
            (v, v.spec_serialize().len()),
        ) by {
        lemma_read_encoding(v as int, 4, rest);
    }
}

pub proof fn lemma_u64_roundtrips(v: u64)
    ensures
        roundtrips::<u64>(v),
{
    lemma_byte_range_values();
    lemma_encode_len(v as int, 8);
    assert forall|rest: Seq<u8>|
        #[trigger] u64::spec_deserialize(v.spec_serialize() + rest) == Ok::<(u64, nat), DeError>(
            (v, v.spec_serialize().len()),
        ) by {
        lemma_read_encoding(v as int, 8, rest);
    }
}

pub proof fn lemma_i8_roundtrips(v: i8)
    ensures
        roundtrips::<i8>(v),
{
    lemma_byte_range_values();
    lemma_encode_len(v as int, 1);
    assert forall|rest: Seq<u8>|
        #[trigger] i8::spec_deserialize(v.spec_serialize() + rest) == Ok::<(i8, nat), DeError>(
            (v, v.spec_serialize().len()),
        ) by {
        lemma_read_encoding(v as int, 1, rest);
        assert(from_twos(((v as int % 256) + 256) % 256, 1) == v);
    }
}

pub proof fn lemma_i16_roundtrips(v: i16)
    ensures
        roundtrips::<i16>(v),
{
    lemma_byte_range_values();
    lemma_encode_len(v as int, 2);
    assert forall|rest: Seq<u8>|
        #[trigger] i16::spec_deserialize(v.spec_serialize() + rest) == Ok::<(i16, nat), DeError>(
            (v, v.spec_serialize().len()),
        ) by {
        lemma_read_encoding(v as int, 2, rest);
        assert(from_twos(((v as int % 65536) + 65536) % 65536, 2) == v);
    }
}

pub proof fn lemma_i32_roundtrips(v: i32)
    ensures
        roundtrips::<i32>(v),
{
    lemma_byte_range_values();
    lemma_encode_len(v as int, 4);
    assert forall|rest: Seq<u8>|
        #[trigger] i32::spec_deserialize(v.spec_serialize() + rest) == Ok::<(i32, nat), DeError>(
            (v, v.spec_serialize().len()),
        ) by {
        lemma_read_encoding(v as int, 4, rest);
        assert(from_twos(((v as int % 0x1_0000_0000) + 0x1_0000_0000) % 0x1_0000_0000, 4) == v);
    }
}

pub proof fn lemma_i64_roundtrips(v: i64)
    ensures
        roundtrips::<i64>(v),
{
    lemma_byte_range_values();
    lemma_encode_len(v as int, 8);
    assert forall|rest: Seq<u8>|
        #[trigger] i64::spec_deserialize(v.spec_serialize() + rest) == Ok::<(i64, nat), DeError>(
            (v, v.spec_serialize().len()),
        ) by {
        lemma_read_encoding(v as int, 8, rest);
        assert(from_twos(
            ((v as int % 0x1_0000_0000_0000_0000) + 0x1_0000_0000_0000_0000)
                % 0x1_0000_0000_0000_0000,
            8,
        ) == v);
    }
}

pub proof fn lemma_bool_roundtrips(v: bool)
    ensures
        roundtrips::<bool>(v),
{
    assert forall|rest: Seq<u8>|
        #[trigger] bool::spec_deserialize(v.spec_serialize() + rest) == Ok::<(bool, nat), DeError>(
            (v, v.spec_serialize().len()),
        ) by {
        assert((v.spec_serialize() + rest)[0] == v.spec_serialize()[0]);
    }
}

pub proof fn lemma_keycode_roundtrips(v: KeyCode)
    ensures
        roundtrips::<KeyCode>(v),
{
    assert forall|rest: Seq<u8>|
        #[trigger] KeyCode::spec_deserialize(v.spec_serialize() + rest) == Ok::<
            (KeyCode, nat),
            DeError,
        >((v, v.spec_serialize().len())) by {
        assert((v.spec_serialize() + rest)[0] == v.spec_serialize()[0]);
    }
}

pub proof fn lemma_status_roundtrips(v: PlayerStatus)
    ensures
        roundtrips::<PlayerStatus>(v),
{
    assert forall|rest: Seq<u8>|
        #[trigger] PlayerStatus::spec_deserialize(v.spec_serialize() + rest) == Ok::<
            (PlayerStatus, nat),
            DeError,
        >((v, v.spec_serialize().len())) by {
        assert((v.spec_serialize() + rest)[0] == v.spec_serialize()[0]);
    }
}

pub proof fn lemma_level_type_roundtrips(v: PlayerLevelType)
    ensures
        roundtrips::<PlayerLevelType>(v),
{
    assert forall|rest: Seq<u8>|
        #[trigger] PlayerLevelType::spec_deserialize(v.spec_serialize() + rest) == Ok::<
            (PlayerLevelType, nat),
            DeError,
        >((v, v.spec_serialize().len())) by {
        assert((v.spec_serialize() + rest)[0] == v.spec_serialize()[0]);
    }
}

pub proof fn lemma_keystate_roundtrips(v: ServerKeyState)
    ensures
        roundtrips::<ServerKeyState>(v),
{
    lemma_keystate_byte_bijective(v, 0);
    assert forall|rest: Seq<u8>|
        #[trigger] ServerKeyState::spec_deserialize(v.spec_serialize() + rest) == Ok::<
            (ServerKeyState, nat),
            DeError,
        >((v, v.spec_serialize().len())) by {
        assert((v.spec_serialize() + rest)[0] == v.spec_serialize()[0]);
    }
}

/// Upgrades round-trip exactly when their speed fits the bitfield.
pub proof fn lemma_upgrades_roundtrips(v: Upgrades)
    requires
        v.serializable(),
    ensures
        roundtrips::<Upgrades>(v),
{
    lemma_upgrades_byte_roundtrip(v, 0);
    assert forall|rest: Seq<u8>|
        #[trigger] Upgrades::spec_deserialize(v.spec_serialize() + rest) == Ok::<
            (Upgrades, nat),
            DeError,
        >((v, v.spec_serialize().len())) by {
        assert((v.spec_serialize() + rest)[0] == v.spec_serialize()[0]);
    }
}

} // verus!
