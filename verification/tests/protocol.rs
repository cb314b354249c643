use airmash_server::protocol::datatypes::flags::FlagCode;
use airmash_server::protocol::datatypes::keycode::KeyCode;
use airmash_server::protocol::datatypes::level_ty::PlayerLevelType;
use airmash_server::protocol::datatypes::serverkeystate::ServerKeyState;
use airmash_server::protocol::datatypes::status::PlayerStatus;
use airmash_server::protocol::datatypes::upgrades::Upgrades;
use airmash_server::protocol::de::{from_bytes, Deserializer};
use airmash_server::protocol::error::DeError;
use airmash_server::protocol::ser::{to_bytes, Serializer};

#[test]
fn integers_are_little_endian() {
    assert_eq!(to_bytes(&0x1234u16).unwrap(), vec![0x34, 0x12]);
    assert_eq!(to_bytes(&0x12345678u32).unwrap(), vec![0x78, 0x56, 0x34, 0x12]);
    assert_eq!(
        to_bytes(&0x0102030405060708u64).unwrap(),
        vec![8, 7, 6, 5, 4, 3, 2, 1]
    );
    assert_eq!(to_bytes(&0xABu8).unwrap(), vec![0xAB]);
}

#[test]
fn signed_integers_are_twos_complement() {
    assert_eq!(to_bytes(&-1i8).unwrap(), vec![0xFF]);
    assert_eq!(to_bytes(&-2i16).unwrap(), vec![0xFE, 0xFF]);
    assert_eq!(to_bytes(&-1i32).unwrap(), vec![0xFF; 4]);
    assert_eq!(to_bytes(&i64::MIN).unwrap(), vec![0, 0, 0, 0, 0, 0, 0, 0x80]);
    assert_eq!(from_bytes::<i16>(&[0xFE, 0xFF]).unwrap(), -2);
    assert_eq!(from_bytes::<i8>(&[0x80]).unwrap(), -128);
    assert_eq!(from_bytes::<i32>(&[0xFF, 0xFF, 0xFF, 0x7F]).unwrap(), i32::MAX);
    assert_eq!(from_bytes::<i64>(&[0xFF; 8]).unwrap(), -1);
}

#[test]
fn integers_round_trip() {
    for v in [0u16, 1, 255, 256, 0x7FFF, 0x8000, u16::MAX] {
        assert_eq!(from_bytes::<u16>(&to_bytes(&v).unwrap()).unwrap(), v);
    }
    for v in [0u32, 1, 0xDEADBEEF, u32::MAX] {
        assert_eq!(from_bytes::<u32>(&to_bytes(&v).unwrap()).unwrap(), v);
    }
    for v in [0u64, 1, 0x0123456789ABCDEF, u64::MAX] {
        assert_eq!(from_bytes::<u64>(&to_bytes(&v).unwrap()).unwrap(), v);
    }
    for v in [i16::MIN, -1, 0, 1, i16::MAX] {
        assert_eq!(from_bytes::<i16>(&to_bytes(&v).unwrap()).unwrap(), v);
    }
    for v in [i32::MIN, -77, 0, 77, i32::MAX] {
        assert_eq!(from_bytes::<i32>(&to_bytes(&v).unwrap()).unwrap(), v);
    }
    for v in [i64::MIN, -5, 0, 5, i64::MAX] {
        assert_eq!(from_bytes::<i64>(&to_bytes(&v).unwrap()).unwrap(), v);
    }
}

#[test]
fn short_input_is_eof() {
    assert!(matches!(from_bytes::<u16>(&[1]), Err(DeError::Eof)));
    assert!(matches!(from_bytes::<u32>(&[1, 2, 3]), Err(DeError::Eof)));
    assert!(matches!(from_bytes::<u8>(&[]), Err(DeError::Eof)));
    assert!(matches!(from_bytes::<bool>(&[]), Err(DeError::Eof)));
}

#[test]
fn leftover_bytes_are_an_error() {
    assert!(matches!(from_bytes::<u8>(&[1, 2]), Err(DeError::TrailingBytes)));
    assert!(matches!(from_bytes::<u16>(&[1, 2, 3]), Err(DeError::TrailingBytes)));
}

#[test]
fn partial_reads_consume_what_they_find() {
    let bytes = [1u8, 2, 3];
    let mut de = Deserializer::from_bytes(&bytes);
    assert!(matches!(de.deserialize_u32(), Err(DeError::Eof)));
    assert_eq!(de.bytes.len(), 0);

    let mut de = Deserializer::from_bytes(&bytes);
    assert_eq!(de.deserialize_u16().unwrap(), 0x0201);
    assert_eq!(de.bytes, &[3]);
    assert_eq!(de.deserialize_u8().unwrap(), 3);
    assert_eq!(de.deserialize_unit().unwrap(), ());
}

#[test]
fn bytes_and_text() {
    let bytes = [b'h', b'i', 0xFF, 9];
    let mut de = Deserializer::from_bytes(&bytes);
    assert!(matches!(de.deserialize_bytes(5), Err(DeError::Eof)));
    assert_eq!(de.bytes.len(), 4);
    assert_eq!(de.deserialize_str(2).unwrap(), "hi");
    assert!(matches!(de.deserialize_str(1), Err(DeError::Utf8Error(_))));
    assert_eq!(de.deserialize_bytes(1).unwrap(), &[9]);
}

#[test]
fn serializer_methods_append() {
    let mut ser = Serializer { output: vec![7] };
    ser.serialize_bool(true).unwrap();
    ser.serialize_bool(false).unwrap();
    ser.serialize_bytes(&[1, 2, 3]).unwrap();
    ser.serialize_unit().unwrap();
    ser.serialize_i16(-1).unwrap();
    ser.serialize_i32(2).unwrap();
    ser.serialize_i64(-2).unwrap();
    ser.serialize_i8(3).unwrap();
    assert_eq!(
        ser.output,
        vec![7, 1, 0, 1, 2, 3, 0xFF, 0xFF, 2, 0, 0, 0, 0xFE, 0xFF, 0xFF, 0xFF, 0xFF, 0xFF, 0xFF, 0xFF, 3]
    );
}

#[test]
fn bool_reads_nonzero_as_true() {
    assert_eq!(from_bytes::<bool>(&[0]).unwrap(), false);
    assert_eq!(from_bytes::<bool>(&[1]).unwrap(), true);
    assert_eq!(from_bytes::<bool>(&[42]).unwrap(), true);
    assert_eq!(to_bytes(&true).unwrap(), vec![1]);
}

#[test]
fn keycodes() {
    assert_eq!(KeyCode::from_u8(1), Some(KeyCode::Up));
    assert_eq!(KeyCode::from_u8(6), Some(KeyCode::Special));
    assert_eq!(KeyCode::from_u8(0), None);
    assert_eq!(KeyCode::from_u8(7), None);
    assert_eq!(KeyCode::Fire.to_u8(), 5);
    for k in [KeyCode::Up, KeyCode::Down, KeyCode::Left, KeyCode::Right, KeyCode::Fire, KeyCode::Special] {
        assert_eq!(KeyCode::from_u8(k.to_u8()), Some(k));
        assert_eq!(from_bytes::<KeyCode>(&to_bytes(&k).unwrap()).unwrap(), k);
    }
    assert!(matches!(from_bytes::<KeyCode>(&[9]), Err(DeError::InvalidKeyCode(9))));
}

#[test]
fn player_status() {
    assert_eq!(PlayerStatus::Alive.to_u8(), 0);
    assert_eq!(PlayerStatus::Dead.to_u8(), 1);
    assert_eq!(PlayerStatus::from_u8(1), Some(PlayerStatus::Dead));
    assert_eq!(PlayerStatus::from_u8(2), None);
    assert_eq!(PlayerStatus::from_alive(true), PlayerStatus::Alive);
    assert!(matches!(from_bytes::<PlayerStatus>(&[3]), Err(DeError::InvalidPlayerStatus(3))));
    assert_eq!(from_bytes::<PlayerStatus>(&[0]).unwrap(), PlayerStatus::Alive);
}

#[test]
fn level_type() {
    assert_eq!(to_bytes(&PlayerLevelType::Login).unwrap(), vec![0]);
    assert_eq!(to_bytes(&PlayerLevelType::LevelUp).unwrap(), vec![1]);
    assert_eq!(from_bytes::<PlayerLevelType>(&[1]).unwrap(), PlayerLevelType::LevelUp);
    assert!(matches!(from_bytes::<PlayerLevelType>(&[2]), Err(DeError::InvalidLevelType(2))));
}

#[test]
fn server_keystate_bits() {
    let k = ServerKeyState { up: true, boost: true, flagspeed: true, ..Default::default() };
    assert_eq!(to_bytes(&k).unwrap(), vec![0b1001_0001]);
    for b in 0..=255u8 {
        let k = from_bytes::<ServerKeyState>(&[b]).unwrap();
        assert_eq!(to_bytes(&k).unwrap(), vec![b]);
    }
    let k = from_bytes::<ServerKeyState>(&[0b0110_0100]).unwrap();
    assert!(k.left && k.strafe && k.stealth && !k.up && !k.right);
}

#[test]
fn upgrades_bits() {
    let u = Upgrades { speed: 5, shield: true, inferno: false };
    assert_eq!(to_bytes(&u).unwrap(), vec![5 | 8]);
    assert_eq!(from_bytes::<Upgrades>(&[5 | 8]).unwrap(), u);
    let u = from_bytes::<Upgrades>(&[0xFF]).unwrap();
    assert_eq!(u, Upgrades { speed: 7, shield: true, inferno: true });
    assert_eq!(to_bytes(&u).unwrap(), vec![0x1F]);
}

#[test]
fn flag_codes() {
    let un = FlagCode::from_u16(10).unwrap();
    assert_eq!(un.to_str(), "UN");
    assert_eq!(un, FlagCode::default());
    assert_eq!(un, FlagCode::united_nations());
    assert_eq!(FlagCode::from_u16(1).unwrap().to_str(), "SY");
    assert_eq!(FlagCode::from_u16(125).unwrap().to_str(), "BG");
    assert_eq!(FlagCode::from_u16(20).unwrap().to_str(), "rainbow");
    assert!(FlagCode::from_u16(0).is_none());
    assert!(FlagCode::from_u16(126).is_none());
    assert_eq!(FlagCode::from_str("US").unwrap().to_u16(), 11);
    assert_eq!(FlagCode::from_str("us").unwrap().to_u16(), 11);
    assert_eq!(FlagCode::from_str("Rainbow").unwrap().to_u16(), 20);
    assert_eq!(FlagCode::from_str("JOLLY").unwrap().to_str(), "jolly");
    assert!(FlagCode::from_str("XX").is_none());
    assert!(FlagCode::from_str("").is_none());
    for n in 1..=125u16 {
        let f = FlagCode::from_u16(n).unwrap();
        assert_eq!(f.to_u16(), n);
        assert_eq!(FlagCode::from_str(f.to_str()), Some(f));
        assert_eq!(FlagCode::from_str(&f.to_str().to_ascii_lowercase()), Some(f));
        assert_eq!(FlagCode::from_str(&f.to_str().to_ascii_uppercase()), Some(f));
    }
    assert_eq!(FlagCode::from_str("un"), Some(FlagCode::united_nations()));
    assert_eq!(FlagCode::from_str("xx"), None);
}
