use bifrost::wire::{put_u16_be, put_u16_le, put_u32_le};
use bifrost::{
    best_guess_timezone, bridge_id, bridge_id_raw, timezone_or_unknown,
    HUE_BRIDGE_V2_DEFAULT_APIVERSION, HUE_BRIDGE_V2_DEFAULT_SWVERSION, HUE_BRIDGE_V2_MODEL_ID,
    UNKNOWN_TIMEZONE,
};
use mac_address::MacAddress;

#[test]
fn bridge_id_from_mac() {
    let mac = MacAddress::new([0x00, 0x17, 0x88, 0xAA, 0xBB, 0xCC]);
    assert_eq!(bridge_id_raw(mac.bytes()), [0x00, 0x17, 0x88, 0xFF, 0xFE, 0xAA, 0xBB, 0xCC]);
    assert_eq!(bridge_id(mac.bytes()), "001788fffeaabbcc");
}

#[test]
fn bridge_id_is_lowercase_hex() {
    assert_eq!(bridge_id([0xDE, 0xAD, 0xBE, 0xEF, 0x01, 0x0A]), "deadbefffeef010a");
    assert_eq!(bridge_id([0; 6]), "000000fffe000000");
}

#[test]
fn bridge_constants() {
    assert_eq!(HUE_BRIDGE_V2_MODEL_ID, "BSB002");
    assert_eq!(HUE_BRIDGE_V2_DEFAULT_SWVERSION, 1_968_096_020);
    assert_eq!(HUE_BRIDGE_V2_DEFAULT_APIVERSION, "1.68.0");
}

#[test]
fn timezone_guess_is_not_empty() {
    assert!(!best_guess_timezone().is_empty());
}

#[test]
fn wire_integers() {
    let mut out = vec![0xEE];
    put_u16_le(&mut out, 0xABCD);
    put_u16_be(&mut out, 0xABCD);
    put_u32_le(&mut out, 0x01020304);
    assert_eq!(out, vec![0xEE, 0xCD, 0xAB, 0xAB, 0xCD, 0x04, 0x03, 0x02, 0x01]);
}

#[test]
fn timezone_falls_back_to_none() {
    assert_eq!(timezone_or_unknown(Some("Europe/Oslo".to_string())), "Europe/Oslo");
    assert_eq!(timezone_or_unknown(Some(String::new())), "");
    assert_eq!(timezone_or_unknown(None), "none");
    assert_eq!(UNKNOWN_TIMEZONE, "none");
}
