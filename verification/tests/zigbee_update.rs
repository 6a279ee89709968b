use bifrost::error::ApiError;
use bifrost::zigbee::{
    EffectType, GradientColors, GradientParams, GradientStyle, GradientUpdateHeader,
    HueZigbeeUpdate, XY,
};

fn encode(upd: &HueZigbeeUpdate) -> Vec<u8> {
    let mut out = vec![];
    upd.serialize(&mut out).unwrap();
    out
}

fn quantise(v: f64, scale: f64) -> u16 {
    (v * scale) as u16
}

#[test]
fn zigbee_round_trip_on_brightness_xy() {
    let xy = XY::new(quantise(0.5, 65535.0), quantise(0.5, 65535.0));
    let upd = HueZigbeeUpdate::new().with_on_off(true).with_brightness(0x80).with_color_xy(xy);
    let bytes = encode(&upd);
    assert_eq!(bytes, vec![0x0B, 0x00, 0x01, 0x80, 0xFF, 0x7F, 0xFF, 0x7F]);
    assert_eq!(upd.flags(), 0x000B);
    let back = HueZigbeeUpdate::from_reader(&bytes).unwrap();
    assert_eq!(back, upd);
    assert_eq!(back.onoff, Some(1));
    assert_eq!(back.brightness, Some(0x80));
    assert_eq!(back.color_xy, Some(XY { x: 0x7FFF, y: 0x7FFF }));
}

#[test]
fn zigbee_empty_update_is_two_zero_bytes() {
    let upd = HueZigbeeUpdate::new();
    assert_eq!(encode(&upd), vec![0x00, 0x00]);
    assert_eq!(HueZigbeeUpdate::from_reader(&[0x00, 0x00]).unwrap(), upd);
}

#[test]
fn zigbee_on_off_false_is_zero() {
    let upd = HueZigbeeUpdate::new().with_on_off(false);
    assert_eq!(encode(&upd), vec![0x01, 0x00, 0x00]);
}

fn with_fields(mask: u16) -> HueZigbeeUpdate {
    let mut upd = HueZigbeeUpdate::new();
    if mask & 0x001 != 0 {
        upd = upd.with_on_off(true);
    }
    if mask & 0x002 != 0 {
        upd = upd.with_brightness(0xFE);
    }
    if mask & 0x004 != 0 {
        upd = upd.with_color_mirek(0x0172);
    }
    if mask & 0x008 != 0 {
        upd = upd.with_color_xy(XY::new(0x1234, 0xFEDC));
    }
    if mask & 0x010 != 0 {
        upd = upd.with_unknown0(0xBEEF);
    }
    if mask & 0x020 != 0 {
        upd = upd.with_effect_type(EffectType::Sparkle);
    }
    if mask & 0x040 != 0 {
        upd = upd.with_gradient_transform(GradientParams { scale: 0x38, offset: 0x07 });
    }
    if mask & 0x080 != 0 {
        upd = upd.with_effect_speed(0x7F);
    }
    if mask & 0x100 != 0 {
        upd = upd.with_gradient_colors(GradientColors {
            header: GradientUpdateHeader { nlights: 3, resv0: 5, resv1: 0xA0, resv2: 0x0102 },
            points: vec![XY::new(0, 0), XY::new(0xFFF, 0x001), XY::new(0xABC, 0x123)],
        });
    }
    upd
}

#[test]
fn zigbee_round_trip_every_flag_subset() {
    for mask in 0u16..512 {
        let upd = with_fields(mask);
        assert_eq!(upd.flags(), mask);
        let bytes = encode(&upd);
        assert_eq!(&bytes[..2], &mask.to_le_bytes());
        let back = HueZigbeeUpdate::from_reader(&bytes).unwrap();
        assert_eq!(back, upd);
    }
}

#[test]
fn zigbee_trailing_bytes_are_ignored() {
    let upd = with_fields(0x1FF);
    let mut bytes = encode(&upd);
    bytes.extend_from_slice(&[0xAA, 0xBB]);
    assert_eq!(HueZigbeeUpdate::from_reader(&bytes).unwrap(), upd);
}

#[test]
fn zigbee_wire_order_of_all_fields() {
    let bytes = encode(&with_fields(0x1FF));
    let expected: Vec<u8> = vec![
        0xFF, 0x01, // flags
        0x01, // on/off
        0xFE, // brightness
        0x72, 0x01, // mirek
        0x34, 0x12, 0xDC, 0xFE, // xy
        0xEF, 0xBE, // unknown
        0x0A, // effect type
        13, 0x35, 0xA0, 0x02, 0x01, // gradient length and header
        0x00, 0x00, 0x00, // point 0
        0xFF, 0x1F, 0x00, // point 1
        0xBC, 0x3A, 0x12, // point 2
        0x7F, // effect speed
        0x38, 0x07, // gradient scale and offset
    ];
    assert_eq!(bytes, expected);
}

#[test]
fn zigbee_reserved_flags_are_refused() {
    for bit in 9..16 {
        let word: u16 = 1 << bit;
        let bytes = word.to_le_bytes();
        assert_eq!(
            HueZigbeeUpdate::from_reader(&bytes).unwrap_err(),
            ApiError::HueZigbeeUnknownFlags(word)
        );
    }
    // the known bits are not reported, and nothing after the flag word is read
    assert_eq!(
        HueZigbeeUpdate::from_reader(&[0x01, 0x82]).unwrap_err(),
        ApiError::HueZigbeeUnknownFlags(0x8200)
    );
    assert_eq!(
        HueZigbeeUpdate::from_reader(&[0xFF, 0xFF, 1, 2, 3]).unwrap_err(),
        ApiError::HueZigbeeUnknownFlags(0xFE00)
    );
}

#[test]
fn zigbee_unknown_effect_is_refused() {
    for byte in [0x04u8, 0x05, 0x08, 0x0d, 0x12, 0x80, 0xFF] {
        assert_eq!(
            HueZigbeeUpdate::from_reader(&[0x20, 0x00, byte]).unwrap_err(),
            ApiError::HueZigbeeDecodeError
        );
    }
    // the effect byte is found behind the fields in front of it
    assert_eq!(
        HueZigbeeUpdate::from_reader(&[0x23, 0x00, 0x01, 0x40, 0x04]).unwrap_err(),
        ApiError::HueZigbeeDecodeError
    );
}

#[test]
fn zigbee_short_input_is_refused() {
    assert_eq!(HueZigbeeUpdate::from_reader(&[]).unwrap_err(), ApiError::IoError);
    assert_eq!(HueZigbeeUpdate::from_reader(&[0x01]).unwrap_err(), ApiError::IoError);
    assert_eq!(HueZigbeeUpdate::from_reader(&[0x01, 0x00]).unwrap_err(), ApiError::IoError);
    assert_eq!(HueZigbeeUpdate::from_reader(&[0x04, 0x00, 0x01]).unwrap_err(), ApiError::IoError);
    let full = encode(&with_fields(0x1FF));
    for cut in 0..full.len() {
        assert_eq!(
            HueZigbeeUpdate::from_reader(&full[..cut]).unwrap_err(),
            ApiError::IoError
        );
    }
}

#[test]
fn zigbee_effect_type_codes() {
    let table = [
        (EffectType::NoEffect, 0x00u8),
        (EffectType::Candle, 0x01),
        (EffectType::Fireplace, 0x02),
        (EffectType::Prism, 0x03),
        (EffectType::Sunrise, 0x09),
        (EffectType::Sparkle, 0x0a),
        (EffectType::Opal, 0x0b),
        (EffectType::Glisten, 0x0c),
        (EffectType::Underwater, 0x0e),
        (EffectType::Cosmos, 0x0f),
        (EffectType::Sunbeam, 0x10),
        (EffectType::Enchant, 0x11),
    ];
    for (effect, code) in table {
        assert_eq!(effect.to_primitive(), code);
        assert_eq!(EffectType::from_primitive(code), Some(effect));
    }
    let known: Vec<u8> = table.iter().map(|(_, c)| *c).collect();
    for byte in 0..=255u8 {
        assert_eq!(EffectType::from_primitive(byte).is_some(), known.contains(&byte));
    }
}

#[test]
fn zigbee_gradient_style_codes() {
    assert_eq!(GradientStyle::Linear.to_primitive(), 0x00);
    assert_eq!(GradientStyle::Scattered.to_primitive(), 0x02);
    assert_eq!(GradientStyle::Mirrored.to_primitive(), 0x04);
    assert_eq!(GradientStyle::from_primitive(0x02), Some(GradientStyle::Scattered));
    assert_eq!(GradientStyle::from_primitive(0x01), None);
    assert_eq!(GradientStyle::from_primitive(0x03), None);
}

#[test]
fn zigbee_header_packs_nibbles() {
    let header = GradientUpdateHeader { nlights: 9, resv0: 2, resv1: 0x33, resv2: 0xBEEF };
    assert_eq!(header.pack(), [0x92, 0x33, 0xEF, 0xBE]);
    assert_eq!(GradientUpdateHeader::unpack_from_slice(&[0x92, 0x33, 0xEF, 0xBE]).unwrap(), header);
    assert_eq!(
        GradientUpdateHeader::unpack_from_slice(&[0x92, 0x33, 0xEF]).unwrap_err(),
        ApiError::HueZigbeeDecodeError
    );
    // only the low four bits of a nibble field are kept
    let wide = GradientUpdateHeader { nlights: 0x19, resv0: 0xF2, resv1: 0, resv2: 0 };
    assert_eq!(wide.pack(), [0x92, 0, 0, 0]);
    assert_eq!(GradientUpdateHeader::default().pack(), [0, 0, 0, 0]);
}

#[test]
fn zigbee_too_many_gradient_points() {
    let points = vec![XY::new(1, 2); 84];
    let upd = HueZigbeeUpdate::new().with_gradient_colors(GradientColors {
        header: GradientUpdateHeader::default(),
        points,
    });
    let mut out = vec![0x55];
    assert_eq!(upd.serialize(&mut out).unwrap_err(), ApiError::SerializationError);
    assert_eq!(out, vec![0x55]);

    let upd = HueZigbeeUpdate::new().with_gradient_colors(GradientColors {
        header: GradientUpdateHeader::default(),
        points: vec![XY::new(1, 2); 83],
    });
    let bytes = encode(&upd);
    assert_eq!(bytes.len(), 2 + 1 + 4 + 3 * 83);
    assert_eq!(bytes[2], 253);
}

#[test]
fn zigbee_serialize_appends() {
    let mut out = vec![0xAA];
    HueZigbeeUpdate::new().with_brightness(7).serialize(&mut out).unwrap();
    assert_eq!(out, vec![0xAA, 0x02, 0x00, 0x07]);
}

#[test]
fn zigbee_gradient_length_byte_is_not_checked() {
    // the header says how many points follow, whatever the length byte says
    let bytes = [0x00, 0x01, 0xFF, 0x10, 0x00, 0x00, 0x00, 0x21, 0x43, 0x65];
    let upd = HueZigbeeUpdate::from_reader(&bytes).unwrap();
    let colors = upd.gradient_colors.unwrap();
    assert_eq!(colors.header.nlights, 1);
    assert_eq!(colors.points, vec![XY::new(0x321, 0x654)]);
}
