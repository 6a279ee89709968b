use bifrost::error::{HueError, ZclError};
use bifrost::stream::{EntertainmentZigbeeStream, ZigbeeMessage};
use bifrost::wire::{pack_xy12, unpack_xy12};
use bifrost::zcl::{HueEntFrame, HueEntFrameHeader, HueEntFrameLight, HueEntStart, HueEntStop};

#[test]
fn stream_first_frame_and_reset() {
    let mut stream = EntertainmentZigbeeStream::new(0);
    assert_eq!(stream.smoothing(), 0x0400);
    let light = HueEntFrameLight { addr: 0x1234, b: 0x07FF, raw: [0x11, 0x22, 0x33] };
    let frame = stream.frame(vec![light]).unwrap();
    assert_eq!(frame.cluster, 0xFC01);
    assert_eq!(frame.command, 1);
    assert!(frame.ddr);
    assert_eq!(&frame.data[..6], &[0x00, 0x00, 0x00, 0x00, 0x00, 0x04]);
    assert_eq!(&frame.data[6..], &[0x34, 0x12, 0xFF, 0x07, 0x11, 0x22, 0x33]);
    assert_eq!(stream.counter(), 1);

    let reset = stream.reset().unwrap();
    assert_eq!(reset.cluster, 0xFC01);
    assert_eq!(reset.command, 3);
    assert_eq!(reset.data, vec![0x00, 0x01, 0x01, 0x00, 0x00, 0x00]);
    assert_eq!(stream.counter(), 1);
}

#[test]
fn stream_counter_counts_frames_only() {
    let start = 0xFFFF_FF00u32;
    let mut stream = EntertainmentZigbeeStream::new(start);
    for k in 0..200u32 {
        assert_eq!(stream.counter(), start + k);
        let msg = stream.frame(vec![]).unwrap();
        assert_eq!(&msg.data[..4], &(start + k).to_le_bytes());
        stream.reset().unwrap();
        stream.segment_mapping(&[1, 2, 3]).unwrap();
        assert_eq!(stream.counter(), start + k + 1);
    }
    assert_eq!(stream.counter(), start + 200);
}

#[test]
fn stream_default_starts_at_zero() {
    let stream = EntertainmentZigbeeStream::default();
    assert_eq!(stream.counter(), 0);
    assert_eq!(stream.smoothing(), EntertainmentZigbeeStream::DEFAULT_SMOOTHING);
    assert_eq!(EntertainmentZigbeeStream::CLUSTER, 0xFC01);
    assert_eq!(EntertainmentZigbeeStream::CMD_SEGMENT_MAP, 7);
    assert_eq!(EntertainmentZigbeeStream::CMD_RESET, 3);
    assert_eq!(EntertainmentZigbeeStream::CMD_FRAME, 1);
}

#[test]
fn stream_smoothing_goes_into_frames() {
    let mut stream = EntertainmentZigbeeStream::new(0x01020304);
    stream.set_smoothing(0xABCD);
    assert_eq!(stream.smoothing(), 0xABCD);
    assert_eq!(stream.counter(), 0x01020304);
    let msg = stream.frame(vec![]).unwrap();
    assert_eq!(msg.data, vec![0x04, 0x03, 0x02, 0x01, 0xCD, 0xAB]);
}

#[test]
fn stream_segment_mapping() {
    let mut stream = EntertainmentZigbeeStream::new(5);
    let msg = stream.segment_mapping(&[0x0102, 0xA0B0]).unwrap();
    assert_eq!(msg.cluster, 0xFC01);
    assert_eq!(msg.command, 7);
    assert!(msg.ddr);
    assert_eq!(msg.data, vec![0x00, 0x02, 0x02, 0x01, 0xB0, 0xA0]);
    assert_eq!(stream.counter(), 5);
    let back = HueEntStart::parse(&msg.data).unwrap();
    assert_eq!(back.count, 2);
    assert_eq!(back.members, vec![0x0102, 0xA0B0]);

    let empty = stream.segment_mapping(&[]).unwrap();
    assert_eq!(empty.data, vec![0x00, 0x00]);
}

#[test]
fn stream_segment_mapping_too_long() {
    let mut stream = EntertainmentZigbeeStream::new(0);
    let map = vec![7u16; 65536];
    assert_eq!(stream.segment_mapping(&map).unwrap_err(), HueError::TryFromIntError);
    let map = vec![7u16; 65535];
    let msg = stream.segment_mapping(&map).unwrap();
    assert_eq!(&msg.data[..2], &[0xFF, 0xFF]);
    assert_eq!(msg.data.len(), 2 + 2 * 65535);
}

#[test]
fn zigbee_message_ddr() {
    let msg = ZigbeeMessage::new(1, 2, vec![3]);
    assert!(msg.ddr);
    let msg = msg.with_ddr(false);
    assert!(!msg.ddr);
    assert_eq!((msg.cluster, msg.command, msg.data), (1, 2, vec![3]));
}

#[test]
fn ent_start_parse() {
    let start = HueEntStart::parse(&[0x00, 0x03, 0x01, 0x00, 0x02, 0x00, 0xFF, 0x7F]).unwrap();
    assert_eq!(start.count, 3);
    assert_eq!(start.members, vec![1, 2, 0x7FFF]);
    assert_eq!(start.pack(), vec![0x00, 0x03, 0x01, 0x00, 0x02, 0x00, 0xFF, 0x7F]);
}

#[test]
fn ent_start_parse_rejects() {
    for bad in [
        &[][..],
        &[0x00][..],
        &[0x00, 0x01][..],
        &[0x00, 0x01, 0x05][..],
        &[0x00, 0x01, 0x05, 0x00, 0x06][..],
        &[0x01, 0x00, 0x05, 0x00][..],
        &[0x00, 0x00, 0x05, 0x00][..],
    ] {
        assert_eq!(HueEntStart::parse(bad).unwrap_err(), ZclError::InvalidValue);
    }
    assert_eq!(HueEntStart::parse(&[0, 0]).unwrap().members, Vec::<u16>::new());
}

#[test]
fn ent_start_new_counts_members() {
    let start = HueEntStart::new(&[9, 8, 7]).unwrap();
    assert_eq!(start.count, 3);
    assert_eq!(start.members, vec![9, 8, 7]);
    assert_eq!(HueEntStart::parse(&start.pack()).unwrap(), start);
}

#[test]
fn ent_frame_parse() {
    let data = [
        0x78, 0x56, 0x34, 0x12, 0x00, 0x04, // header
        0x01, 0x00, 0xFF, 0x07, 0xAA, 0xBB, 0xCC, // light 1
        0x02, 0x00, 0x00, 0x01, 0x11, 0x22, 0x33, // light 2
    ];
    let frame = HueEntFrame::parse(&data).unwrap();
    assert_eq!(frame.counter, 0x12345678);
    assert_eq!(frame.x0, 0x0400);
    assert_eq!(
        frame.blks,
        vec![
            HueEntFrameLight { addr: 1, b: 0x07FF, raw: [0xAA, 0xBB, 0xCC] },
            HueEntFrameLight { addr: 2, b: 0x0100, raw: [0x11, 0x22, 0x33] },
        ]
    );
    assert_eq!(frame.pack(), data.to_vec());
    assert_eq!(
        HueEntFrameHeader::unpack_from_slice(&data[..6]).unwrap(),
        HueEntFrameHeader { counter: 0x12345678, x0: 0x0400 }
    );
    assert_eq!(HueEntFrameHeader::unpack_from_slice(&data).unwrap_err(), ZclError::InvalidValue);
    assert_eq!(
        HueEntFrameLight::unpack_from_slice(&data[6..13]).unwrap(),
        HueEntFrameLight { addr: 1, b: 0x07FF, raw: [0xAA, 0xBB, 0xCC] }
    );
    assert_eq!(
        HueEntFrameLight::unpack_from_slice(&data[6..12]).unwrap_err(),
        ZclError::InvalidValue
    );
}

#[test]
fn ent_frame_parse_rejects() {
    // the header is cut short
    for len in 0..6 {
        assert_eq!(HueEntFrame::parse(&vec![0u8; len]).unwrap_err(), ZclError::InvalidValue);
    }
    // a light record is cut short
    for len in (7..13).chain(14..20) {
        assert_eq!(HueEntFrame::parse(&vec![0u8; len]).unwrap_err(), ZclError::InvalidValue);
    }
    assert_eq!(HueEntFrame::parse(&[0u8; 13]).unwrap().blks.len(), 1);
    assert_eq!(HueEntFrame::parse(&[0u8; 20]).unwrap().blks.len(), 2);
}

#[test]
fn ent_frame_without_lights() {
    let frame = HueEntFrame::parse(&[0x05, 0x00, 0x00, 0x00, 0x00, 0x04]).unwrap();
    assert_eq!(frame.counter, 5);
    assert_eq!(frame.x0, 0x0400);
    assert!(frame.blks.is_empty());
    assert_eq!(frame.pack(), vec![0x05, 0x00, 0x00, 0x00, 0x00, 0x04]);

    let mut stream = EntertainmentZigbeeStream::new(9);
    let msg = stream.frame(vec![]).unwrap();
    let frame = HueEntFrame::parse(&msg.data).unwrap();
    assert_eq!(frame.counter, 9);
    assert!(frame.blks.is_empty());
}

#[test]
fn ent_frame_round_trip_through_stream() {
    let lights = vec![
        HueEntFrameLight { addr: 0xFFFF, b: 0, raw: [0, 0, 0] },
        HueEntFrameLight { addr: 0, b: 0xFFFF, raw: [0xFF, 0xFF, 0xFF] },
        HueEntFrameLight { addr: 0x0A0B, b: 0x0C0D, raw: [1, 2, 3] },
    ];
    let mut stream = EntertainmentZigbeeStream::new(41);
    let msg = stream.frame(lights.clone()).unwrap();
    let frame = HueEntFrame::parse(&msg.data).unwrap();
    assert_eq!(frame.counter, 41);
    assert_eq!(frame.x0, 0x0400);
    assert_eq!(frame.blks, lights);
}

#[test]
fn ent_stop_pack_and_parse() {
    let stop = HueEntStop { x0: 0, x1: 1, counter: 0xA1B2C3D4 };
    assert_eq!(stop.pack_to_vec(), vec![0x00, 0x01, 0xD4, 0xC3, 0xB2, 0xA1]);
    assert_eq!(HueEntStop::parse(&stop.pack_to_vec()).unwrap(), stop);
    assert_eq!(HueEntStop::parse(&[0; 5]).unwrap_err(), ZclError::InvalidValue);
    assert_eq!(HueEntStop::parse(&[0; 7]).unwrap_err(), ZclError::InvalidValue);
}

#[test]
fn xy12_packing() {
    // byte 0 is the low eight bits of x; byte 1 holds the high nibble of x
    // and the low nibble of y; byte 2 is the high eight bits of y
    assert_eq!(pack_xy12(0xABC, 0x123), [0xBC, 0x3A, 0x12]);
    assert_eq!(unpack_xy12(0xBC, 0x3A, 0x12), (0xABC, 0x123));
    assert_eq!(pack_xy12(0xFFF, 0x000), [0xFF, 0x0F, 0x00]);
    assert_eq!(pack_xy12(0x000, 0xFFF), [0x00, 0xF0, 0xFF]);
    for (x, y) in [(0u16, 0u16), (1, 2), (0x800, 0x7FF), (0xFFF, 0xFFF), (0x0F0, 0xF0F)] {
        let b = pack_xy12(x, y);
        assert_eq!(unpack_xy12(b[0], b[1], b[2]), (x, y));
    }
    // bits above the twelfth are dropped
    assert_eq!(pack_xy12(0xFABC, 0x1123), [0xBC, 0x3A, 0x12]);
    let light = HueEntFrameLight { addr: 0, b: 0, raw: [0xBC, 0x3A, 0x12] };
    assert_eq!(light.xy12(), (0xABC, 0x123));
}
