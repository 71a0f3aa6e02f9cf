use ear_api::payloads::{decode_custom_eq, decode_eq_float, encode_custom_eq, encode_eq_float,
    parse_battery_payload, parse_gestures, parse_led_colors};
use ear_api::protocol::crc16;
use ear_api::{BatteryReading, CustomEq, EarPacket};

#[test]
fn encode_and_parse_round_trip() {
    let payload = [0xAA, 0x55, 0x01];
    let encoded = EarPacket::encode(0xC007, 0x10, &payload);
    // Ensure the encoded packet still starts with the expected header
    assert_eq!(&encoded[..3], &[0x55, 0x60, 0x01]);

    let mut buffer = encoded.clone();
    let parsed = EarPacket::try_parse(&mut buffer)
        .expect("parser should not error")
        .expect("packet should be parsed");

    assert_eq!(parsed.command, 0xC007);
    assert_eq!(parsed.operation_id, 0x10);
    assert_eq!(parsed.payload, payload);
    assert!(buffer.is_empty(), "buffer should be drained");
}

#[test]
fn try_parse_handles_fragmented_stream() {
    let packet_a = EarPacket::encode(0x1234, 1, &[0x01, 0x02]);
    let packet_b = EarPacket::encode(0xABCD, 2, &[0x03]);

    // Simulate bytes arriving in small chunks.
    let mut stream = Vec::new();
    stream.extend_from_slice(&packet_a[..5]);
    let mut buffer = stream.clone();
    assert!(EarPacket::try_parse(&mut buffer).unwrap().is_none());

    stream.extend_from_slice(&packet_a[5..]);
    stream.extend_from_slice(&packet_b);
    let mut rolling_buffer = stream.clone();

    let first = EarPacket::try_parse(&mut rolling_buffer)
        .unwrap()
        .expect("first packet should parse");
    assert_eq!(first.command, 0x1234);
    assert_eq!(first.payload, vec![0x01, 0x02]);

    let second = EarPacket::try_parse(&mut rolling_buffer)
        .unwrap()
        .expect("second packet should parse");
    assert_eq!(second.command, 0xABCD);
    assert_eq!(second.payload, vec![0x03]);
    assert!(rolling_buffer.is_empty());
}

#[test]
fn crc16_matches_known_value() {
    let magic: [u8; 3] = [0x55, 0x60, 0x01];
    let bytes = [
        magic.as_slice(),
        &[0x34, 0x12, 0x02, 0x00, 0x01],
        &[0xAA, 0xBB],
    ]
    .concat();
    assert_eq!(crc16(&bytes), 0xFA6A);
}

#[test]
fn encode_battery_request_bytes() {
    let encoded = EarPacket::encode(0xC007, 0x10, &[]);
    assert_eq!(encoded.len(), 10);
    assert_eq!(&encoded[..8], &[0x55, 0x60, 0x01, 0x07, 0xC0, 0x00, 0x00, 0x10]);
}

#[test]
fn parse_skips_leading_garbage_without_magic() {
    let frame = EarPacket::encode(0x4006, 3, &[0x09]);
    let mut buffer = vec![0x11, 0x22, 0x33];
    buffer.extend_from_slice(&frame);
    let parsed = EarPacket::try_parse(&mut buffer).unwrap().expect("frame should parse");
    assert_eq!(parsed.command, 0x4006);
    assert_eq!(parsed.payload, vec![0x09]);
    assert!(buffer.is_empty());
}

#[test]
fn parse_resyncs_after_false_magic() {
    let frame = EarPacket::encode(0x1234, 1, &[0x01, 0x02]);
    let mut buffer = vec![0xAA, 0x55, 0x99];
    buffer.extend_from_slice(&frame);
    let parsed = EarPacket::try_parse(&mut buffer).unwrap().expect("frame should parse");
    assert_eq!(parsed.command, 0x1234);
    assert_eq!(parsed.operation_id, 1);
    assert_eq!(parsed.payload, vec![0x01, 0x02]);
    assert!(buffer.is_empty());
}

#[test]
fn incomplete_input_consumes_nothing() {
    let frame = EarPacket::encode(0x1234, 7, &[0x01, 0x02, 0x03]);
    for cut in 0..frame.len() {
        let mut buffer = frame[..cut].to_vec();
        assert!(EarPacket::try_parse(&mut buffer).unwrap().is_none());
        assert_eq!(buffer, &frame[..cut], "prefix of {} bytes must stay untouched", cut);
        // Refeeding the remaining bytes still yields the frame.
        buffer.extend_from_slice(&frame[cut..]);
        let parsed = EarPacket::try_parse(&mut buffer).unwrap().expect("frame should parse");
        assert_eq!(parsed.command, 0x1234);
        assert_eq!(parsed.operation_id, 7);
        assert_eq!(parsed.payload, vec![0x01, 0x02, 0x03]);
        assert!(buffer.is_empty());
    }
}

#[test]
fn corrupt_frame_reports_crc_mismatch_and_is_consumed() {
    let mut frame = EarPacket::encode(0xC007, 2, &[0x44]);
    frame[8] ^= 0xFF; // damage the payload byte, keeping the stored CRC
    let tail = EarPacket::encode(0xC007, 3, &[]);
    let mut buffer = frame.clone();
    buffer.extend_from_slice(&tail);
    let err = EarPacket::try_parse(&mut buffer).expect_err("checksum must fail");
    assert!(matches!(err, ear_api::EarError::CrcMismatch));
    // The corrupt frame is consumed; the next frame still parses.
    let parsed = EarPacket::try_parse(&mut buffer).unwrap().expect("next frame should parse");
    assert_eq!(parsed.operation_id, 3);
    assert!(buffer.is_empty());
}

#[test]
fn parse_battery_assigns_all_three_readings() {
    let payload = [3, 0x02, 0x80 | 55, 0x03, 70, 0x04, 0x80 | 1];
    let status = parse_battery_payload(&payload);
    assert_eq!(status.left, BatteryReading::Level { percent: 55, charging: true });
    assert_eq!(status.right, BatteryReading::Level { percent: 70, charging: false });
    assert_eq!(status.case, BatteryReading::Level { percent: 1, charging: true });
}

#[test]
fn parse_battery_keeps_missing_fields_disconnected() {
    let payload = [1, 0x03, 42];
    let status = parse_battery_payload(&payload);
    assert_eq!(status.left, BatteryReading::Disconnected);
    assert_eq!(status.right, BatteryReading::Level { percent: 42, charging: false });
    assert_eq!(status.case, BatteryReading::Disconnected);

    assert_eq!(parse_battery_payload(&[]).left, BatteryReading::Disconnected);
}

#[test]
fn parse_battery_stops_at_truncated_entry() {
    let payload = [2, 0x02, 10, 0x03];
    let status = parse_battery_payload(&payload);
    assert_eq!(status.left, BatteryReading::Level { percent: 10, charging: false });
    assert_eq!(status.right, BatteryReading::Disconnected);
}

#[test]
fn parse_gestures_reads_each_slot() {
    let payload = [2, 1, 2, 3, 4, 5, 6, 7, 8];
    let gestures = parse_gestures(&payload);
    assert_eq!(gestures.len(), 2);
    assert_eq!(gestures[0].device, 1);
    assert_eq!(gestures[0].common, 2);
    assert_eq!(gestures[0].gesture_type, 3);
    assert_eq!(gestures[0].action, 4);
    assert_eq!(gestures[1].device, 5);
    assert_eq!(gestures[1].action, 8);

    // A truncated trailing entry is dropped.
    let truncated = parse_gestures(&[2, 1, 2, 3, 4, 5, 6]);
    assert_eq!(truncated.len(), 1);
}

#[test]
fn parse_led_colors_reads_rgb_groups() {
    let payload = [2, 1, 10, 20, 30, 2, 40, 50, 60];
    let colors = parse_led_colors(&payload);
    assert_eq!(colors.pixels.len(), 2);
    assert_eq!(colors.pixels[0].0, [10, 20, 30]);
    assert_eq!(colors.pixels[1].0, [40, 50, 60]);

    assert_eq!(parse_led_colors(&[]).pixels.len(), 0);
}

#[test]
fn eq_float_slot_uses_swapped_byte_order() {
    // 2.5f32 = 0x40200000 big-endian [40, 20, 00, 00], reversed on the wire.
    let bytes = encode_eq_float(2.5f32.to_bits(), false);
    assert_eq!(bytes, [0x00, 0x00, 0x20, 0x40]);
    assert_eq!(decode_eq_float(&bytes), 2.5f32.to_bits());
}

#[test]
fn eq_float_tiny_value_gets_marker_bit() {
    // A positive subnormal whose three high big-endian bytes are zero.
    let tiny: u32 = 0x0000_0042;
    let bytes = encode_eq_float(tiny, false);
    assert_eq!(bytes, [0x42 | 0x80, 0x00, 0x00, 0x00]);
    // Decoding interprets the marker as a negated tiny value.
    assert_eq!(decode_eq_float(&bytes), 0x42 | 0x8000_0000);
}

#[test]
fn eq_total_slot_is_fixed_marker_for_zero_bands() {
    let eq = CustomEq { bass: 0, mid: 0, treble: 0 };
    let payload = encode_custom_eq(eq);
    assert_eq!(payload.len(), 55);
    assert_eq!(&payload[1..5], &[0x00, 0x00, 0x00, 0x80]);
}

#[test]
fn eq_total_slot_encodes_negated_largest_magnitude() {
    let eq = CustomEq {
        bass: 2.5f32.to_bits(),
        mid: 1.0f32.to_bits(),
        treble: 0.5f32.to_bits(),
    };
    let payload = encode_custom_eq(eq);
    // -2.5f32 = 0xC0200000 big-endian [C0, 20, 00, 00], reversed on the wire.
    assert_eq!(&payload[1..5], &[0x00, 0x00, 0x20, 0xC0]);
    // Band slots hold mid, treble, bass at 6, 19 and 32.
    assert_eq!(&payload[6..10], &encode_eq_float(eq.mid, false));
    assert_eq!(&payload[19..23], &encode_eq_float(eq.treble, false));
    assert_eq!(&payload[32..36], &encode_eq_float(eq.bass, false));
}

#[test]
fn custom_eq_round_trips_bitwise() {
    let eq = CustomEq {
        bass: 2.5f32.to_bits(),
        mid: (-1.25f32).to_bits(),
        treble: 0.0f32.to_bits(),
    };
    let payload = encode_custom_eq(eq);
    let decoded = decode_custom_eq(&payload).expect("payload long enough");
    assert_eq!(decoded.bass, eq.bass);
    assert_eq!(decoded.mid, eq.mid);
    assert_eq!(decoded.treble, eq.treble);
}

#[test]
fn custom_eq_decode_rejects_short_payloads() {
    assert!(decode_custom_eq(&[0u8; 44]).is_none());
    assert!(decode_custom_eq(&[0u8; 45]).is_some());
}
