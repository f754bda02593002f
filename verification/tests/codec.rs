use k8055::{
    analog_in1_of, analog_in2_of, decode, digital_in_of, encode, AnalogChannel, DigitalChannel,
    K8055Error, Packet,
};

#[test]
fn encode_set_state_exact_bytes() {
    let cases: Vec<(u8, u8, u8)> = vec![
        (0, 0, 0),
        (255, 255, 255),
        (0x12, 0x34, 0x56),
        (1, 0, 255),
        (128, 7, 9),
    ];
    for (d, a1, a2) in cases {
        let frame = encode(&Packet::SetAnalogDigital(d, a1, a2)).unwrap();
        assert_eq!(frame, [5u8, d, a1, a2, 0, 0, 0, 0]);
        // Deterministic: a second call gives the same frame.
        let again = encode(&Packet::SetAnalogDigital(d, a1, a2)).unwrap();
        assert_eq!(frame, again);
    }
}

#[test]
fn encode_status_is_unsupported() {
    let r = encode(&Packet::Status(1, 2, 3, 4));
    assert_eq!(r, Err(K8055Error::UnsupportedCommand));
}

#[test]
fn decode_full_frame_fields() {
    let cases: Vec<(u8, u8, u8, u8)> = vec![
        (0, 0, 0, 0),
        (255, 255, 255, 255),
        (0xAA, 0x55, 0x01, 0xFE),
        (7, 0, 128, 64),
    ];
    for (d, s, a1, a2) in cases {
        let frame: Vec<u8> = vec![d, s, a1, a2, 0, 0, 0, 0];
        let p = decode(&frame).unwrap();
        assert_eq!(p, Packet::Status(d, s, a1, a2));
    }
}

#[test]
fn decode_ignores_reserved_bytes() {
    let frame: Vec<u8> = vec![1, 2, 3, 4, 9, 8, 7, 6];
    assert_eq!(decode(&frame).unwrap(), Packet::Status(1, 2, 3, 4));
}

#[test]
fn status_field_projections() {
    let p = Packet::Status(0x81, 0x02, 0x03, 0x04);
    assert_eq!(digital_in_of(p), DigitalChannel::from_bits(0x81).unwrap());
    assert_eq!(analog_in1_of(p), AnalogChannel::A1(0x03));
    assert_eq!(analog_in2_of(p), AnalogChannel::A2(0x04));
    // Each projection reads its own byte, not a neighbour's.
    let q = Packet::Status(1, 2, 3, 4);
    assert_eq!(digital_in_of(q), DigitalChannel::from_bits(1).unwrap());
    assert_eq!(analog_in1_of(q), AnalogChannel::A1(3));
    assert_eq!(analog_in2_of(q), AnalogChannel::A2(4));
}

#[test]
fn decode_short_buffer_fails() {
    for len in 0..4usize {
        let buf: Vec<u8> = vec![0xFF; len];
        assert_eq!(decode(&buf), Err(K8055Error::ShortFrame));
    }
    // Four bytes are enough even without the reserved tail.
    let buf: Vec<u8> = vec![1, 2, 3, 4];
    assert_eq!(decode(&buf).unwrap(), Packet::Status(1, 2, 3, 4));
}
