use blelight::codec::{construct_message, encode, keep_alive_message, light_message};
use blelight::LightError;

fn xor_fold(id: u8, data: &[u8]) -> u8 {
    data.iter().fold(id, |a, b| a ^ b)
}

#[test]
fn frame_is_always_twenty_bytes() {
    for len in 0..=17usize {
        let payload = vec![0x5Au8; len];
        let frame = construct_message(0x42, payload);
        assert_eq!(frame.len(), 20);
    }
}

#[test]
fn frame_layout_keep_alive() {
    let frame = construct_message(0xAA, vec![0x33]);
    let mut expected = vec![0xAAu8, 0x33];
    expected.extend_from_slice(&[0u8; 17]);
    expected.push(0x99); // 0xAA ^ 0x33
    assert_eq!(frame, expected);
}

#[test]
fn checksum_is_xor_fold_of_id_and_payload() {
    let payload = vec![0x01u8, 0x02, 0x03, 0xF0];
    let frame = construct_message(0x7C, payload.clone());
    assert_eq!(frame[19], xor_fold(0x7C, &payload));
}

#[test]
fn checksum_recomputes_over_first_nineteen_bytes() {
    let cases: Vec<(u8, Vec<u8>)> = vec![
        (0xAA, vec![0x33]),
        (0x33, vec![0x05, 0x15, 0x01, 0xFF, 0x00, 0x00, 0, 0, 0, 0, 0, 0xFF, 0x0F]),
        (0x00, vec![]),
        (0xFF, vec![0xFF; 17]),
    ];
    for (id, payload) in cases {
        let frame = construct_message(id, payload);
        assert_eq!(xor_fold(frame[0], &frame[1..19]), frame[19]);
    }
}

#[test]
fn light_message_layout() {
    let frame = light_message(0xFF, 0x00, 0x00);
    assert_eq!(frame.len(), 20);
    assert_eq!(frame[0], 0x33);
    assert_eq!(
        &frame[1..14],
        &[0x05, 0x15, 0x01, 0xFF, 0x00, 0x00, 0x00, 0x00, 0x00, 0x00, 0x00, 0xFF, 0x0F]
    );
    assert_eq!(&frame[14..19], &[0u8; 5]);
    let expected_checksum =
        xor_fold(0x33, &[0x05, 0x15, 0x01, 0xFF, 0x00, 0x00, 0, 0, 0, 0, 0, 0xFF, 0x0F]);
    assert_eq!(frame[19], expected_checksum);
    assert_eq!(frame[19], 0x2D);
}

#[test]
fn light_message_carries_channels_at_bytes_four_to_six() {
    for (r, g, b) in [(0u8, 0u8, 0u8), (1, 2, 3), (255, 128, 7), (255, 255, 255)] {
        let frame = light_message(r, g, b);
        assert_eq!(frame[4], r);
        assert_eq!(frame[5], g);
        assert_eq!(frame[6], b);
        assert_eq!(frame[0], 0x33);
    }
}

#[test]
fn keep_alive_message_layout() {
    let frame = keep_alive_message();
    assert_eq!(frame, construct_message(0xAA, vec![0x33]));
    assert_eq!(frame[0], 0xAA);
    assert_eq!(frame[1], 0x33);
}

#[test]
fn encode_accepts_up_to_seventeen_bytes() {
    let frame = encode(0x11, vec![0xEE; 17]).unwrap();
    assert_eq!(frame.len(), 20);
    assert_eq!(frame, construct_message(0x11, vec![0xEE; 17]));
}

#[test]
fn encode_rejects_oversized_payload() {
    assert_eq!(encode(0x11, vec![0u8; 18]), Err(LightError::PayloadTooLarge));
    assert_eq!(encode(0x11, vec![0u8; 100]), Err(LightError::PayloadTooLarge));
}
