use password_store::frame::{frame, i32_to_bytes, payload, MSG_SIZE};

#[test]
fn i32_to_bytes_puts_the_least_significant_byte_first() {
    assert_eq!(i32_to_bytes(0), vec![0, 0, 0, 0]);
    assert_eq!(i32_to_bytes(1), vec![1, 0, 0, 0]);
    assert_eq!(i32_to_bytes(255), vec![255, 0, 0, 0]);
    assert_eq!(i32_to_bytes(256), vec![0, 1, 0, 0]);
    assert_eq!(i32_to_bytes(0x0102_0304), vec![4, 3, 2, 1]);
    assert_eq!(i32_to_bytes(i32::MAX), vec![255, 255, 255, 127]);
}

#[test]
fn i32_to_bytes_writes_negative_numbers_in_twos_complement() {
    assert_eq!(i32_to_bytes(-1), vec![255, 255, 255, 255]);
    assert_eq!(i32_to_bytes(-2), vec![254, 255, 255, 255]);
    assert_eq!(i32_to_bytes(i32::MIN), vec![0, 0, 0, 128]);
}

#[test]
fn i32_to_bytes_agrees_with_the_standard_conversion() {
    for num in [0, 1, -1, 42, 65_535, 65_536, 16_777_216, -16_777_216, i32::MAX, i32::MIN] {
        assert_eq!(i32_to_bytes(num), num.to_le_bytes().to_vec());
    }
}

#[test]
fn the_prefix_has_four_bytes() {
    assert_eq!(MSG_SIZE, 4);
}

#[test]
fn frame_prefixes_the_length_of_the_payload() {
    assert_eq!(frame(b"{}"), vec![2, 0, 0, 0, b'{', b'}']);
    assert_eq!(frame(b""), vec![0, 0, 0, 0]);
    assert_eq!(frame(b"abc"), vec![3, 0, 0, 0, b'a', b'b', b'c']);
}

#[test]
fn frame_writes_longer_lengths_over_several_bytes() {
    let body = vec![b'x'; 300];
    let message = frame(&body);
    assert_eq!(message.len(), 304);
    assert_eq!(&message[..4], &[44, 1, 0, 0]);
    assert_eq!(&message[4..], &body[..]);

    let body = vec![b'y'; 70_000];
    let message = frame(&body);
    assert_eq!(&message[..4], &[112, 17, 1, 0]);
    assert_eq!(message.len(), 70_004);
}

#[test]
fn payload_skips_exactly_four_bytes() {
    assert_eq!(payload(b"junk{}"), b"{}");
    assert_eq!(payload(&[0xde, 0xad, 0xbe, 0xef, b'[', b']']), b"[]");
    assert_eq!(payload(b"12345"), b"5");
}

#[test]
fn payload_of_a_short_stream_is_empty() {
    assert_eq!(payload(b""), b"");
    assert_eq!(payload(b"abc"), b"");
    assert_eq!(payload(b"abcd"), b"");
}

#[test]
fn payload_undoes_frame() {
    for body in [&b""[..], &b"{}"[..], &b"{\"type\":\"query\"}"[..]] {
        assert_eq!(payload(&frame(body)), body);
    }
}

#[test]
fn the_prefix_of_a_frame_states_the_length_of_its_payload() {
    for length in [0usize, 1, 255, 256, 65_535, 65_536, 100_000] {
        let message = frame(&vec![b'a'; length]);
        let stated = u32::from_le_bytes([message[0], message[1], message[2], message[3]]);
        assert_eq!(stated as usize, length);
        assert_eq!(message.len(), length + 4);
    }
}
