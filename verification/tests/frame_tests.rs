use fw_updater::frame::{
    decode, encode, finalize_header_checksum, header_checksum_of, CommandFrame, ProtocolError,
    FRAME_LEN, HOST_MARKER,
};

fn sample_frame() -> CommandFrame {
    CommandFrame {
        marker: HOST_MARKER,
        opcode: 2,
        status: 7,
        address: 0x1234_5678,
        aux: 0xDEAD_BEEF,
        header_checksum: 0x0102,
        reserved: 0xA5A5,
    }
}

#[test]
fn encode_is_little_endian_fixed_layout() {
    let bytes = encode(&sample_frame());
    assert_eq!(
        bytes,
        vec![
            0xAA, 0x55, // marker 0x55AA
            0x02, // opcode
            0x07, // status
            0x78, 0x56, 0x34, 0x12, // address
            0xEF, 0xBE, 0xAD, 0xDE, // aux
            0x02, 0x01, // header checksum
            0xA5, 0xA5, // reserved
        ]
    );
}

#[test]
fn decode_reverses_encode() {
    let frame = sample_frame();
    let bytes = encode(&frame);
    assert_eq!(bytes.len(), FRAME_LEN);
    let back = decode(&bytes).unwrap();
    assert_eq!(back, frame);
}

#[test]
fn decode_round_trips_reserved_field() {
    let mut frame = sample_frame();
    frame.reserved = 0xBEEF;
    let back = decode(&encode(&frame)).unwrap();
    assert_eq!(back.reserved, 0xBEEF);
}

#[test]
fn decode_rejects_short_input() {
    let bytes = encode(&sample_frame());
    assert_eq!(decode(&bytes[..15]), Err(ProtocolError::FrameTooShort));
    assert_eq!(decode(&[]), Err(ProtocolError::FrameTooShort));
}

#[test]
fn decode_accepts_any_sixteen_bytes() {
    // Structural decode: no semantic validation happens here.
    let bytes: Vec<u8> = (0u8..16).collect();
    let frame = decode(&bytes).unwrap();
    assert_eq!(frame.marker, 0x0100);
    assert_eq!(frame.opcode, 2);
    assert_eq!(frame.status, 3);
    assert_eq!(frame.address, 0x0706_0504);
    assert_eq!(frame.aux, 0x0B0A_0908);
    assert_eq!(frame.header_checksum, 0x0D0C);
    assert_eq!(frame.reserved, 0x0F0E);
}

#[test]
fn header_checksum_sums_first_twelve_bytes() {
    let mut frame = CommandFrame {
        marker: HOST_MARKER,
        opcode: 1,
        status: 0,
        address: 0,
        aux: 0,
        header_checksum: 0,
        reserved: 0,
    };
    finalize_header_checksum(&mut frame);
    // 0xAA + 0x55 + 0x01, all other header bytes zero.
    assert_eq!(frame.header_checksum, 0x0100);
}

#[test]
fn header_checksum_tracks_field_changes() {
    // The checksum covers the final field values: changing a field after
    // computing it makes the stored value stale, and recomputing tracks the
    // change exactly.
    let mut frame = CommandFrame {
        marker: HOST_MARKER,
        opcode: 2,
        status: 0,
        address: 0,
        aux: 0,
        header_checksum: 0,
        reserved: 0,
    };
    finalize_header_checksum(&mut frame);
    let before = frame.header_checksum;

    frame.address = 5;
    assert_eq!(frame.header_checksum, before); // stale until recomputed
    finalize_header_checksum(&mut frame);
    assert_eq!(frame.header_checksum, before + 5);

    frame.aux = 0x0101; // two nonzero bytes, each adding 1
    finalize_header_checksum(&mut frame);
    assert_eq!(frame.header_checksum, before + 7);
}

#[test]
fn finalize_leaves_checksum_consistent() {
    let mut frame = sample_frame();
    frame.address = 99;
    finalize_header_checksum(&mut frame);
    assert_eq!(frame.header_checksum, header_checksum_of(&frame));
}

#[test]
fn checksum_ignores_trailing_fields() {
    let mut a = sample_frame();
    let mut b = sample_frame();
    b.header_checksum = 0xFFFF;
    b.reserved = 0x0000;
    finalize_header_checksum(&mut a);
    finalize_header_checksum(&mut b);
    // The last four bytes are outside the checksummed region.
    assert_eq!(a.header_checksum, b.header_checksum);
}
