use fw_updater::frame::{encode, finalize_header_checksum, CommandFrame, HOST_MARKER};
use fw_updater::scanner::{retain_tail, scan, ScanResult};

fn device_frame(opcode: u8, status: u8, address: u32, aux: u32) -> CommandFrame {
    let mut frame = CommandFrame {
        marker: HOST_MARKER, // wire bytes 0xAA 0x55
        opcode,
        status,
        address,
        aux,
        header_checksum: 0,
        reserved: 0,
    };
    finalize_header_checksum(&mut frame);
    frame
}

#[test]
fn scan_empty_buffer() {
    assert_eq!(scan(&[]), ScanResult::NoMarker);
    assert_eq!(scan(&[0xAA]), ScanResult::NoMarker);
}

#[test]
fn scan_finds_frame_at_start() {
    let frame = device_frame(1, 0, 0, 0);
    let wire = encode(&frame);
    assert_eq!(scan(&wire), ScanResult::Found(frame));
}

#[test]
fn scan_finds_frame_after_noise() {
    let frame = device_frame(2, 0, 1024, 512);
    let mut wire = vec![0x00, 0x13, 0xAA, 0x00, 0x55];
    wire.extend_from_slice(&encode(&frame));
    wire.push(0x99); // trailing noise is fine
    assert_eq!(scan(&wire), ScanResult::Found(frame));
}

#[test]
fn scan_ignores_lone_marker_byte() {
    // 0xAA never immediately followed by 0x55: no marker at all.
    assert_eq!(scan(&[0x01, 0xAA, 0x00, 0xAA, 0xAA, 0x01]), ScanResult::NoMarker);
    // Lone 0xAA as the very last byte.
    assert_eq!(scan(&[0x55, 0x00, 0xAA]), ScanResult::NoMarker);
}

#[test]
fn scan_short_tail_is_incomplete() {
    // Marker at 2, but only 10 bytes from its start: no decode.
    let buf = [0x00u8, 0x07, 0xAA, 0x55, 1, 2, 3, 4, 5, 6, 7, 8];
    assert_eq!(scan(&buf), ScanResult::Incomplete(2));
}

#[test]
fn scan_short_tail_with_second_marker_is_incomplete() {
    // Fewer than 16 bytes follow the first marker, even though the tail
    // holds another valid-looking marker: still no decode, and the first
    // marker's position is reported.
    let buf = [0xAAu8, 0x55, 0x00, 0x00, 0xAA, 0x55, 0x01, 0x02];
    assert_eq!(scan(&buf), ScanResult::Incomplete(0));
}

#[test]
fn scan_boundary_fifteen_bytes_after_marker_start() {
    // Exactly 15 bytes from the marker on: one short of a frame.
    let mut buf = vec![0xAA, 0x55];
    buf.extend_from_slice(&[0u8; 13]);
    assert_eq!(buf.len(), 15);
    assert_eq!(scan(&buf), ScanResult::Incomplete(0));
    // One more byte makes it decodable.
    buf.push(0x00);
    match scan(&buf) {
        ScanResult::Found(frame) => {
            assert_eq!(frame.marker, 0x55AA);
            assert_eq!(frame.opcode, 0);
        }
        other => panic!("expected a decoded frame, got {:?}", other),
    }
}

#[test]
fn frame_split_across_reads_is_reassembled() {
    let frame = device_frame(1, 0, 0, 0);
    let wire = encode(&frame);

    // First read: some noise, then only the first 9 bytes of the frame.
    let mut acc = vec![0x42u8, 0x00];
    acc.extend_from_slice(&wire[..9]);
    match scan(&acc) {
        ScanResult::Incomplete(pos) => {
            assert_eq!(pos, 2);
            retain_tail(&mut acc, pos);
        }
        other => panic!("expected an incomplete match, got {:?}", other),
    }
    assert_eq!(&acc[..], &wire[..9]);

    // Second read brings the rest: now the frame decodes.
    acc.extend_from_slice(&wire[9..]);
    assert_eq!(scan(&acc), ScanResult::Found(frame));
}

#[test]
fn retain_tail_keeps_suffix() {
    let mut acc = vec![1u8, 2, 3, 4, 5];
    retain_tail(&mut acc, 3);
    assert_eq!(acc, vec![4, 5]);
    retain_tail(&mut acc, 0);
    assert_eq!(acc, vec![4, 5]);
    retain_tail(&mut acc, 2);
    assert_eq!(acc, Vec::<u8>::new());
}

#[test]
fn scan_first_marker_wins() {
    let first = device_frame(1, 0, 0, 0);
    let second = device_frame(3, 0xFF, 0, 0);
    let mut wire = encode(&first);
    wire.extend_from_slice(&encode(&second));
    assert_eq!(scan(&wire), ScanResult::Found(first));
}
