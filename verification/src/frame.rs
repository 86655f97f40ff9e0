//! Fixed-layout 16-byte command frame and its codec.
//!
//! Both directions of the protocol share one physical layout, all multi-byte
//! fields little-endian:
//!
//! | offset | size | field             |
//! |--------|------|-------------------|
//! | 0      | 2    | marker            |
//! | 2      | 1    | opcode            |
//! | 3      | 1    | status            |
//! | 4      | 4    | address           |
//! | 8      | 4    | aux               |
//! | 12     | 2    | header_checksum   |
//! | 14     | 2    | reserved          |
//!
//! Inbound (device to host) frames read `aux` as the payload length; outbound
//! (host to device) frames read it as the payload checksum. `header_checksum`
//! is the additive checksum of the first 12 bytes, truncated to 16 bits.
//! The codec is purely structural: any 16 bytes decode; validation is the
//! caller's job via the checksum.

use vstd::prelude::*;
use vstd::bytes::{
    lemma_auto_spec_u16_to_from_le_bytes, lemma_auto_spec_u32_to_from_le_bytes,
    spec_u16_from_le_bytes, spec_u16_to_le_bytes, spec_u32_from_le_bytes, spec_u32_to_le_bytes,
    u16_from_le_bytes, u16_to_le_bytes, u32_from_le_bytes, u32_to_le_bytes,
};
use vstd::slice::{slice_index_get, slice_subrange};
use crate::checksum::{checksum32, lemma_sum_bytes_bounds, sum_bytes, updater_calc_crc};

verus! {

/// Number of bytes in an encoded frame.
pub const FRAME_LEN: usize = 16;

/// Number of leading bytes covered by the header checksum.
pub const HEADER_LEN: usize = 12;

/// Marker value of a frame the host builds. On the wire its little-endian
/// bytes read `0xAA 0x55`, the same two bytes the scanner looks for on
/// ingress.
pub const HOST_MARKER: u16 = 0x55AA;

/// One command frame. Device-to-host and host-to-device commands share this
/// shape; only the reading of `aux` differs by direction.
#[derive(Clone, Copy, Debug, PartialEq, Eq, Structural)]
pub struct CommandFrame {
    pub marker: u16,
    pub opcode: u8,
    pub status: u8,
    pub address: u32,
    pub aux: u32,
    pub header_checksum: u16,
    pub reserved: u16,
}

/// Reasons a frame cannot be decoded or must stop the run.
#[derive(Clone, Copy, Debug, PartialEq, Eq, Structural)]
pub enum ProtocolError {
    /// Fewer than 16 bytes were offered to the decoder.
    FrameTooShort,
    /// A decoded frame's header checksum does not match its header bytes.
    ChecksumMismatch,
}

/// The 16-byte little-endian encoding of a frame.
pub open spec fn frame_bytes(f: CommandFrame) -> Seq<u8> {
    spec_u16_to_le_bytes(f.marker) + seq![f.opcode, f.status] + spec_u32_to_le_bytes(f.address)
        + spec_u32_to_le_bytes(f.aux) + spec_u16_to_le_bytes(f.header_checksum)
        + spec_u16_to_le_bytes(f.reserved)
}

/// The frame read from the first 16 bytes of `s`.
pub open spec fn frame_of_bytes(s: Seq<u8>) -> CommandFrame
    recommends
        s.len() >= 16,
{
    CommandFrame {
        marker: spec_u16_from_le_bytes(s.subrange(0, 2)),
        opcode: s[2],
        status: s[3],
        address: spec_u32_from_le_bytes(s.subrange(4, 8)),
        aux: spec_u32_from_le_bytes(s.subrange(8, 12)),
        header_checksum: spec_u16_from_le_bytes(s.subrange(12, 14)),
        reserved: spec_u16_from_le_bytes(s.subrange(14, 16)),
    }
}

/// An encoded frame is 16 bytes long.
pub proof fn lemma_frame_bytes_len(f: CommandFrame)
    ensures
        frame_bytes(f).len() == 16,
{
    lemma_auto_spec_u16_to_from_le_bytes();
    lemma_auto_spec_u32_to_from_le_bytes();
}

/// Decoding an encoded frame gives the frame back: the codec loses nothing.
pub proof fn lemma_frame_round_trip(f: CommandFrame)
    ensures
        frame_of_bytes(frame_bytes(f)) == f,
{
    lemma_auto_spec_u16_to_from_le_bytes();
    lemma_auto_spec_u32_to_from_le_bytes();
    let s = frame_bytes(f);
    assert(s.subrange(0, 2) =~= spec_u16_to_le_bytes(f.marker));
    assert(s[2] == f.opcode);
    assert(s[3] == f.status);
    assert(s.subrange(4, 8) =~= spec_u32_to_le_bytes(f.address));
    assert(s.subrange(8, 12) =~= spec_u32_to_le_bytes(f.aux));
    assert(s.subrange(12, 14) =~= spec_u16_to_le_bytes(f.header_checksum));
    assert(s.subrange(14, 16) =~= spec_u16_to_le_bytes(f.reserved));
}

/// Re-encoding a decoded frame reproduces the 16 bytes: the codec is a
/// bijection between frames and 16-byte strings, so no field — `reserved`
/// included — is lost in either direction.
pub proof fn lemma_bytes_round_trip(s: Seq<u8>)
    requires
        s.len() == 16,
    ensures
        frame_bytes(frame_of_bytes(s)) == s,
{
    lemma_auto_spec_u16_to_from_le_bytes();
    lemma_auto_spec_u32_to_from_le_bytes();
    let f = frame_of_bytes(s);
    assert(spec_u16_to_le_bytes(f.marker) =~= s.subrange(0, 2));
    assert(spec_u32_to_le_bytes(f.address) =~= s.subrange(4, 8));
    assert(spec_u32_to_le_bytes(f.aux) =~= s.subrange(8, 12));
    assert(spec_u16_to_le_bytes(f.header_checksum) =~= s.subrange(12, 14));
    assert(spec_u16_to_le_bytes(f.reserved) =~= s.subrange(14, 16));
    assert(frame_bytes(f) =~= s);
}

/// Encode `f` as its 16 wire bytes.
pub fn encode(f: &CommandFrame) -> (r: Vec<u8>)
    ensures
        r@ == frame_bytes(*f),
        r@.len() == 16,
{
    let mut out: Vec<u8> = Vec::new();
    let mut part = u16_to_le_bytes(f.marker);
    out.append(&mut part);
    out.push(f.opcode);
    out.push(f.status);
    let mut part = u32_to_le_bytes(f.address);
    out.append(&mut part);
    let mut part = u32_to_le_bytes(f.aux);
    out.append(&mut part);
    let mut part = u16_to_le_bytes(f.header_checksum);
    out.append(&mut part);
    let mut part = u16_to_le_bytes(f.reserved);
    out.append(&mut part);
    proof {
        lemma_frame_bytes_len(*f);
        assert(out@ =~= frame_bytes(*f));
    }
    out
}

/// Decode the first 16 bytes of `bytes` as a frame. Structural only: every
/// 16-byte input decodes; the checksum is not inspected here.
pub fn decode_exact(bytes: &[u8]) -> (f: CommandFrame)
    requires
        bytes@.len() >= 16,
    ensures
        f == frame_of_bytes(bytes@),
{
    let marker = u16_from_le_bytes(slice_subrange(bytes, 0, 2));
    let opcode = *slice_index_get(bytes, 2);
    let status = *slice_index_get(bytes, 3);
    let address = u32_from_le_bytes(slice_subrange(bytes, 4, 8));
    let aux = u32_from_le_bytes(slice_subrange(bytes, 8, 12));
    let header_checksum = u16_from_le_bytes(slice_subrange(bytes, 12, 14));
    let reserved = u16_from_le_bytes(slice_subrange(bytes, 14, 16));
    CommandFrame { marker, opcode, status, address, aux, header_checksum, reserved }
}

/// Decode a frame from `bytes`, rejecting inputs shorter than one frame.
pub fn decode(bytes: &[u8]) -> (r: Result<CommandFrame, ProtocolError>)
    ensures
        bytes@.len() >= 16 ==> r == Ok::<CommandFrame, ProtocolError>(frame_of_bytes(bytes@)),
        bytes@.len() < 16 ==> r == Err::<CommandFrame, ProtocolError>(ProtocolError::FrameTooShort),
{
    if bytes.len() < FRAME_LEN {
        Err(ProtocolError::FrameTooShort)
    } else {
        Ok(decode_exact(bytes))
    }
}

/// The header checksum a frame's current field values call for: the byte sum
/// of its first 12 encoded bytes, truncated to 16 bits. Twelve bytes sum to
/// at most 3060, so no truncation ever takes effect.
pub open spec fn spec_header_checksum(f: CommandFrame) -> u16 {
    (sum_bytes(frame_bytes(f).take(12)) % 0x10000) as u16
}

/// A frame is valid when its stored header checksum matches the checksum its
/// other header fields call for.
pub open spec fn header_valid(f: CommandFrame) -> bool {
    f.header_checksum == spec_header_checksum(f)
}

/// The header checksum covers only bytes 0..12, where neither
/// `header_checksum` nor `reserved` is encoded: two frames that agree on the
/// other five fields call for the same header checksum.
pub proof fn lemma_header_checksum_fields(f1: CommandFrame, f2: CommandFrame)
    requires
        f1.marker == f2.marker,
        f1.opcode == f2.opcode,
        f1.status == f2.status,
        f1.address == f2.address,
        f1.aux == f2.aux,
    ensures
        spec_header_checksum(f1) == spec_header_checksum(f2),
{
    lemma_auto_spec_u16_to_from_le_bytes();
    lemma_auto_spec_u32_to_from_le_bytes();
    assert(frame_bytes(f1).take(12) =~= frame_bytes(f2).take(12));
}

/// Compute the header checksum of `f`'s current field values.
pub fn header_checksum_of(f: &CommandFrame) -> (r: u16)
    ensures
        r == spec_header_checksum(*f),
{
    let enc = encode(f);
    let head = slice_subrange(enc.as_slice(), 0, HEADER_LEN);
    proof {
        assert(head@ =~= frame_bytes(*f).take(12));
        lemma_sum_bytes_bounds(head@);
        vstd::arithmetic::div_mod::lemma_small_mod(sum_bytes(head@) as nat, 0x1_0000_0000);
        vstd::arithmetic::div_mod::lemma_small_mod(sum_bytes(head@) as nat, 0x10000);
    }
    let sum = updater_calc_crc(head);
    sum as u16
}

/// Store in `f` the header checksum its other fields call for. This is the
/// last step of building an outbound frame: the checksum covers the final
/// field values, so it must be recomputed after any later field change.
pub fn finalize_header_checksum(f: &mut CommandFrame)
    ensures
        final(f).marker == old(f).marker,
        final(f).opcode == old(f).opcode,
        final(f).status == old(f).status,
        final(f).address == old(f).address,
        final(f).aux == old(f).aux,
        final(f).reserved == old(f).reserved,
        final(f).header_checksum == spec_header_checksum(*old(f)),
        header_valid(*final(f)),
{
    let c = header_checksum_of(f);
    f.header_checksum = c;
    proof {
        lemma_header_checksum_fields(*old(f), *f);
    }
}

} // verus!
