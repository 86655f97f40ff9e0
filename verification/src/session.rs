//! Protocol state machine for one update run.
//!
//! The host first puts the device into update mode by a handshake: it
//! transmits a fixed start sign over and over and watches for the fixed
//! acknowledgement. Once acknowledged, it answers device-issued commands
//! until the device reports completion:
//!
//! * opcode 1 — update check: reply with an empty acknowledgement frame.
//! * opcode 2 — data request: read up to one 512-byte chunk of the firmware
//!   image at the requested offset, reply with a frame carrying the chunk's
//!   checksum and the advanced address, then the raw chunk bytes.
//! * opcode 3 — status report: status `0xFF` means done; any other value is
//!   accepted and ignored.
//! * any other opcode — ignored, no reply.
//!
//! The machine is a pure transition function over [`Session`]: the driver
//! owns the byte channel and the firmware image, performs the reads and
//! writes a directive calls for, and hands the results back. A received
//! frame whose header checksum does not match is fatal: it is reported as an
//! error and never dispatched.

use vstd::prelude::*;
use vstd::arithmetic::div_mod::lemma_small_mod;
use vstd::slice::slice_index_get;
use crate::checksum::{lemma_sum_bytes_bounds, sum_bytes, updater_calc_crc};
use crate::frame::{
    finalize_header_checksum, header_checksum_of, header_valid, spec_header_checksum,
    CommandFrame, ProtocolError, HOST_MARKER,
};

verus! {

/// Opcode of a device update-check request.
pub const OPCODE_CHECK_UPDATE: u8 = 1;

/// Opcode of a device firmware-chunk request.
pub const OPCODE_SEND_DATA: u8 = 2;

/// Opcode of a device status report.
pub const OPCODE_REPORT_STATUS: u8 = 3;

/// Status value that reports the update as finished.
pub const STATUS_DONE: u8 = 0xFF;

/// Bytes transferred per firmware-chunk request.
pub const CHUNK_SIZE: usize = 512;

/// Milliseconds between handshake attempts. Synchronized with the device's
/// own timing; not arbitrary.
pub const HANDSHAKE_RETRY_DELAY_MS: u64 = 100;

/// Milliseconds between polls of the channel in the update loop.
/// Synchronized with the device's own timing; must not be shortened.
pub const POLL_DELAY_MS: u64 = 50;

/// Phases of the protocol, in order of a successful run.
#[derive(Clone, Copy, Debug, PartialEq, Eq, Structural)]
pub enum Phase {
    /// Initial: the start sign is being transmitted, no acknowledgement yet.
    AwaitingHandshakeAck,
    /// The device acknowledged the start sign.
    HandshakeAcked,
    /// The update loop is running: device commands are being answered.
    UpdateInProgress,
    /// Terminal: the device reported the update as finished.
    Complete,
}

/// One update run's state: the phase, the command received last, and the
/// address cursor (the offset right after the chunk sent last).
#[derive(Clone, Copy, Debug)]
pub struct Session {
    pub phase: Phase,
    pub last_cmd: Option<CommandFrame>,
    pub cursor: u32,
}

/// What the driver must do next with a dispatched command's answer.
#[derive(Clone, Copy, Debug, PartialEq, Eq, Structural)]
pub enum Directive {
    /// Encode this frame and write it to the channel.
    SendFrame(CommandFrame),
    /// Read up to 512 bytes of the firmware image at this offset, then hand
    /// them to [`Session::chunk_reply`]; a failure to read is fatal.
    FetchChunk(u32),
    /// Nothing to send.
    NoReply,
}

/// The bytes of `"START_UPD^_^"`, the sign the host transmits to start the
/// handshake.
pub open spec fn spec_start_sign() -> Seq<u8> {
    seq![0x53u8, 0x54, 0x41, 0x52, 0x54, 0x5F, 0x55, 0x50, 0x44, 0x5E, 0x5F, 0x5E]
}

/// The bytes of `"RECEIVESTART"`, the only response that acknowledges the
/// handshake.
pub open spec fn spec_ack_sign() -> Seq<u8> {
    seq![0x52u8, 0x45, 0x43, 0x45, 0x49, 0x56, 0x45, 0x53, 0x54, 0x41, 0x52, 0x54]
}

/// The start sign as a byte vector, for the driver to transmit.
pub fn start_sign() -> (v: Vec<u8>)
    ensures
        v@ == spec_start_sign(),
{
    let mut v: Vec<u8> = Vec::new();
    v.push(0x53);
    v.push(0x54);
    v.push(0x41);
    v.push(0x52);
    v.push(0x54);
    v.push(0x5F);
    v.push(0x55);
    v.push(0x50);
    v.push(0x44);
    v.push(0x5E);
    v.push(0x5F);
    v.push(0x5E);
    proof {
        assert(v@ =~= spec_start_sign());
    }
    v
}

/// The acknowledgement sign as a byte vector.
pub fn ack_sign() -> (v: Vec<u8>)
    ensures
        v@ == spec_ack_sign(),
{
    let mut v: Vec<u8> = Vec::new();
    v.push(0x52);
    v.push(0x45);
    v.push(0x43);
    v.push(0x45);
    v.push(0x49);
    v.push(0x56);
    v.push(0x45);
    v.push(0x53);
    v.push(0x54);
    v.push(0x41);
    v.push(0x52);
    v.push(0x54);
    proof {
        assert(v@ =~= spec_ack_sign());
    }
    v
}

/// Whether `response` is exactly the acknowledgement sign. Anything else —
/// a different string, extra bytes, or nothing at all — is no
/// acknowledgement.
pub fn is_handshake_ack(response: &[u8]) -> (r: bool)
    ensures
        r == (response@ == spec_ack_sign()),
{
    let expected = ack_sign();
    if response.len() != expected.len() {
        return false;
    }
    let mut i: usize = 0;
    while i < expected.len()
        invariant
            expected@ == spec_ack_sign(),
            response@.len() == expected@.len(),
            i <= expected@.len(),
            forall|k: int| 0 <= k < i ==> response@[k] == expected@[k],
        decreases expected@.len() - i,
    {
        if *slice_index_get(response, i) != expected[i] {
            return false;
        }
        i = i + 1;
    }
    proof {
        assert(response@ =~= spec_ack_sign());
    }
    true
}

/// `f` with the header checksum its other fields call for.
pub open spec fn spec_finalized(f: CommandFrame) -> CommandFrame {
    CommandFrame { header_checksum: spec_header_checksum(f), ..f }
}

/// The reply to an update-check request: an empty acknowledgement frame,
/// checksummed.
pub open spec fn spec_check_reply() -> CommandFrame {
    spec_finalized(
        CommandFrame {
            marker: HOST_MARKER,
            opcode: OPCODE_CHECK_UPDATE,
            status: 0,
            address: 0,
            aux: 0,
            header_checksum: 0,
            reserved: 0,
        },
    )
}

/// The reply to a chunk request at `offset` answered with `chunk`: the
/// address advanced by 512 (wrapping), the chunk's full-width checksum in
/// `aux`, checksummed.
pub open spec fn spec_chunk_reply(offset: u32, chunk: Seq<u8>) -> CommandFrame
    recommends
        chunk.len() <= 512,
{
    spec_finalized(
        CommandFrame {
            marker: HOST_MARKER,
            opcode: OPCODE_SEND_DATA,
            status: 0,
            address: ((offset + 512) % 0x1_0000_0000) as u32,
            aux: (sum_bytes(chunk) % 0x1_0000_0000) as u32,
            header_checksum: 0,
            reserved: 0,
        },
    )
}

/// The phase after dispatching `cmd` in phase `phase`: only a status report
/// of `0xFF` moves the machine, to `Complete`.
pub open spec fn spec_dispatch_phase(phase: Phase, cmd: CommandFrame) -> Phase {
    if cmd.opcode == OPCODE_REPORT_STATUS && cmd.status == STATUS_DONE {
        Phase::Complete
    } else {
        phase
    }
}

/// Dispatch only moves the phase forward: it keeps the current phase or
/// completes the run, and it completes exactly on a status report of
/// [`STATUS_DONE`]. Every other status value, and every other opcode, leaves
/// the phase alone.
pub proof fn lemma_dispatch_phase_monotone(phase: Phase, cmd: CommandFrame)
    ensures
        spec_dispatch_phase(phase, cmd) == phase || spec_dispatch_phase(phase, cmd)
            == Phase::Complete,
        spec_dispatch_phase(phase, cmd) == Phase::Complete <==> (phase == Phase::Complete || (
        cmd.opcode == OPCODE_REPORT_STATUS && cmd.status == STATUS_DONE)),
{
}

/// The driver work dispatching `cmd` calls for.
pub open spec fn spec_dispatch_directive(cmd: CommandFrame) -> Directive {
    if cmd.opcode == OPCODE_CHECK_UPDATE {
        Directive::SendFrame(spec_check_reply())
    } else if cmd.opcode == OPCODE_SEND_DATA {
        Directive::FetchChunk(cmd.address)
    } else {
        Directive::NoReply
    }
}

/// Build the update-check reply, its header checksum computed last.
pub fn build_check_reply() -> (f: CommandFrame)
    ensures
        f == spec_check_reply(),
        header_valid(f),
{
    let mut f = CommandFrame {
        marker: HOST_MARKER,
        opcode: OPCODE_CHECK_UPDATE,
        status: 0,
        address: 0,
        aux: 0,
        header_checksum: 0,
        reserved: 0,
    };
    finalize_header_checksum(&mut f);
    f
}

/// Build the chunk reply for `chunk` read at `offset`, its header checksum
/// computed last, after the address and the payload checksum are in place.
pub fn build_chunk_reply(offset: u32, chunk: &[u8]) -> (f: CommandFrame)
    requires
        chunk@.len() <= 512,
    ensures
        f == spec_chunk_reply(offset, chunk@),
        header_valid(f),
        f.opcode == OPCODE_SEND_DATA,
        f.address == ((offset + 512) % 0x1_0000_0000) as u32,
        f.aux == sum_bytes(chunk@),
{
    let aux = updater_calc_crc(chunk);
    proof {
        lemma_sum_bytes_bounds(chunk@);
        lemma_small_mod(sum_bytes(chunk@) as nat, 0x1_0000_0000);
    }
    let mut f = CommandFrame {
        marker: HOST_MARKER,
        opcode: OPCODE_SEND_DATA,
        status: 0,
        address: offset.wrapping_add(512),
        aux,
        header_checksum: 0,
        reserved: 0,
    };
    finalize_header_checksum(&mut f);
    f
}

impl Session {
    /// A fresh run: handshake not yet acknowledged, nothing received, cursor
    /// at the start of the image.
    pub fn new() -> (s: Session)
        ensures
            s.phase == Phase::AwaitingHandshakeAck,
            s.last_cmd is None,
            s.cursor == 0,
    {
        Session { phase: Phase::AwaitingHandshakeAck, last_cmd: None, cursor: 0 }
    }

    /// Feed one handshake response (the bytes read after transmitting the
    /// start sign; empty on a timeout). Exactly the acknowledgement sign
    /// moves the machine on; anything else leaves it waiting, to retry after
    /// [`HANDSHAKE_RETRY_DELAY_MS`].
    pub fn handshake_response(&mut self, response: &[u8])
        requires
            old(self).phase == Phase::AwaitingHandshakeAck,
        ensures
            final(self).phase == (if response@ == spec_ack_sign() {
                Phase::HandshakeAcked
            } else {
                Phase::AwaitingHandshakeAck
            }),
            final(self).last_cmd == old(self).last_cmd,
            final(self).cursor == old(self).cursor,
    {
        if is_handshake_ack(response) {
            self.phase = Phase::HandshakeAcked;
        }
    }

    /// Enter the update loop once the handshake is acknowledged.
    pub fn begin_update(&mut self)
        requires
            old(self).phase == Phase::HandshakeAcked,
        ensures
            final(self).phase == Phase::UpdateInProgress,
            final(self).last_cmd == old(self).last_cmd,
            final(self).cursor == old(self).cursor,
    {
        self.phase = Phase::UpdateInProgress;
    }

    /// Dispatch one received command.
    ///
    /// A frame whose header checksum does not match its header bytes is
    /// never dispatched: the run must abort on the returned error. A valid
    /// frame is recorded and answered by opcode: an update check calls for
    /// the acknowledgement frame, a data request calls for a chunk fetch, a
    /// status report of `0xFF` completes the run, and any other status or
    /// opcode is ignored without a reply.
    pub fn handle_command(&mut self, cmd: &CommandFrame) -> (r: Result<
        Directive,
        ProtocolError,
    >)
        requires
            old(self).phase == Phase::UpdateInProgress,
        ensures
            !header_valid(*cmd) ==> r == Err::<Directive, ProtocolError>(
                ProtocolError::ChecksumMismatch,
            ) && *final(self) == *old(self),
            header_valid(*cmd) ==> {
                &&& r == Ok::<Directive, ProtocolError>(spec_dispatch_directive(*cmd))
                &&& final(self).phase == spec_dispatch_phase(old(self).phase, *cmd)
                &&& final(self).last_cmd == Some(*cmd)
                &&& final(self).cursor == old(self).cursor
            },
    {
        let expect = header_checksum_of(cmd);
        if expect != cmd.header_checksum {
            return Err(ProtocolError::ChecksumMismatch);
        }
        self.last_cmd = Some(*cmd);
        if cmd.opcode == OPCODE_CHECK_UPDATE {
            Ok(Directive::SendFrame(build_check_reply()))
        } else if cmd.opcode == OPCODE_SEND_DATA {
            Ok(Directive::FetchChunk(cmd.address))
        } else if cmd.opcode == OPCODE_REPORT_STATUS {
            if cmd.status == STATUS_DONE {
                self.phase = Phase::Complete;
            }
            Ok(Directive::NoReply)
        } else {
            Ok(Directive::NoReply)
        }
    }

    /// Build the reply to the chunk fetch a [`Directive::FetchChunk`] called
    /// for, and advance the address cursor to the frame's new address. The
    /// driver writes the returned frame's encoding first, then the raw chunk
    /// bytes.
    pub fn chunk_reply(&mut self, offset: u32, chunk: &[u8]) -> (f: CommandFrame)
        requires
            old(self).phase == Phase::UpdateInProgress,
            chunk@.len() <= 512,
        ensures
            f == spec_chunk_reply(offset, chunk@),
            header_valid(f),
            final(self).cursor == f.address,
            final(self).phase == old(self).phase,
            final(self).last_cmd == old(self).last_cmd,
    {
        let f = build_chunk_reply(offset, chunk);
        self.cursor = f.address;
        f
    }
}

} // verus!
