//! The length-framed wire protocol spoken with the parent process.
//!
//! Every message travels as one frame: a control header, an internal
//! header, a single continuation byte and the message body. All header
//! integers are 32 bits wide, little-endian on the wire. Framing is pure
//! computation over bytes; the blocking reads and writes that move a
//! frame across the inherited handle stay outside this crate.

use vstd::bytes::{
    lemma_auto_spec_u32_to_from_le_bytes, spec_u32_from_le_bytes, spec_u32_to_le_bytes,
    u32_from_le_bytes, u32_to_le_bytes,
};
use vstd::prelude::*;
use vstd::slice::{slice_index_get, slice_subrange, slice_to_vec};

verus! {

/// The only command value the bridge services: an application message.
pub const COMMAND_APPLICATION_MESSAGE: u32 = 2;

/// Magic constant identifying the application-level wire format.
pub const PROTOCOL_VERSION: u32 = 0xd3c0_de01;

/// Wire size of a `ControlHeader`.
pub const CONTROL_HEADER_SIZE: u32 = 16;

/// Wire size of an `InternalHeader`.
pub const INTERNAL_HEADER_SIZE: u32 = 16;

/// Bytes that follow the control header before the body: the internal
/// header and the continuation byte. `payload_length` counts these, so a
/// frame with any body at all has `payload_length > FRAME_OVERHEAD`.
pub const FRAME_OVERHEAD: u32 = 17;

/// Fixed-size record prefixing every message in either direction.
#[derive(Clone, Copy, Debug, PartialEq, Eq, Structural)]
pub struct ControlHeader {
    /// Enumerated tag; only `COMMAND_APPLICATION_MESSAGE` is serviced.
    pub command: u32,
    /// Identifier of the sending process; carried but never validated,
    /// since trust rests on channel ownership.
    pub sender_id: u32,
    /// Byte length of everything after this header for this message,
    /// including the internal header and the continuation byte.
    pub payload_length: u32,
    /// Out-of-band OS handles transferred with the message; only 0 is
    /// supported.
    pub descriptor_count: u32,
}

/// Fixed-size record immediately following the control header.
#[derive(Clone, Copy, Debug, PartialEq, Eq, Structural)]
pub struct InternalHeader {
    /// Must equal `PROTOCOL_VERSION` on every received frame.
    pub protocol_version: u32,
    /// Size of an optional descriptor-metadata block; only 0 is supported.
    pub descriptor_bytes: u32,
    /// Reserved; round-trips but carries no meaning.
    pub reserved0: u32,
    /// Reserved; round-trips but carries no meaning.
    pub reserved1: u32,
}

/// Everything that can go wrong while framing or unframing a message.
#[derive(Clone, Copy, Debug, PartialEq, Eq, Structural)]
pub enum ChannelError {
    /// A received control header carried a command other than
    /// `COMMAND_APPLICATION_MESSAGE`.
    UnsupportedCommand,
    /// A received header announced out-of-band descriptors, which the
    /// bridge does not implement.
    UnsupportedDescriptors,
    /// A received `payload_length` too small to contain the internal
    /// header, the continuation byte and at least one body byte.
    Malformed,
    /// A received internal header carried the wrong `protocol_version`.
    VersionMismatch,
    /// A received continuation byte was nonzero; multi-frame messages are
    /// not implemented.
    UnsupportedContinuation,
    /// The underlying handle delivered fewer bytes than the frame needs.
    ReadFailed,
    /// The underlying handle accepted fewer bytes than were given to it.
    WriteFailed,
}

/// The diagnostic text for a channel error, one line per violated
/// invariant, written to the local diagnostic sink before the process
/// terminates.
pub open spec fn spec_channel_error_text(e: ChannelError) -> Seq<char> {
    match e {
        ChannelError::UnsupportedCommand => "unhandled command"@,
        ChannelError::UnsupportedDescriptors => "out-of-band descriptors are not supported"@,
        ChannelError::Malformed => "message length too low"@,
        ChannelError::VersionMismatch => "protocol version mismatch"@,
        ChannelError::UnsupportedContinuation => "continuation frames are not supported"@,
        ChannelError::ReadFailed => "read failed"@,
        ChannelError::WriteFailed => "write failed"@,
    }
}

impl ChannelError {
    /// The diagnostic text identifying the violated invariant.
    pub fn message(&self) -> (s: &'static str)
        ensures
            s@ == spec_channel_error_text(*self),
    {
        match self {
            ChannelError::UnsupportedCommand => "unhandled command",
            ChannelError::UnsupportedDescriptors => "out-of-band descriptors are not supported",
            ChannelError::Malformed => "message length too low",
            ChannelError::VersionMismatch => "protocol version mismatch",
            ChannelError::UnsupportedContinuation => "continuation frames are not supported",
            ChannelError::ReadFailed => "read failed",
            ChannelError::WriteFailed => "write failed",
        }
    }
}

/// The wire bytes of a control header: four little-endian 32-bit fields.
pub open spec fn spec_control_header_bytes(h: ControlHeader) -> Seq<u8> {
    spec_u32_to_le_bytes(h.command) + spec_u32_to_le_bytes(h.sender_id)
        + spec_u32_to_le_bytes(h.payload_length) + spec_u32_to_le_bytes(h.descriptor_count)
}

/// The wire bytes of an internal header: four little-endian 32-bit fields.
pub open spec fn spec_internal_header_bytes(h: InternalHeader) -> Seq<u8> {
    spec_u32_to_le_bytes(h.protocol_version) + spec_u32_to_le_bytes(h.descriptor_bytes)
        + spec_u32_to_le_bytes(h.reserved0) + spec_u32_to_le_bytes(h.reserved1)
}

/// The control header read from the first 16 of the given bytes.
pub open spec fn spec_parse_control_header(b: Seq<u8>) -> ControlHeader
    recommends
        b.len() >= CONTROL_HEADER_SIZE,
{
    ControlHeader {
        command: spec_u32_from_le_bytes(b.subrange(0, 4)),
        sender_id: spec_u32_from_le_bytes(b.subrange(4, 8)),
        payload_length: spec_u32_from_le_bytes(b.subrange(8, 12)),
        descriptor_count: spec_u32_from_le_bytes(b.subrange(12, 16)),
    }
}

/// The internal header read from the first 16 of the given bytes.
pub open spec fn spec_parse_internal_header(b: Seq<u8>) -> InternalHeader
    recommends
        b.len() >= INTERNAL_HEADER_SIZE,
{
    InternalHeader {
        protocol_version: spec_u32_from_le_bytes(b.subrange(0, 4)),
        descriptor_bytes: spec_u32_from_le_bytes(b.subrange(4, 8)),
        reserved0: spec_u32_from_le_bytes(b.subrange(8, 12)),
        reserved1: spec_u32_from_le_bytes(b.subrange(12, 16)),
    }
}

/// Serialise a control header into its 16 wire bytes.
pub fn encode_control_header(h: &ControlHeader) -> (r: Vec<u8>)
    ensures
        r@ == spec_control_header_bytes(*h),
        r@.len() == CONTROL_HEADER_SIZE,
{
    proof {
        lemma_auto_spec_u32_to_from_le_bytes();
    }
    let mut r = u32_to_le_bytes(h.command);
    let mut rest = u32_to_le_bytes(h.sender_id);
    r.append(&mut rest);
    let mut rest = u32_to_le_bytes(h.payload_length);
    r.append(&mut rest);
    let mut rest = u32_to_le_bytes(h.descriptor_count);
    r.append(&mut rest);
    r
}

/// Serialise an internal header into its 16 wire bytes.
pub fn encode_internal_header(h: &InternalHeader) -> (r: Vec<u8>)
    ensures
        r@ == spec_internal_header_bytes(*h),
        r@.len() == INTERNAL_HEADER_SIZE,
{
    proof {
        lemma_auto_spec_u32_to_from_le_bytes();
    }
    let mut r = u32_to_le_bytes(h.protocol_version);
    let mut rest = u32_to_le_bytes(h.descriptor_bytes);
    r.append(&mut rest);
    let mut rest = u32_to_le_bytes(h.reserved0);
    r.append(&mut rest);
    let mut rest = u32_to_le_bytes(h.reserved1);
    r.append(&mut rest);
    r
}

/// The outcome of the checks `receive` runs on a control header, in the
/// order it runs them: the command must be the one serviced application
/// message, no out-of-band descriptors may be announced, and the payload
/// must hold at least one body byte beyond the internal header and the
/// continuation byte.
pub open spec fn spec_validate_control_header(h: ControlHeader) -> Result<(), ChannelError> {
    if h.command != COMMAND_APPLICATION_MESSAGE {
        Err(ChannelError::UnsupportedCommand)
    } else if h.descriptor_count != 0 {
        Err(ChannelError::UnsupportedDescriptors)
    } else if h.payload_length <= FRAME_OVERHEAD {
        Err(ChannelError::Malformed)
    } else {
        Ok(())
    }
}

/// The outcome of the checks `receive` runs on an internal header and the
/// continuation byte that follows it: the protocol version must match, no
/// descriptor metadata may be announced, and the message must be complete
/// in this frame. Each mismatch is its own fatal error kind.
pub open spec fn spec_validate_internal_header(h: InternalHeader, continuation: u8) -> Result<
    (),
    ChannelError,
> {
    if h.protocol_version != PROTOCOL_VERSION {
        Err(ChannelError::VersionMismatch)
    } else if h.descriptor_bytes != 0 {
        Err(ChannelError::UnsupportedDescriptors)
    } else if continuation != 0 {
        Err(ChannelError::UnsupportedContinuation)
    } else {
        Ok(())
    }
}

/// Check a received control header before anything after it is read.
pub fn validate_control_header(h: &ControlHeader) -> (r: Result<(), ChannelError>)
    ensures
        r == spec_validate_control_header(*h),
{
    if h.command != COMMAND_APPLICATION_MESSAGE {
        Err(ChannelError::UnsupportedCommand)
    } else if h.descriptor_count != 0 {
        Err(ChannelError::UnsupportedDescriptors)
    } else if h.payload_length <= FRAME_OVERHEAD {
        Err(ChannelError::Malformed)
    } else {
        Ok(())
    }
}

/// Check a received internal header and its continuation byte.
pub fn validate_internal_header(h: &InternalHeader, continuation: u8) -> (r: Result<
    (),
    ChannelError,
>)
    ensures
        r == spec_validate_internal_header(*h, continuation),
{
    if h.protocol_version != PROTOCOL_VERSION {
        Err(ChannelError::VersionMismatch)
    } else if h.descriptor_bytes != 0 {
        Err(ChannelError::UnsupportedDescriptors)
    } else if continuation != 0 {
        Err(ChannelError::UnsupportedContinuation)
    } else {
        Ok(())
    }
}

/// How many body bytes follow the headers of a frame whose control
/// header passed validation.
pub fn body_length(h: &ControlHeader) -> (n: u32)
    requires
        h.payload_length > FRAME_OVERHEAD,
    ensures
        n == h.payload_length - FRAME_OVERHEAD,
{
    h.payload_length - FRAME_OVERHEAD
}

/// The control header `send` builds for a body of `body_len` bytes.
pub open spec fn spec_send_control_header(body_len: nat) -> ControlHeader
    recommends
        body_len + FRAME_OVERHEAD <= u32::MAX,
{
    ControlHeader {
        command: COMMAND_APPLICATION_MESSAGE,
        sender_id: 0,
        payload_length: (body_len + FRAME_OVERHEAD) as u32,
        descriptor_count: 0,
    }
}

/// The internal header `send` builds: the fixed protocol version and
/// zeroed descriptor and reserved fields.
pub open spec fn spec_send_internal_header() -> InternalHeader {
    InternalHeader {
        protocol_version: PROTOCOL_VERSION,
        descriptor_bytes: 0,
        reserved0: 0,
        reserved1: 0,
    }
}

/// The complete frame `send` puts on the wire for a body: control header,
/// internal header, one zero continuation byte, then the body.
pub open spec fn spec_frame_bytes(body: Seq<u8>) -> Seq<u8>
    recommends
        1 <= body.len(),
        body.len() + FRAME_OVERHEAD <= u32::MAX,
{
    spec_control_header_bytes(spec_send_control_header(body.len()))
        + spec_internal_header_bytes(spec_send_internal_header()) + seq![0u8] + body
}

/// Build the frame that carries `body` to the peer. The caller hands the
/// result to the channel handle in one or more writes; a write that
/// transfers less than all of it desynchronizes the stream and is fatal.
/// A message always carries at least one body byte.
pub fn frame_message(body: &[u8]) -> (frame: Vec<u8>)
    requires
        1 <= body@.len(),
        body@.len() + FRAME_OVERHEAD <= u32::MAX,
    ensures
        frame@ == spec_frame_bytes(body@),
        frame@.len() == body@.len() + FRAME_OVERHEAD + CONTROL_HEADER_SIZE,
{
    proof {
        lemma_auto_spec_u32_to_from_le_bytes();
    }
    let header = ControlHeader {
        command: COMMAND_APPLICATION_MESSAGE,
        sender_id: 0,
        payload_length: (body.len() as u32) + FRAME_OVERHEAD,
        descriptor_count: 0,
    };
    let internal = InternalHeader {
        protocol_version: PROTOCOL_VERSION,
        descriptor_bytes: 0,
        reserved0: 0,
        reserved1: 0,
    };
    let mut frame = encode_control_header(&header);
    let mut rest = encode_internal_header(&internal);
    frame.append(&mut rest);
    frame.push(0u8);
    let mut body_copy = slice_to_vec(body);
    frame.append(&mut body_copy);
    proof {
        assert(frame@ =~= spec_frame_bytes(body@));
    }
    frame
}

/// Read a control header back from the first 16 bytes of a buffer.
pub fn parse_control_header(bytes: &[u8]) -> (h: ControlHeader)
    requires
        bytes@.len() >= CONTROL_HEADER_SIZE,
    ensures
        h == spec_parse_control_header(bytes@),
{
    ControlHeader {
        command: u32_from_le_bytes(slice_subrange(bytes, 0, 4)),
        sender_id: u32_from_le_bytes(slice_subrange(bytes, 4, 8)),
        payload_length: u32_from_le_bytes(slice_subrange(bytes, 8, 12)),
        descriptor_count: u32_from_le_bytes(slice_subrange(bytes, 12, 16)),
    }
}

/// Read an internal header back from the first 16 bytes of a buffer.
pub fn parse_internal_header(bytes: &[u8]) -> (h: InternalHeader)
    requires
        bytes@.len() >= INTERNAL_HEADER_SIZE,
    ensures
        h == spec_parse_internal_header(bytes@),
{
    InternalHeader {
        protocol_version: u32_from_le_bytes(slice_subrange(bytes, 0, 4)),
        descriptor_bytes: u32_from_le_bytes(slice_subrange(bytes, 4, 8)),
        reserved0: u32_from_le_bytes(slice_subrange(bytes, 8, 12)),
        reserved1: u32_from_le_bytes(slice_subrange(bytes, 12, 16)),
    }
}

/// What `receive` makes of one complete frame, worked out over the raw
/// bytes. The checks run in the order the bytes arrive, so a frame whose
/// control header is rejected never has its later bytes looked at; a
/// buffer that ends before the frame does stands for a short read.
pub open spec fn spec_decode_frame(frame: Seq<u8>) -> Result<Seq<u8>, ChannelError> {
    if frame.len() < CONTROL_HEADER_SIZE {
        Err(ChannelError::ReadFailed)
    } else {
        let control = spec_parse_control_header(frame);
        match spec_validate_control_header(control) {
            Err(e) => Err(e),
            Ok(()) => if frame.len() < CONTROL_HEADER_SIZE + INTERNAL_HEADER_SIZE + 1 {
                Err(ChannelError::ReadFailed)
            } else {
                let internal = spec_parse_internal_header(frame.skip(CONTROL_HEADER_SIZE as int));
                let continuation = frame[CONTROL_HEADER_SIZE + INTERNAL_HEADER_SIZE];
                match spec_validate_internal_header(internal, continuation) {
                    Err(e) => Err(e),
                    Ok(()) => {
                        let body_len = control.payload_length - FRAME_OVERHEAD;
                        if frame.len() < CONTROL_HEADER_SIZE + INTERNAL_HEADER_SIZE + 1
                            + body_len {
                            Err(ChannelError::ReadFailed)
                        } else {
                            Ok(
                                frame.subrange(
                                    CONTROL_HEADER_SIZE + INTERNAL_HEADER_SIZE + 1,
                                    CONTROL_HEADER_SIZE + INTERNAL_HEADER_SIZE + 1 + body_len,
                                ),
                            )
                        }
                    },
                }
            },
        }
    }
}

/// Take one received frame apart and hand back its body. Every protocol
/// violation is fatal: the peer is a tightly-versioned control process,
/// so a frame that breaks the rules means the byte stream itself can no
/// longer be interpreted and the session must end.
pub fn decode_frame(frame: &[u8]) -> (r: Result<Vec<u8>, ChannelError>)
    ensures
        r matches Ok(body) ==> spec_decode_frame(frame@) == Ok::<Seq<u8>, ChannelError>(body@),
        r matches Err(e) ==> spec_decode_frame(frame@) == Err::<Seq<u8>, ChannelError>(e),
{
    if frame.len() < 16 {
        return Err(ChannelError::ReadFailed);
    }
    let control = parse_control_header(frame);
    match validate_control_header(&control) {
        Err(e) => { return Err(e) },
        Ok(()) => {},
    }
    if frame.len() < 33 {
        return Err(ChannelError::ReadFailed);
    }
    let internal = parse_internal_header(slice_subrange(frame, 16, frame.len()));
    let continuation = *slice_index_get(frame, 32);
    match validate_internal_header(&internal, continuation) {
        Err(e) => { return Err(e) },
        Ok(()) => {},
    }
    let body_len = body_length(&control) as usize;
    if frame.len() - 33 < body_len {
        return Err(ChannelError::ReadFailed);
    }
    Ok(slice_to_vec(slice_subrange(frame, 33, 33 + body_len)))
}

/// Framing loses nothing: for every body of at least one byte whose
/// frame fits the 32-bit payload length, receiving the frame that `send`
/// builds yields exactly that body again.
pub proof fn lemma_frame_round_trip(body: Seq<u8>)
    requires
        1 <= body.len(),
        body.len() + FRAME_OVERHEAD <= u32::MAX,
    ensures
        spec_decode_frame(spec_frame_bytes(body)) == Ok::<Seq<u8>, ChannelError>(body),
{
    lemma_auto_spec_u32_to_from_le_bytes();
    let h = spec_send_control_header(body.len());
    let ih = spec_send_internal_header();
    let frame = spec_frame_bytes(body);
    assert(spec_control_header_bytes(h).len() == 16);
    assert(spec_internal_header_bytes(ih).len() == 16);
    assert(frame.len() == 33 + body.len());
    assert(frame.subrange(0, 4) =~= spec_u32_to_le_bytes(h.command));
    assert(frame.subrange(4, 8) =~= spec_u32_to_le_bytes(h.sender_id));
    assert(frame.subrange(8, 12) =~= spec_u32_to_le_bytes(h.payload_length));
    assert(frame.subrange(12, 16) =~= spec_u32_to_le_bytes(h.descriptor_count));
    assert(spec_parse_control_header(frame) == h);
    let tail = frame.skip(16);
    assert(tail.subrange(0, 4) =~= spec_u32_to_le_bytes(ih.protocol_version));
    assert(tail.subrange(4, 8) =~= spec_u32_to_le_bytes(ih.descriptor_bytes));
    assert(tail.subrange(8, 12) =~= spec_u32_to_le_bytes(ih.reserved0));
    assert(tail.subrange(12, 16) =~= spec_u32_to_le_bytes(ih.reserved1));
    assert(spec_parse_internal_header(tail) == ih);
    assert(frame[32] == 0u8);
    assert(h.payload_length == body.len() + FRAME_OVERHEAD);
    assert(frame.subrange(33, 33 + body.len() as int) =~= body);
}

/// A frame whose control header carries any command other than the
/// application message is rejected with the unsupported-command kind,
/// whatever else the frame holds, and no body ever comes back.
pub proof fn lemma_receive_rejects_unsupported_command(frame: Seq<u8>)
    requires
        frame.len() >= CONTROL_HEADER_SIZE,
        spec_parse_control_header(frame).command != COMMAND_APPLICATION_MESSAGE,
    ensures
        spec_decode_frame(frame) == Err::<Seq<u8>, ChannelError>(ChannelError::UnsupportedCommand),
{
}

/// A frame whose internal header carries any protocol version other than
/// the fixed magic is rejected with the version-mismatch kind, provided
/// its control header alone gave no earlier reason to reject it.
pub proof fn lemma_receive_rejects_version_mismatch(frame: Seq<u8>)
    requires
        frame.len() >= CONTROL_HEADER_SIZE + INTERNAL_HEADER_SIZE + 1,
        spec_validate_control_header(spec_parse_control_header(frame)) is Ok,
        spec_parse_internal_header(frame.skip(CONTROL_HEADER_SIZE as int)).protocol_version
            != PROTOCOL_VERSION,
    ensures
        spec_decode_frame(frame) == Err::<Seq<u8>, ChannelError>(ChannelError::VersionMismatch),
{
}

/// A frame that announces out-of-band descriptors in its control header
/// never yields a body, however well-formed the rest of the frame is.
pub proof fn lemma_receive_rejects_descriptor_count(frame: Seq<u8>)
    requires
        frame.len() >= CONTROL_HEADER_SIZE,
        spec_parse_control_header(frame).descriptor_count != 0,
    ensures
        spec_decode_frame(frame) is Err,
{
}

/// A frame that announces descriptor metadata in its internal header
/// never yields a body, however well-formed the rest of the frame is.
pub proof fn lemma_receive_rejects_descriptor_bytes(frame: Seq<u8>)
    requires
        frame.len() >= CONTROL_HEADER_SIZE + INTERNAL_HEADER_SIZE + 1,
        spec_parse_internal_header(frame.skip(CONTROL_HEADER_SIZE as int)).descriptor_bytes != 0,
    ensures
        spec_decode_frame(frame) is Err,
{
}

/// A received body is never empty: the wire format cannot represent a
/// zero-length application payload, so any frame that claims one is
/// rejected before its body would be read.
pub proof fn lemma_received_body_nonempty(frame: Seq<u8>)
    ensures
        spec_decode_frame(frame) matches Ok(body) ==> 1 <= body.len(),
{
}

/// The fixed four-byte capability announcement: ABI version 3, encoded
/// little-endian, sent once before any application traffic flows.
pub fn handshake_body() -> (b: Vec<u8>)
    ensures
        b@ == seq![3u8, 0u8, 0u8, 0u8],
{
    let mut b: Vec<u8> = Vec::new();
    b.push(3u8);
    b.push(0u8);
    b.push(0u8);
    b.push(0u8);
    proof {
        assert(b@ =~= seq![3u8, 0u8, 0u8, 0u8]);
    }
    b
}

/// The complete frame of the startup capability announcement.
pub fn handshake_frame() -> (frame: Vec<u8>)
    ensures
        frame@ == spec_frame_bytes(seq![3u8, 0u8, 0u8, 0u8]),
        frame@.len() == 37,
{
    let body = handshake_body();
    frame_message(body.as_slice())
}

} // verus!
