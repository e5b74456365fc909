//! Framing between the agent and the user actor.
//!
//! A frame is an 8-byte header (payload length, message type, flags; little
//! endian) and its payload. Payloads over the cap are refused on the header, so
//! that nothing is allocated for them.

use vstd::prelude::*;

use crate::protocol::config::UserActorSettings;

verus! {

/// Length of a frame header.
pub const HEADER_LEN: usize = 8;

/// Largest payload of a frame: 16 MiB.
pub const MAX_PAYLOAD: u32 = 0x100_0000;

/// Version that both sides must speak.
pub const IPC_PROTOCOL_VERSION: u32 = 1;

/// Client to agent: who it is, and the nonce.
pub const HELLO: u16 = 1;

/// Agent to client: the configuration.
pub const WELCOME: u16 = 2;

/// Client to agent: send the configuration again.
pub const GET_CONFIG: u16 = 3;

/// Client to agent: one screenshot.
pub const SCREENSHOT: u16 = 4;

/// Either way: something went wrong.
pub const ERROR: u16 = 5;

/// A frame header.
#[derive(Debug, Clone, Copy, PartialEq, Eq, Structural)]
pub struct FrameHeader {
    /// Length of the payload.
    pub payload_len: u32,
    /// What the payload is.
    pub message_type: u16,
    /// Reserved.
    pub flags: u16,
}

/// Violations of the framing.
#[derive(Debug, Clone, Copy, PartialEq, Eq, Structural)]
pub enum FrameError {
    /// The payload is over the cap.
    PayloadTooLarge(u32),
    /// A screenshot payload is too short for its sequence number.
    ShortScreenshot,
}

/// `HELLO`.
#[derive(Debug, PartialEq, Eq)]
pub struct Hello {
    /// Version the client speaks.
    pub protocol: u32,
    /// The per-boot secret that the client was launched with.
    pub nonce: String,
    /// The client's version.
    pub module_version: String,
}

/// `WELCOME`.
#[derive(Debug, Clone, Copy, PartialEq, Eq, Structural)]
pub struct Welcome {
    /// The current session.
    pub session_id: u32,
    /// The client's configuration.
    pub config: UserActorSettings,
}

/// Two bytes, little endian.
pub open spec fn le16(value: u16) -> Seq<u8> {
    seq![(value % 256) as u8, (value / 256) as u8]
}

/// Four bytes, little endian.
pub open spec fn le32(value: u32) -> Seq<u8> {
    seq![
        (value % 256) as u8,
        (value / 256 % 256) as u8,
        (value / 65536 % 256) as u8,
        (value / 16777216) as u8,
    ]
}

/// The number of two bytes, little endian.
pub open spec fn from_le16(bytes: Seq<u8>, at: int) -> u16 {
    (bytes[at] + 256 * bytes[at + 1]) as u16
}

/// The number of four bytes, little endian.
pub open spec fn from_le32(bytes: Seq<u8>, at: int) -> u32 {
    (bytes[at] + 256 * bytes[at + 1] + 65536 * bytes[at + 2] + 16777216 * bytes[at + 3]) as u32
}

/// The number of two bytes, little endian.
pub fn read_le16(bytes: &[u8], at: usize) -> (value: u16)
    requires
        at + 2 <= bytes@.len(),
    ensures
        value == from_le16(bytes@, at as int),
{
    bytes[at] as u16 + 256 * (bytes[at + 1] as u16)
}

/// The number of four bytes, little endian.
pub fn read_le32(bytes: &[u8], at: usize) -> (value: u32)
    requires
        at + 4 <= bytes@.len(),
    ensures
        value == from_le32(bytes@, at as int),
{
    bytes[at] as u32 + 256 * (bytes[at + 1] as u32) + 65536 * (bytes[at + 2] as u32) + 16777216 * (
    bytes[at + 3] as u32)
}

/// What is read of a header's bytes.
pub open spec fn header_read(bytes: Seq<u8>, header: Result<FrameHeader, FrameError>) -> bool {
    let length = from_le32(bytes, 0);
    match header {
        Ok(header) => {
            &&& length <= MAX_PAYLOAD
            &&& header == FrameHeader {
                payload_len: length,
                message_type: from_le16(bytes, 4),
                flags: from_le16(bytes, 6),
            }
        },
        Err(error) => length > MAX_PAYLOAD && error == FrameError::PayloadTooLarge(length),
    }
}

impl FrameHeader {
    /// The header's bytes.
    pub open spec fn bytes(self) -> Seq<u8> {
        le32(self.payload_len) + le16(self.message_type) + le16(self.flags)
    }

    /// The header's bytes.
    pub fn to_bytes(&self) -> (bytes: [u8; 8])
        ensures
            bytes@ == self.bytes(),
    {
        let length: u32 = self.payload_len;
        let bytes: [u8; 8] = [
            (length % 256) as u8,
            (length / 256 % 256) as u8,
            (length / 65536 % 256) as u8,
            (length / 16777216) as u8,
            (self.message_type % 256) as u8,
            (self.message_type / 256) as u8,
            (self.flags % 256) as u8,
            (self.flags / 256) as u8,
        ];
        proof {
            assert(bytes@ =~= self.bytes());
        }
        bytes
    }

    /// Read a header, and refuse a payload over the cap.
    pub fn from_bytes(bytes: &[u8; 8]) -> (header: Result<FrameHeader, FrameError>)
        ensures
            header_read(bytes@, header),
    {
        let slice = bytes.as_slice();
        let payload_len: u32 = read_le32(slice, 0);
        if payload_len > MAX_PAYLOAD {
            return Err(FrameError::PayloadTooLarge(payload_len));
        }
        Ok(
            FrameHeader {
                payload_len,
                message_type: read_le16(slice, 4),
                flags: read_le16(slice, 6),
            },
        )
    }
}

/// A header within the cap is read back as it was written.
pub proof fn law_header_round_trips(header: FrameHeader)
    ensures
        header.bytes().len() == HEADER_LEN,
        from_le32(header.bytes(), 0) == header.payload_len,
        from_le16(header.bytes(), 4) == header.message_type,
        from_le16(header.bytes(), 6) == header.flags,
{
    let length = header.payload_len;
    let bytes = header.bytes();
    assert(bytes[0] == (length % 256) as u8);
    assert(bytes[1] == (length / 256 % 256) as u8);
    assert(bytes[2] == (length / 65536 % 256) as u8);
    assert(bytes[3] == (length / 16777216) as u8);
    assert(length == length % 256 + 256 * (length / 256 % 256) + 65536 * (length / 65536 % 256)
        + 16777216 * (length / 16777216));
}

/// What is read of a screenshot's payload.
pub open spec fn screenshot_read(
    payload: Seq<u8>,
    decoded: Result<(u32, Vec<u8>), FrameError>,
) -> bool {
    match decoded {
        Ok((seq, jpeg)) => {
            &&& payload.len() >= 4
            &&& seq == from_le32(payload, 0)
            &&& jpeg@ == payload.skip(4)
        },
        Err(error) => payload.len() < 4 && error == FrameError::ShortScreenshot,
    }
}

/// What a header writes it reads again: the same length, type and flags, or the
/// refusal of a length over the cap. The bytes count from the lowest up.
pub proof fn law_headers_are_read_as_written(
    header: FrameHeader,
    reread: Result<FrameHeader, FrameError>,
)
    requires
        header_read(header.bytes(), reread),
    ensures
        header.payload_len <= MAX_PAYLOAD ==> reread == Ok::<FrameHeader, FrameError>(header),
        header.payload_len > MAX_PAYLOAD ==> reread == Err::<FrameHeader, FrameError>(
            FrameError::PayloadTooLarge(header.payload_len),
        ),
        header.bytes()[0] == header.payload_len % 256,
        header.bytes()[3] == header.payload_len / 16777216,
        header.bytes()[4] == header.message_type % 256,
        header.bytes()[6] == header.flags % 256,
{
    law_header_round_trips(header);
}

/// A screenshot's payload holds its number and its bytes.
pub proof fn lemma_screenshot_bytes(seq: u32, jpeg: Seq<u8>)
    ensures
        (le32(seq) + jpeg).len() == 4 + jpeg.len(),
        from_le32(le32(seq) + jpeg, 0) == seq,
        (le32(seq) + jpeg).skip(4) == jpeg,
{
    let payload = le32(seq) + jpeg;
    assert(payload[0] == (seq % 256) as u8);
    assert(payload[1] == (seq / 256 % 256) as u8);
    assert(payload[2] == (seq / 65536 % 256) as u8);
    assert(payload[3] == (seq / 16777216) as u8);
    assert(seq == seq % 256 + 256 * (seq / 256 % 256) + 65536 * (seq / 65536 % 256) + 16777216 * (seq
        / 16777216));
    assert(payload.skip(4) =~= jpeg);
}

/// A screenshot that was sent as its number, the lowest byte first, and its JPEG
/// bytes arrives as these; a payload too short for the number is refused.
pub proof fn law_screenshots_arrive_whole(
    seq: u32,
    jpeg: Seq<u8>,
    decoded: Result<(u32, Vec<u8>), FrameError>,
)
    requires
        screenshot_read(le32(seq) + jpeg, decoded),
    ensures
        decoded matches Ok((number, bytes)) && number == seq && bytes@ == jpeg,
        le32(seq)[0] == seq % 256,
        le32(seq)[3] == seq / 16777216,
{
    lemma_screenshot_bytes(seq, jpeg);
}

/// Split a screenshot payload: its sequence number, then the JPEG bytes.
pub fn decode_screenshot(payload: &Vec<u8>) -> (decoded: Result<(u32, Vec<u8>), FrameError>)
    ensures
        screenshot_read(payload@, decoded),
{
    if payload.len() < 4 {
        return Err(FrameError::ShortScreenshot);
    }
    let seq: u32 = read_le32(payload.as_slice(), 0);
    let mut jpeg: Vec<u8> = Vec::new();
    let mut at: usize = 4;
    while at < payload.len()
        invariant
            4 <= at <= payload@.len(),
            jpeg@ == payload@.subrange(4, at as int),
        decreases payload@.len() - at,
    {
        jpeg.push(payload[at]);
        at = at + 1;
        proof {
            assert(jpeg@ =~= payload@.subrange(4, at as int));
        }
    }
    proof {
        assert(jpeg@ =~= payload@.skip(4));
    }
    Ok((seq, jpeg))
}

} // verus!
