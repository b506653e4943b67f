//! Frame codec: recognition and decoding of the treadmill's telemetry frame,
//! and construction of the fixed poll command.

use vstd::prelude::*;

verus! {

/// Decoding failure: the magic prefix matched but the buffer is too short to
/// hold every field.
#[derive(Clone, Copy, Debug, PartialEq, Eq, Structural)]
pub enum DecodeError {
    MalformedFrame,
}

/// The 24-bit big-endian unsigned integer stored at `offset` in `s`.
pub open spec fn be24(s: Seq<u8>, offset: int) -> int {
    (s[offset] as int) * 0x10000 + (s[offset + 1] as int) * 0x100 + (s[offset + 2] as int)
}

/// Reads the treadmill's unusual 24-bit big-endian integer at `offset`,
/// or fails when the 3-byte window does not fit in `bytes`.
pub fn extract_value(bytes: &[u8], offset: usize) -> (r: Result<u32, DecodeError>)
    ensures
        offset + 3 <= bytes@.len() ==> r.is_ok() && r.unwrap() == be24(bytes@, offset as int),
        offset + 3 > bytes@.len() ==> r == Err::<u32, DecodeError>(DecodeError::MalformedFrame),
{
    if bytes.len() >= 3 && offset <= bytes.len() - 3 {
        let hi = bytes[offset];
        let mid = bytes[offset + 1];
        let lo = bytes[offset + 2];
        Ok((hi as u32) * 0x10000 + (mid as u32) * 0x100 + (lo as u32))
    } else {
        Err(DecodeError::MalformedFrame)
    }
}

/// One decoded telemetry report. Speed is in tenths of km/h, elapsed time in
/// seconds, distance in centimeters, steps a raw count.
#[derive(Clone, Copy, Debug, PartialEq, Eq, Structural)]
pub struct Telemetry {
    pub speed: u8,
    pub time: u32,
    pub distance: u32,
    pub steps: u32,
}

/// True when the buffer begins with the telemetry frame's magic prefix.
pub open spec fn has_magic(s: Seq<u8>) -> bool {
    s.len() >= 2 && s[0] == 0xf8u8 && s[1] == 0xa2u8
}

/// A telemetry frame must cover all fields: magic through the steps field.
pub const MIN_FRAME_LEN: usize = 14;

/// The report held by a well-formed telemetry frame: speed at offset 3 and
/// three 24-bit big-endian integers at offsets 5, 8 and 11.
pub open spec fn telemetry_of(s: Seq<u8>) -> Telemetry
    recommends
        s.len() >= MIN_FRAME_LEN,
{
    Telemetry {
        speed: s[3],
        time: be24(s, 5) as u32,
        distance: be24(s, 8) as u32,
        steps: be24(s, 11) as u32,
    }
}

/// Decodes a notification buffer. A buffer without the magic prefix is not
/// ours and yields no telemetry (never an error); one with the prefix but too
/// short for every field is malformed; otherwise every field is extracted.
pub fn decode_telemetry(data: &[u8]) -> (r: Result<Option<Telemetry>, DecodeError>)
    ensures
        !has_magic(data@) ==> r == Ok::<Option<Telemetry>, DecodeError>(None),
        has_magic(data@) && data@.len() < MIN_FRAME_LEN ==> r == Err::<
            Option<Telemetry>,
            DecodeError,
        >(DecodeError::MalformedFrame),
        has_magic(data@) && data@.len() >= MIN_FRAME_LEN ==> r == Ok::<
            Option<Telemetry>,
            DecodeError,
        >(Some(telemetry_of(data@))),
{
    if data.len() < 2 || data[0] != 0xf8 || data[1] != 0xa2 {
        return Ok(None);
    }
    if data.len() < 4 {
        return Err(DecodeError::MalformedFrame);
    }
    let speed = data[3];
    let time = match extract_value(data, 5) {
        Ok(v) => v,
        Err(e) => { return Err(e); },
    };
    let distance = match extract_value(data, 8) {
        Ok(v) => v,
        Err(e) => { return Err(e); },
    };
    let steps = match extract_value(data, 11) {
        Ok(v) => v,
        Err(e) => { return Err(e); },
    };
    Ok(Some(Telemetry { speed, time, distance, steps }))
}

/// The constant status-request payload sent on every poll tick.
pub open spec fn poll_command() -> Seq<u8> {
    seq![0xf7u8, 0xa2u8, 0x00u8, 0x00u8, 0xa2u8, 0xfdu8]
}

/// Builds the fixed 6-byte "request status" command frame.
pub fn encode_poll_command() -> (r: Vec<u8>)
    ensures
        r@ == poll_command(),
{
    let mut v: Vec<u8> = Vec::new();
    v.push(0xf7);
    v.push(0xa2);
    v.push(0x00);
    v.push(0x00);
    v.push(0xa2);
    v.push(0xfd);
    proof {
        assert(v@ =~= poll_command());
    }
    v
}

/// Law: the poll command is pure and constant — the encodings observed by any
/// two calls are byte-identical.
pub proof fn lemma_poll_command_constant(a: Seq<u8>, b: Seq<u8>)
    requires
        a == poll_command(),
        b == poll_command(),
    ensures
        a == b,
{
}

} // verus!
