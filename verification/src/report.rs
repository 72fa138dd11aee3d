//! The feature report that carries the brightness.
//!
//! The report has a fixed layout of `REPORT_SIZE` bytes, for reads and for
//! writes: the report identifier, the brightness level as four bytes with the
//! least significant first, and two reserved bytes.

use vstd::prelude::*;
use crate::constants::{REPORT_ID, REPORT_SIZE};
use crate::error::DisplayError;

verus! {

/// The four bytes of a level, least significant first.
pub open spec fn spec_level_bytes(level: u32) -> Seq<u8> {
    seq![
        (level % 256) as u8,
        (level / 256 % 256) as u8,
        (level / 65536 % 256) as u8,
        (level / 16777216 % 256) as u8,
    ]
}

/// The number that four bytes stand for, least significant first.
pub open spec fn spec_level_from_bytes(bytes: Seq<u8>) -> int
    recommends
        bytes.len() == 4,
{
    bytes[0] + 256 * bytes[1] + 65536 * bytes[2] + 16777216 * bytes[3]
}

/// The report that sets the brightness to `level`.
pub open spec fn spec_set_report(level: u32) -> Seq<u8> {
    seq![REPORT_ID] + spec_level_bytes(level) + seq![0u8, 0u8]
}

/// The buffer that asks for the brightness report: the report identifier,
/// and zeros for the device to overwrite.
pub open spec fn spec_get_request() -> Seq<u8> {
    seq![REPORT_ID, 0u8, 0u8, 0u8, 0u8, 0u8, 0u8]
}

/// What a response to a brightness request decodes to: the level in bytes 1
/// to 4 where the response has the size of the report, and a protocol error
/// that names both sizes where it has not.
pub open spec fn spec_decode_get_response(bytes: Seq<u8>) -> Result<u32, DisplayError> {
    if bytes.len() == REPORT_SIZE {
        Ok(spec_level_from_bytes(bytes.subrange(1, 5)) as u32)
    } else {
        Err(DisplayError::Protocol { expected: REPORT_SIZE, actual: bytes.len() as usize })
    }
}

/// Encodes the report that sets the brightness to `level`.
///
/// The level is written as it is given; `percent_to_level` yields one that
/// the device accepts.
pub fn encode_set_report(level: u32) -> (report: [u8; REPORT_SIZE])
    ensures
        report@ == spec_set_report(level),
{
    let b0: u8 = (level % 256) as u8;
    let b1: u8 = (level / 256 % 256) as u8;
    let b2: u8 = (level / 65536 % 256) as u8;
    let b3: u8 = (level / 16777216 % 256) as u8;
    let report: [u8; REPORT_SIZE] = [REPORT_ID, b0, b1, b2, b3, 0, 0];
    assert(report@ =~= spec_set_report(level));
    report
}

/// Encodes the buffer to hand to the transport when asking for the
/// brightness report.
pub fn encode_get_request() -> (request: [u8; REPORT_SIZE])
    ensures
        request@ == spec_get_request(),
{
    let request: [u8; REPORT_SIZE] = [REPORT_ID, 0, 0, 0, 0, 0, 0];
    assert(request@ =~= spec_get_request());
    request
}

/// Decodes the bytes that the transport returned for a brightness request.
///
/// `bytes` holds exactly what the transport filled in, the report identifier
/// included. The level is returned as the device sent it, in range or not.
pub fn decode_get_response(bytes: &[u8]) -> (decoded: Result<u32, DisplayError>)
    ensures
        decoded == spec_decode_get_response(bytes@),
        decoded is Ok <==> bytes@.len() == REPORT_SIZE,
{
    if bytes.len() != REPORT_SIZE {
        return Err(DisplayError::Protocol { expected: REPORT_SIZE, actual: bytes.len() });
    }
    let b0: u32 = bytes[1] as u32;
    let b1: u32 = bytes[2] as u32;
    let b2: u32 = bytes[3] as u32;
    let b3: u32 = bytes[4] as u32;
    Ok(b0 + 256 * b1 + 65536 * b2 + 16777216 * b3)
}

/// Four bytes always stand for a number that fits a level.
pub proof fn lemma_level_from_bytes_fits(bytes: Seq<u8>)
    requires
        bytes.len() == 4,
    ensures
        0 <= spec_level_from_bytes(bytes) <= u32::MAX,
{
}

/// The bytes of a level stand for that level.
pub proof fn lemma_level_bytes_round_trip(level: u32)
    ensures
        spec_level_bytes(level).len() == 4,
        spec_level_from_bytes(spec_level_bytes(level)) == level,
{
}

/// Four bytes are the bytes of the number they stand for.
pub proof fn lemma_level_from_bytes_round_trip(bytes: Seq<u8>)
    requires
        bytes.len() == 4,
    ensures
        spec_level_bytes(spec_level_from_bytes(bytes) as u32) == bytes,
{
    assert(spec_level_bytes(spec_level_from_bytes(bytes) as u32) =~= bytes);
}

/// A set report has the size of the report, starts with the report
/// identifier and ends in two zero bytes.
pub proof fn lemma_set_report_layout(level: u32)
    ensures
        spec_set_report(level).len() == REPORT_SIZE,
        spec_set_report(level)[0] == REPORT_ID,
        spec_set_report(level).subrange(1, 5) == spec_level_bytes(level),
        spec_set_report(level)[5] == 0,
        spec_set_report(level)[6] == 0,
{
    assert(spec_set_report(level).subrange(1, 5) =~= spec_level_bytes(level));
}

/// A device that answers a request with the report it was last sent gives
/// back the level that was set.
pub proof fn lemma_decode_inverts_encode(level: u32)
    ensures
        spec_decode_get_response(spec_set_report(level)) == Ok::<u32, DisplayError>(level),
{
    lemma_set_report_layout(level);
    lemma_level_bytes_round_trip(level);
}

/// Only the four level bytes of a response count: the report identifier and
/// the reserved bytes are ignored.
pub proof fn lemma_decode_reads_level_bytes_only(first: Seq<u8>, second: Seq<u8>)
    requires
        first.len() == REPORT_SIZE,
        second.len() == REPORT_SIZE,
        first.subrange(1, 5) == second.subrange(1, 5),
    ensures
        spec_decode_get_response(first) == spec_decode_get_response(second),
{
}

} // verus!
