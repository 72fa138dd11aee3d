//! One display's side of the conversation: what to hand to the transport to
//! read or set its brightness in percent, and what to make of the answer.
//!
//! The transport itself, the open connection to the device, stays with the
//! caller. A read is two steps: the caller hands the transport the request of
//! `encode_get_request`, and `get_brightness_percent` the bytes that came
//! back. A write is one: the caller hands the transport the report of
//! `set_brightness_percent`. A write is not acknowledged by the device beyond
//! the transport call succeeding. Raising or lowering the brightness by a
//! step is a read followed by a write: `increase_brightness_percent` and
//! `decrease_brightness_percent` take what the read came to and give the
//! report to write.

use vstd::prelude::*;
use vstd::string::StringExecFns;
use crate::constants::{MAX_PERCENT, REPORT_SIZE};
use crate::convert::{
    clamp, lemma_percent_round_trip_clamps, level_to_percent, percent_to_level,
    spec_level_to_percent, spec_percent_to_level, spec_step_down, spec_step_up, step_down,
    step_up,
};
use crate::discovery::DeviceDescriptor;
use crate::error::DisplayError;
use crate::report::{
    decode_get_response, encode_set_report, lemma_decode_inverts_encode,
    spec_decode_get_response, spec_set_report,
};
use crate::text::{append_decimal, spec_decimal};

verus! {

/// The report that sets the brightness to `percent`: the set report of the
/// level of that percentage.
pub open spec fn spec_percent_report(percent: int) -> Seq<u8> {
    spec_set_report(spec_percent_to_level(percent) as u32)
}

/// What a brightness read comes to. A failed read, which hands over no
/// bytes, is a transport error; bytes of the wrong size are a protocol
/// error; else the result is the percentage of the level that was sent.
pub open spec fn spec_percent_from_response(response: Option<Seq<u8>>) -> Result<u8, DisplayError> {
    match response {
        None => Err(DisplayError::Transport),
        Some(bytes) => match spec_decode_get_response(bytes) {
            Ok(level) => Ok(spec_level_to_percent(level as int) as u8),
            Err(error) => Err(error),
        },
    }
}

/// What the transport handed over, as a sequence of bytes.
pub open spec fn spec_response_bytes(response: Option<&[u8]>) -> Option<Seq<u8>> {
    match response {
        Some(bytes) => Some(bytes@),
        None => None,
    }
}

/// Completes a brightness read. `response` holds the bytes that the
/// transport filled in for the request, or `None` where the read failed.
pub fn get_brightness_percent(response: Option<&[u8]>) -> (percent: Result<u8, DisplayError>)
    ensures
        percent == spec_percent_from_response(spec_response_bytes(response)),
{
    match response {
        None => Err(DisplayError::Transport),
        Some(bytes) => match decode_get_response(bytes) {
            Ok(level) => Ok(level_to_percent(level)),
            Err(error) => Err(error),
        },
    }
}

/// Starts a brightness write: the report to hand to the transport to set the
/// brightness to `percent`. Any percentage is accepted; one outside the
/// range from 0 to 100 sets the nearest end of the range.
pub fn set_brightness_percent(percent: i32) -> (report: [u8; REPORT_SIZE])
    ensures
        report@ == spec_percent_report(percent as int),
{
    encode_set_report(percent_to_level(percent))
}

/// What raising the brightness by `step` comes to once the brightness was
/// read: the report that sets the brightness read, raised by the step and
/// stopped at 100, or the error of the read.
pub open spec fn spec_increase_report(response: Option<Seq<u8>>, step: u8) -> Result<
    Seq<u8>,
    DisplayError,
> {
    match spec_percent_from_response(response) {
        Ok(current) => Ok(spec_percent_report(spec_step_up(current as int, step as int))),
        Err(error) => Err(error),
    }
}

/// What lowering the brightness by `step` comes to once the brightness was
/// read: the report that sets the brightness read, lowered by the step and
/// stopped at 0, or the error of the read.
pub open spec fn spec_decrease_report(response: Option<Seq<u8>>, step: u8) -> Result<
    Seq<u8>,
    DisplayError,
> {
    match spec_percent_from_response(response) {
        Ok(current) => Ok(spec_percent_report(spec_step_down(current as int, step as int))),
        Err(error) => Err(error),
    }
}

/// Raises the brightness by `step` percentage points, to 100 at most.
/// `response` is what the brightness read came to, as for
/// `get_brightness_percent`; the result is the report to write, and the
/// error of the read where it failed.
pub fn increase_brightness_percent(response: Option<&[u8]>, step: u8) -> (report: Result<
    [u8; REPORT_SIZE],
    DisplayError,
>)
    ensures
        match spec_increase_report(spec_response_bytes(response), step) {
            Ok(bytes) => report is Ok && report->Ok_0@ == bytes,
            Err(error) => report is Err && report->Err_0 == error,
        },
{
    match get_brightness_percent(response) {
        Ok(current) => Ok(set_brightness_percent(step_up(current, step) as i32)),
        Err(error) => Err(error),
    }
}

/// Lowers the brightness by `step` percentage points, to 0 at least.
/// `response` is what the brightness read came to, as for
/// `get_brightness_percent`; the result is the report to write, and the
/// error of the read where it failed.
pub fn decrease_brightness_percent(response: Option<&[u8]>, step: u8) -> (report: Result<
    [u8; REPORT_SIZE],
    DisplayError,
>)
    ensures
        match spec_decrease_report(spec_response_bytes(response), step) {
            Ok(bytes) => report is Ok && report->Ok_0@ == bytes,
            Err(error) => report is Err && report->Err_0 == error,
        },
{
    match get_brightness_percent(response) {
        Ok(current) => Ok(set_brightness_percent(step_down(current, step) as i32)),
        Err(error) => Err(error),
    }
}

/// The name a display goes by: its place in the display order, counted
/// from one, behind a fixed prefix.
pub open spec fn spec_display_name(number: nat) -> Seq<char> {
    "Studio Display "@ + spec_decimal(number)
}

/// The serial number a display is addressed by: its own, or a fixed word
/// where the unit reports none.
pub open spec fn spec_serial_label(descriptor: DeviceDescriptor) -> Seq<char> {
    match descriptor.serial_number {
        Some(serial) => serial@,
        None => "Unknown"@,
    }
}

/// The identity of one display under control. It does not change while the
/// display is under control.
#[derive(Debug, Clone, PartialEq, Eq)]
pub struct DeviceSession {
    /// The device that the session's connection was opened to.
    pub descriptor: DeviceDescriptor,
    /// The display's place in the display order, counted from one.
    pub number: usize,
}

impl DeviceSession {
    /// The name the display goes by.
    pub fn name(&self) -> (name: String)
        ensures
            name@ == spec_display_name(self.number as nat),
    {
        let mut name = String::from_str("Studio Display ");
        append_decimal(&mut name, self.number);
        name
    }

    /// The serial number the display is addressed by.
    pub fn serial(&self) -> (serial: String)
        ensures
            serial@ == spec_serial_label(self.descriptor),
    {
        match &self.descriptor.serial_number {
            Some(serial) => serial.clone(),
            None => String::from_str("Unknown"),
        }
    }

    /// Whether `serial` addresses the display.
    pub fn answers_to(&self, serial: &str) -> (answers: bool)
        ensures
            answers == (spec_serial_label(self.descriptor) == serial@),
    {
        let wanted = String::from_str(serial);
        match &self.descriptor.serial_number {
            Some(own) => *own == wanted,
            None => String::from_str("Unknown") == wanted,
        }
    }
}

/// A device that answers a read with the report it was last sent reads back
/// the percentage that was set, pulled into the range from 0 to 100.
pub proof fn lemma_read_back_what_was_set(percent: int)
    ensures
        spec_percent_from_response(Some(spec_percent_report(percent))) == Ok::<u8, DisplayError>(
            clamp(percent, 0, MAX_PERCENT as int) as u8,
        ),
{
    lemma_decode_inverts_encode(spec_percent_to_level(percent) as u32);
    lemma_percent_round_trip_clamps(percent);
}

} // verus!
