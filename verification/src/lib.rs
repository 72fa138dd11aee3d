//! Brightness control for the Apple Studio Display over USB HID.
//!
//! The display takes its brightness as a feature report of seven bytes that
//! carries a level from 400 to 60000. This library holds everything about
//! that conversation except the device I/O itself:
//!
//! - [`constants`]: the identity of the display and its brightness scale;
//! - [`convert`]: levels to percentages and back;
//! - [`report`]: the bytes of the feature report;
//! - [`session`]: reading, setting, raising and lowering the brightness of
//!   one display in percent;
//! - [`discovery`]: picking the displays out of the enumerated HID devices;
//! - [`coordinator`]: the brightness of several displays, changed one by one
//!   or all at once;
//! - [`error`]: what can go wrong;
//! - [`text`]: decimal numbers for display names.
//!
//! Nothing here touches a device. The caller enumerates the devices, opens
//! them and moves the reports; the library says which devices to open, which
//! bytes to write, and what the bytes that came back mean. Every function is
//! verified against its contract with Verus, for all inputs, and none of them
//! panics.

pub mod constants;
pub mod convert;
pub mod coordinator;
pub mod discovery;
pub mod error;
pub mod report;
pub mod session;
pub mod text;
