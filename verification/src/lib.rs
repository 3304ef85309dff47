//! Apple trackpad to Windows Precision Touchpad translation logic.
//!
//! Transport-independent logic for driving Apple trackpads (Magic Trackpad 2,
//! T2 MacBook trackpads) as Windows Precision Touchpads: device tables, raw
//! finger parsing, PTP report construction, HID descriptors, feature reports,
//! and the decision logic of the USB and Bluetooth drivers.
use vstd::prelude::*;

pub mod bt;
pub mod constants;
pub mod device;
pub mod error;
pub mod feature;
pub mod finger;
pub mod hid;
pub mod input;
pub mod ptp;
pub mod usb;
pub mod wire;

verus! {

} // verus!
