//! Safe, verified core of a driver for Sensel Morph touch devices.
//!
//! LibSensel, the vendor's C library, does the talking to the hardware; this crate
//! holds what a driver decides around it: which requests to make and in what
//! order, how each answer turns into a value or an error, the typestate of a
//! device (scanning or not), the LED register layout, and the decoding of frames
//! and contacts.

pub mod bindings;
pub mod contact;
pub mod device;
pub mod frame;
pub mod result;
pub mod scan_detail;
pub mod scan_mode;

pub use result::SenselError;

use vstd::prelude::*;

verus! {

/// Largest number of devices that one device list can describe.
pub const MAX_DEVICES: usize = bindings::SENSEL_MAX_DEVICES;

} // verus!
