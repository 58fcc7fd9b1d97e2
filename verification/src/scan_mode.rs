//! The scan modes a device can be set to.

pub use crate::bindings::SenselScanMode::SCAN_MODE_ASYNC;
pub use crate::bindings::SenselScanMode::SCAN_MODE_SYNC;
