//! The scan resolutions a device can be set to.

pub use crate::bindings::SenselScanDetail::SCAN_DETAIL_HIGH;
pub use crate::bindings::SenselScanDetail::SCAN_DETAIL_LOW;
pub use crate::bindings::SenselScanDetail::SCAN_DETAIL_MEDIUM;
