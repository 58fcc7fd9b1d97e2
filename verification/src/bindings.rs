//! Plain-data mirrors of the structures, enumerations and constants that LibSensel
//! exchanges with its callers.
//!
//! Where LibSensel hands over an `f32`, the mirror holds its IEEE-754 bit pattern
//! ([`Float32`]); where it hands over a pointer into a buffer it owns, the mirror
//! holds the data behind the pointer.

use vstd::prelude::*;

verus! {

/// Largest number of devices that one device list can describe.
pub const SENSEL_MAX_DEVICES: usize = 16;

/// Length of the serial-number and port-name fields of a device id.
pub const SENSEL_MAX_STRING_LEN: usize = 64;

/// Frame content bit: the frame carries a pressure image.
pub const FRAME_CONTENT_PRESSURE_MASK: u8 = 0x01;

/// Frame content bit: the frame carries a label image.
pub const FRAME_CONTENT_LABELS_MASK: u8 = 0x02;

/// Frame content bit: the frame carries the list of contacts.
pub const FRAME_CONTENT_CONTACTS_MASK: u8 = 0x04;

/// Frame content bit: the frame carries accelerometer data.
pub const FRAME_CONTENT_ACCEL_MASK: u8 = 0x08;

/// Contact content bit: the contact carries its ellipse.
pub const CONTACT_MASK_ELLIPSE: u8 = 0x01;

/// Contact content bit: the contact carries its changes since the previous frame.
pub const CONTACT_MASK_DELTAS: u8 = 0x02;

/// Contact content bit: the contact carries its bounding box.
pub const CONTACT_MASK_BOUNDING_BOX: u8 = 0x04;

/// Contact content bit: the contact carries its peak.
pub const CONTACT_MASK_PEAK: u8 = 0x08;

/// Contact state codes, as LibSensel reports them in [`SenselContact::state`].
pub const CONTACT_INVALID: u32 = 0;
pub const CONTACT_START: u32 = 1;
pub const CONTACT_MOVE: u32 = 2;
pub const CONTACT_END: u32 = 3;

/// Status code returned by every LibSensel call.
#[allow(non_camel_case_types)]
#[derive(Clone, Copy, Debug, PartialEq, Eq, Structural)]
pub enum SenselStatus {
    SENSEL_OK,
    SENSEL_ERROR,
}

/// How the device is scanned.
#[allow(non_camel_case_types)]
#[derive(Clone, Copy, Debug, PartialEq, Eq, Structural)]
pub enum SenselScanMode {
    SCAN_MODE_DISABLE,
    SCAN_MODE_SYNC,
    SCAN_MODE_ASYNC,
}

/// Resolution of a scan.
#[allow(non_camel_case_types)]
#[derive(Clone, Copy, Debug, PartialEq, Eq, Structural)]
pub enum SenselScanDetail {
    SCAN_DETAIL_HIGH,
    SCAN_DETAIL_MEDIUM,
    SCAN_DETAIL_LOW,
    SCAN_DETAIL_UNKNOWN,
}

/// The bit pattern of an IEEE-754 single-precision number.
#[derive(Clone, Copy, Debug, PartialEq, Eq, Structural)]
pub struct Float32(pub u32);

/// One entry of a device list.
#[derive(Clone, Copy, Debug)]
pub struct SenselDeviceID {
    /// Index by which LibSensel opens the device.
    pub idx: u8,
    /// Serial number, NUL-padded.
    pub serial_num: [u8; SENSEL_MAX_STRING_LEN],
    /// Name of the serial port, NUL-padded.
    pub com_port: [u8; SENSEL_MAX_STRING_LEN],
}

/// The devices LibSensel found; only the first `num_devices` entries are meaningful.
#[derive(Clone, Copy, Debug)]
pub struct SenselDeviceList {
    pub num_devices: u8,
    pub devices: [SenselDeviceID; SENSEL_MAX_DEVICES],
}

/// Firmware version and hardware identification of a device.
#[derive(Clone, Copy, Debug, PartialEq, Eq, Structural)]
pub struct SenselFirmwareInfo {
    pub fw_protocol_version: u8,
    pub fw_version_major: u8,
    pub fw_version_minor: u8,
    pub fw_version_build: u16,
    pub fw_version_release: u8,
    pub device_id: u16,
    pub device_revision: u8,
}

/// Geometry of a device's sensor.
#[derive(Clone, Copy, Debug, PartialEq, Eq, Structural)]
pub struct SenselSensorInfo {
    /// Largest number of contacts the device reports in one frame.
    pub max_contacts: u8,
    pub num_rows: u16,
    pub num_cols: u16,
    /// Width of the sensor in millimetres.
    pub width: Float32,
    /// Height of the sensor in millimetres.
    pub height: Float32,
}

/// Accelerometer reading.
#[derive(Clone, Copy, Debug, PartialEq, Eq, Structural)]
pub struct SenselAccelData {
    pub x: i32,
    pub y: i32,
    pub z: i32,
}

/// One contact as LibSensel reports it; `content_bit_mask` says which groups of
/// fields are meaningful.
#[derive(Clone, Copy, Debug, PartialEq, Eq, Structural)]
pub struct SenselContact {
    pub content_bit_mask: u8,
    pub id: u8,
    pub state: u32,
    pub x_pos: Float32,
    pub y_pos: Float32,
    pub total_force: Float32,
    pub area: Float32,
    pub orientation: Float32,
    pub major_axis: Float32,
    pub minor_axis: Float32,
    pub delta_x: Float32,
    pub delta_y: Float32,
    pub delta_force: Float32,
    pub delta_area: Float32,
    pub min_x: Float32,
    pub min_y: Float32,
    pub max_x: Float32,
    pub max_y: Float32,
    pub peak_x: Float32,
    pub peak_y: Float32,
    pub peak_force: Float32,
}

/// One frame as LibSensel fills it in: `contacts` holds the contact records of
/// the frame buffer, of which the first `n_contacts` belong to this frame;
/// `force_array` and `labels_array` hold the pressure and label images, one entry
/// per sensor cell; `accel_data` is the value in the accelerometer buffer. A
/// buffer whose content bit is clear may be left empty.
#[derive(Clone, Debug)]
pub struct SenselFrameData {
    pub content_bit_mask: u8,
    pub lost_frame_count: i32,
    pub n_contacts: u8,
    pub contacts: Vec<SenselContact>,
    pub force_array: Vec<Float32>,
    pub labels_array: Vec<u8>,
    pub accel_data: SenselAccelData,
}

} // verus!
