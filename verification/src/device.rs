//! Device discovery, the device handle's state, and the decoding of what LibSensel
//! answers to each request on a device.

use vstd::prelude::*;
use vstd::string::StringSliceAdditionalSpecFns;
use vstd::utf8::valid_utf8;

use crate::bindings::{
    SENSEL_MAX_DEVICES, SenselDeviceID, SenselDeviceList, SenselFirmwareInfo, SenselFrameData,
    SenselScanDetail, SenselScanMode, SenselSensorInfo, SenselStatus,
};
use crate::contact;
use crate::frame::{self, forces, frame_data_consistent, frame_view_of, from_frame_data, Frame};
use crate::result::{sensel_value, status_value, SenselError};

verus! {

/// Decodes `bytes` as UTF-8: `Some` of the string they encode when they are valid
/// UTF-8, `None` otherwise. Trusted: it calls `std::str::from_utf8`, which std
/// documents as succeeding exactly on valid UTF-8 and returning a string whose
/// bytes are the input.
#[verifier::external_body]
fn str_from_utf8(bytes: &[u8]) -> (r: Option<&str>)
    ensures
        match r {
            Some(s) => valid_utf8(bytes@) && s.spec_bytes() == bytes@,
            None => !valid_utf8(bytes@),
        },
{
    std::str::from_utf8(bytes).ok()
}

/// The devices found by a device-list query.
pub struct DeviceList(SenselDeviceList);

impl View for DeviceList {
    type V = SenselDeviceList;

    closed spec fn view(&self) -> SenselDeviceList {
        self.0
    }
}

impl DeviceList {
    /// The number of devices the list claims to describe.
    pub fn num_devices(&self) -> (n: u8)
        ensures
            n == self@.num_devices,
    {
        self.0.num_devices
    }

    /// The answer to a device-list query: the list LibSensel filled in.
    pub fn get_device_list(status: SenselStatus, list: SenselDeviceList) -> (r: Result<DeviceList, SenselError>)
        ensures
            match r {
                Ok(l) => status == SenselStatus::SENSEL_OK && l@ == list,
                Err(e) => status != SenselStatus::SENSEL_OK && e == SenselError,
            },
    {
        sensel_value(status, DeviceList::from(list))
    }

    /// The ids of the devices found: the first `num_devices` entries of the list.
    pub fn as_slice(&self) -> (r: &[SenselDeviceID])
        requires
            self@.num_devices <= SENSEL_MAX_DEVICES,
        ensures
            r@ == self@.devices@.take(self@.num_devices as int),
    {
        vstd::slice::slice_subrange(self.0.devices.as_slice(), 0, self.0.num_devices as usize)
    }
}

impl From<SenselDeviceList> for DeviceList {
    fn from(list: SenselDeviceList) -> (r: DeviceList)
        ensures
            r@ == list,
    {
        DeviceList(list)
    }
}

impl vstd::std_specs::convert::FromSpecImpl<SenselDeviceList> for DeviceList {
    open spec fn obeys_from_spec() -> bool {
        true
    }

    closed spec fn from_spec(list: SenselDeviceList) -> DeviceList {
        DeviceList(list)
    }
}

impl SenselSensorInfo {
    /// Number of sensor cells: rows times columns.
    pub fn get_num_sensors(&self) -> (n: usize)
        ensures
            n == self.num_rows * self.num_cols,
    {
        let rows = self.num_rows as usize;
        let cols = self.num_cols as usize;
        assert(rows * cols <= 0xFFFF * 0xFFFF) by (nonlinear_arith)
            requires
                rows <= 0xFFFF,
                cols <= 0xFFFF,
        ;
        rows * cols
    }
}

impl SenselDeviceID {
    /// The serial number as a string, NUL padding included, when it is valid UTF-8.
    pub fn try_get_serial_num(&self) -> (s: Option<&str>)
        ensures
            match s {
                Some(s) => valid_utf8(self.serial_num@) && s.spec_bytes() == self.serial_num@,
                None => !valid_utf8(self.serial_num@),
            },
    {
        str_from_utf8(self.serial_num.as_slice())
    }

    /// The name of the serial port as a string, NUL padding included, when it is
    /// valid UTF-8.
    pub fn try_get_com_port(&self) -> (s: Option<&str>)
        ensures
            match s {
                Some(s) => valid_utf8(self.com_port@) && s.spec_bytes() == self.com_port@,
                None => !valid_utf8(self.com_port@),
            },
    {
        str_from_utf8(self.com_port.as_slice())
    }

    /// The serial number as a string, NUL padding included.
    pub fn get_serial_num(&self) -> (s: &str)
        requires
            valid_utf8(self.serial_num@),
        ensures
            s.spec_bytes() == self.serial_num@,
    {
        str_from_utf8(self.serial_num.as_slice()).unwrap()
    }

    /// The name of the serial port as a string, NUL padding included.
    pub fn get_com_port(&self) -> (s: &str)
        requires
            valid_utf8(self.com_port@),
        ensures
            s.spec_bytes() == self.com_port@,
    {
        str_from_utf8(self.com_port.as_slice()).unwrap()
    }
}

/// What a device reports about itself when it is opened.
#[derive(Clone, Copy, Debug)]
pub struct DeviceInfo {
    pub sensor_info: SenselSensorInfo,
    pub fw_info: SenselFirmwareInfo,
    /// The kinds of frame content the device can deliver.
    pub supported_frame_content: frame::Mask,
    pub num_leds: usize,
    pub max_led_brightness: u16,
}

/// Width of one LED's entry in the device's LED brightness register.
#[derive(Clone, Copy, Debug, PartialEq, Eq, Structural)]
pub enum LEDWidth {
    /// One byte per LED.
    Char,
    /// Two bytes per LED.
    Short,
}

/// LED brightnesses laid out for the device's LED brightness register.
#[derive(Debug)]
pub enum LEDArray {
    Char(Vec<u8>),
    Short(Vec<u16>),
}

impl LEDArray {
    /// Number of entries in the buffer, one per LED.
    pub fn len(&self) -> (n: usize)
        ensures
            n == match self {
                LEDArray::Char(v) => v@.len(),
                LEDArray::Short(v) => v@.len(),
            },
    {
        match self {
            LEDArray::Char(v) => v.len(),
            LEDArray::Short(v) => v.len(),
        }
    }
}

/// Typestate of a device that is not scanning.
pub struct DeviceNotScanning;

/// Typestate of a device that is scanning.
pub struct DeviceScanning;

/// What a device keeps while it is open.
struct DeviceImpl {
    led_width: LEDWidth,
    info: DeviceInfo,
    /// The supported-frame-content byte as the device reported it.
    supported_content: u8,
}

/// An open device in scanning state `D`. The LibSensel handle that goes with it is
/// held by the caller, which makes each request and hands the answer to the
/// method of the same name here.
pub struct Device<D> {
    inner: DeviceImpl,
    #[allow(dead_code)]
    state: D,
}

/// One request of the sequence that opens a device, in the order they are made.
#[derive(Clone, Copy, Debug, PartialEq, Eq, Structural)]
pub enum OpenStep {
    OpenDeviceByID,
    GetFirmwareInfo,
    GetSensorInfo,
    GetSupportedFrameContent,
    GetNumAvailableLEDs,
    GetMaxLEDBrightness,
    ReadLEDBrightnessSize,
    AllocateFrameData,
}

impl OpenStep {
    /// Position of the request in the opening sequence.
    pub open spec fn position(self) -> nat {
        match self {
            OpenStep::OpenDeviceByID => 0,
            OpenStep::GetFirmwareInfo => 1,
            OpenStep::GetSensorInfo => 2,
            OpenStep::GetSupportedFrameContent => 3,
            OpenStep::GetNumAvailableLEDs => 4,
            OpenStep::GetMaxLEDBrightness => 5,
            OpenStep::ReadLEDBrightnessSize => 6,
            OpenStep::AllocateFrameData => 7,
        }
    }

    /// The request that follows this one, if any.
    pub open spec fn spec_next(self) -> Option<OpenStep> {
        match self {
            OpenStep::OpenDeviceByID => Some(OpenStep::GetFirmwareInfo),
            OpenStep::GetFirmwareInfo => Some(OpenStep::GetSensorInfo),
            OpenStep::GetSensorInfo => Some(OpenStep::GetSupportedFrameContent),
            OpenStep::GetSupportedFrameContent => Some(OpenStep::GetNumAvailableLEDs),
            OpenStep::GetNumAvailableLEDs => Some(OpenStep::GetMaxLEDBrightness),
            OpenStep::GetMaxLEDBrightness => Some(OpenStep::ReadLEDBrightnessSize),
            OpenStep::ReadLEDBrightnessSize => Some(OpenStep::AllocateFrameData),
            OpenStep::AllocateFrameData => None,
        }
    }

    /// The first request of the opening sequence.
    pub fn first() -> (s: OpenStep)
        ensures
            s.position() == 0,
            s == OpenStep::OpenDeviceByID,
    {
        OpenStep::OpenDeviceByID
    }

    /// What to do once this request has been answered with `status`: go on with
    /// the next request (`Ok(Some(..))`), finish (`Ok(None)`, after the last one),
    /// or give up with an error.
    pub fn after(self, status: SenselStatus) -> (r: Result<Option<OpenStep>, SenselError>)
        ensures
            r == status_value(status, self.spec_next()),
    {
        let next = match self {
            OpenStep::OpenDeviceByID => Some(OpenStep::GetFirmwareInfo),
            OpenStep::GetFirmwareInfo => Some(OpenStep::GetSensorInfo),
            OpenStep::GetSensorInfo => Some(OpenStep::GetSupportedFrameContent),
            OpenStep::GetSupportedFrameContent => Some(OpenStep::GetNumAvailableLEDs),
            OpenStep::GetNumAvailableLEDs => Some(OpenStep::GetMaxLEDBrightness),
            OpenStep::GetMaxLEDBrightness => Some(OpenStep::ReadLEDBrightnessSize),
            OpenStep::ReadLEDBrightnessSize => Some(OpenStep::AllocateFrameData),
            OpenStep::AllocateFrameData => None,
        };
        sensel_value(status, next)
    }

    /// The opening sequence is: open the device by its index, then read its
    /// firmware information, its sensor information, the frame content it
    /// supports, its number of LEDs, their maximum brightness and the size of its
    /// LED brightness register, and last allocate the frame buffers.
    pub proof fn lemma_open_order()
        ensures
            OpenStep::OpenDeviceByID.position() == 0,
            OpenStep::OpenDeviceByID.spec_next() == Some(OpenStep::GetFirmwareInfo),
            OpenStep::GetFirmwareInfo.spec_next() == Some(OpenStep::GetSensorInfo),
            OpenStep::GetSensorInfo.spec_next() == Some(OpenStep::GetSupportedFrameContent),
            OpenStep::GetSupportedFrameContent.spec_next() == Some(OpenStep::GetNumAvailableLEDs),
            OpenStep::GetNumAvailableLEDs.spec_next() == Some(OpenStep::GetMaxLEDBrightness),
            OpenStep::GetMaxLEDBrightness.spec_next() == Some(OpenStep::ReadLEDBrightnessSize),
            OpenStep::ReadLEDBrightnessSize.spec_next() == Some(OpenStep::AllocateFrameData),
            OpenStep::AllocateFrameData.spec_next() == None::<OpenStep>,
    {
    }

    /// The opening sequence makes its requests one after the other, in the order
    /// of their positions, and ends after the last of the eight.
    pub proof fn lemma_sequence(step: OpenStep)
        ensures
            step.position() < 8,
            step.spec_next() matches Some(next) ==> next.position() == step.position() + 1,
            step.spec_next() is None <==> step.position() == 7,
    {
    }
}

/// What an open device recorded about itself when it was opened.
pub struct DeviceRecord {
    pub info: DeviceInfo,
    pub led_width: LEDWidth,
    pub supported_content: u8,
}

/// Along any run of operations on a device, each of which hands on the device
/// with what it recorded when opened (as `start_scanning` and `stop_scanning` do
/// on either outcome, and every method that borrows the device does), the device
/// keeps that record: `get_info` returns, at every point of the run, what the
/// device reported when it was opened.
pub proof fn lemma_record_kept(run: Seq<DeviceRecord>)
    requires
        forall|i: int| 0 <= i < run.len() - 1 ==> #[trigger] run[i + 1] == run[i],
    ensures
        forall|i: int| 0 <= i < run.len() ==> #[trigger] run[i] == run[0],
    decreases run.len(),
{
    if run.len() > 1 {
        let prefix = run.drop_last();
        assert forall|i: int| 0 <= i < prefix.len() - 1 implies #[trigger] prefix[i + 1] == prefix[i] by {
            assert(prefix[i + 1] == run[i + 1]);
            assert(run[i + 1] == run[i]);
        }
        lemma_record_kept(prefix);
        assert forall|i: int| 0 <= i < run.len() implies #[trigger] run[i] == run[0] by {
            if i < run.len() - 1 {
                assert(run[i] == prefix[i]);
            } else {
                assert(run[i - 1 + 1] == run[i - 1]);
                assert(run[i - 1] == prefix[i - 1]);
            }
        }
    }
}

/// What LibSensel filled in while a device was being opened.
#[derive(Clone, Copy, Debug)]
pub struct OpenReplies {
    pub fw_info: SenselFirmwareInfo,
    pub sensor_info: SenselSensorInfo,
    pub supported_frame_content: u8,
    pub num_leds: u8,
    pub max_led_brightness: u16,
    /// Bytes per LED in the LED brightness register.
    pub led_reg_size: u8,
}

/// The device information that the answers of an opening sequence describe.
pub open spec fn info_of(replies: OpenReplies) -> DeviceInfo {
    DeviceInfo {
        sensor_info: replies.sensor_info,
        fw_info: replies.fw_info,
        supported_frame_content: frame::Mask::spec_from_bits_truncate(replies.supported_frame_content),
        num_leds: replies.num_leds as usize,
        max_led_brightness: replies.max_led_brightness,
    }
}

/// Opening a device records what it reported: its sensor geometry, firmware,
/// LED count and maximum brightness unchanged, and the content kinds it supports
/// as the reported byte with every bit other than contacts (0x04) and
/// accelerometer (0x08) cleared.
pub proof fn lemma_open_information(replies: OpenReplies)
    ensures
        info_of(replies).supported_frame_content@ == replies.supported_frame_content & 0x0Cu8,
        info_of(replies).sensor_info == replies.sensor_info,
        info_of(replies).fw_info == replies.fw_info,
        info_of(replies).num_leds == replies.num_leds,
        info_of(replies).max_led_brightness == replies.max_led_brightness,
{
    frame::lemma_content_bits();
    frame::Mask::lemma_from_bits_truncate_view(replies.supported_frame_content);
}

/// The byte LibSensel takes for an on/off setting.
pub open spec fn spec_flag_byte(val: bool) -> u8 {
    if val {
        1
    } else {
        0
    }
}

/// The byte LibSensel takes for an on/off setting.
pub fn flag_byte(val: bool) -> (b: u8)
    ensures
        b == spec_flag_byte(val),
{
    if val {
        1
    } else {
        0
    }
}

/// Whether a byte read back from LibSensel stands for "on".
pub fn byte_flag(raw: u8) -> (b: bool)
    ensures
        b == (raw != 0),
{
    raw != 0
}

/// Whether each of `leds` is at most `max`.
pub open spec fn all_within(leds: Seq<u16>, max: u16) -> bool {
    forall|i: int| 0 <= i < leds.len() ==> #[trigger] leds[i] <= max
}

impl<D> Device<D> {
    /// What the device reported about itself when it was opened.
    pub closed spec fn info(&self) -> DeviceInfo {
        self.inner.info
    }

    /// Width of one LED's entry in the device's LED brightness register.
    pub closed spec fn led_width(&self) -> LEDWidth {
        self.inner.led_width
    }

    /// The supported-frame-content byte as the device reported it when opened.
    pub closed spec fn supported_content(&self) -> u8 {
        self.inner.supported_content
    }

    /// The kinds of frame content the device can deliver, pressure and label
    /// images included.
    pub fn get_forces_supported_frame_content(&self) -> (m: forces::Mask)
        ensures
            m == forces::Mask::spec_from_bits_truncate(self.supported_content()),
    {
        forces::Mask::from_bits_truncate(self.inner.supported_content)
    }

    /// The answer to a frame-content query, pressure and label images included.
    pub fn get_forces_frame_content(&self, status: SenselStatus, mask: u8) -> (r: Result<forces::Mask, SenselError>)
        ensures
            r == status_value(status, forces::Mask::spec_from_bits_truncate(mask)),
    {
        sensel_value(status, forces::Mask::from_bits_truncate(mask))
    }

    /// Everything the device recorded when it was opened.
    pub open spec fn record(&self) -> DeviceRecord {
        DeviceRecord {
            info: self.info(),
            led_width: self.led_width(),
            supported_content: self.supported_content(),
        }
    }

    /// Whether `self` keeps everything `other` recorded when it was opened.
    pub open spec fn same_device<E>(&self, other: &Device<E>) -> bool {
        self.record() == other.record()
    }

    /// What the device reported about itself when it was opened.
    pub fn get_info(&self) -> (i: DeviceInfo)
        ensures
            i == self.info(),
    {
        self.inner.info
    }

    /// The LED register contents for the brightnesses `led_array`, one per LED:
    /// an error when the count differs from the device's number of LEDs or a
    /// brightness exceeds the device's maximum. One-byte registers take each
    /// brightness truncated to its low byte.
    pub fn set_led_array(&self, led_array: &[u16]) -> (r: Result<LEDArray, SenselError>)
        ensures
            r is Err <==> (led_array@.len() != self.info().num_leds || !all_within(
                led_array@,
                self.info().max_led_brightness,
            )),
            r matches Ok(buf) ==> match buf {
                LEDArray::Char(v) => self.led_width() == LEDWidth::Char && v@ == led_array@.map_values(
                    |b: u16| b as u8,
                ),
                LEDArray::Short(v) => self.led_width() == LEDWidth::Short && v@ == led_array@,
            },
    {
        let info = self.get_info();
        if led_array.len() != info.num_leds {
            return Err(SenselError);
        }
        let n = led_array.len();
        for i in 0..n
            invariant
                n == led_array@.len(),
                info == self.info(),
                all_within(led_array@.take(i as int), info.max_led_brightness),
        {
            if led_array[i] > info.max_led_brightness {
                assert(!all_within(led_array@, info.max_led_brightness)) by {
                    assert(led_array@[i as int] > info.max_led_brightness);
                }
                return Err(SenselError);
            }
            assert(led_array@.take(i + 1) == led_array@.take(i as int).push(led_array@[i as int]));
        }
        assert(led_array@.take(n as int) == led_array@);
        match self.inner.led_width {
            LEDWidth::Char => {
                let mut buf: Vec<u8> = Vec::new();
                for i in 0..n
                    invariant
                        n == led_array@.len(),
                        buf@ == led_array@.take(i as int).map_values(|b: u16| b as u8),
                {
                    buf.push(#[verifier::truncate] (led_array[i] as u8));
                    assert(led_array@.take(i + 1) == led_array@.take(i as int).push(led_array@[i as int]));
                }
                Ok(LEDArray::Char(buf))
            },
            LEDWidth::Short => Ok(LEDArray::Short(vstd::slice::slice_to_vec(led_array))),
        }
    }

    /// The answer to a power-button query: whether the button is pressed.
    pub fn get_power_button_pressed(&self, status: SenselStatus, pressed: u8) -> (r: Result<bool, SenselError>)
        ensures
            r == status_value(status, pressed != 0),
    {
        sensel_value(status, byte_flag(pressed))
    }

    /// The answer to an LED brightness query: the brightness read.
    pub fn get_led_brightness(&self, status: SenselStatus, brightness: u16) -> (r: Result<u16, SenselError>)
        ensures
            r == status_value(status, brightness),
    {
        sensel_value(status, brightness)
    }

    /// The answer to a scan-mode query: the mode read.
    pub fn get_scan_mode(&self, status: SenselStatus, mode: SenselScanMode) -> (r: Result<SenselScanMode, SenselError>)
        ensures
            r == status_value(status, mode),
    {
        sensel_value(status, mode)
    }

    /// The answer to a scan-detail query: the detail read.
    pub fn get_scan_detail(&self, status: SenselStatus, detail: SenselScanDetail) -> (r: Result<SenselScanDetail, SenselError>)
        ensures
            r == status_value(status, detail),
    {
        sensel_value(status, detail)
    }

    /// The answer to a buffer-control query: the number of frames buffered.
    pub fn get_buffer_control(&self, status: SenselStatus, num: u8) -> (r: Result<u8, SenselError>)
        ensures
            r == status_value(status, num),
    {
        sensel_value(status, num)
    }

    /// The answer to a maximum-frame-rate query: the rate read.
    pub fn get_max_frame_rate(&self, status: SenselStatus, val: u16) -> (r: Result<u16, SenselError>)
        ensures
            r == status_value(status, val),
    {
        sensel_value(status, val)
    }

    /// The answer to a minimum-contact-force query: the force threshold read.
    pub fn get_contacts_min_force(&self, status: SenselStatus, val: u16) -> (r: Result<u16, SenselError>)
        ensures
            r == status_value(status, val),
    {
        sensel_value(status, val)
    }

    /// The answer to a frame-content query: the known content kinds of the byte read.
    pub fn get_frame_content(&self, status: SenselStatus, mask: u8) -> (r: Result<frame::Mask, SenselError>)
        ensures
            r == status_value(status, frame::Mask::spec_from_bits_truncate(mask)),
    {
        sensel_value(status, frame::Mask::from_bits_truncate(mask))
    }

    /// The answer to a contacts-mask query: the known contact content kinds of the
    /// byte read.
    pub fn get_contacts_mask(&self, status: SenselStatus, mask: u8) -> (r: Result<contact::Mask, SenselError>)
        ensures
            r == status_value(status, contact::Mask::spec_from_bits_truncate(mask)),
    {
        sensel_value(status, contact::Mask::from_bits_truncate(mask))
    }

    /// The answer to a blob-merge query: whether blob merging is on.
    pub fn get_contacts_enable_blob_merge(&self, status: SenselStatus, val: u8) -> (r: Result<bool, SenselError>)
        ensures
            r == status_value(status, val != 0),
    {
        sensel_value(status, byte_flag(val))
    }

    /// The answer to a dynamic-baseline query: whether the dynamic baseline is on.
    pub fn get_dynamic_baseline_enabled(&self, status: SenselStatus, val: u8) -> (r: Result<bool, SenselError>)
        ensures
            r == status_value(status, val != 0),
    {
        sensel_value(status, byte_flag(val))
    }
}

impl Device<DeviceNotScanning> {
    /// The device that the answers of a successful opening sequence describe.
    /// Its LED register has the width that the device reported; a device that
    /// reports another width than one or two bytes per LED is not supported.
    pub fn create(replies: OpenReplies) -> (d: Device<DeviceNotScanning>)
        requires
            replies.led_reg_size == 1 || replies.led_reg_size == 2,
        ensures
            d.info() == info_of(replies),
            d.info().supported_frame_content@ == replies.supported_frame_content & 0x0Cu8,
            d.info().sensor_info == replies.sensor_info,
            d.info().fw_info == replies.fw_info,
            d.info().num_leds == replies.num_leds,
            d.info().max_led_brightness == replies.max_led_brightness,
            d.supported_content() == replies.supported_frame_content,
            d.led_width() == (if replies.led_reg_size == 1 {
                LEDWidth::Char
            } else {
                LEDWidth::Short
            }),
    {
        proof {
            lemma_open_information(replies);
        }
        let led_width = if replies.led_reg_size == 1 {
            LEDWidth::Char
        } else {
            LEDWidth::Short
        };
        let info = DeviceInfo {
            sensor_info: replies.sensor_info,
            fw_info: replies.fw_info,
            supported_frame_content: frame::Mask::from_bits_truncate(replies.supported_frame_content),
            num_leds: replies.num_leds as usize,
            max_led_brightness: replies.max_led_brightness,
        };
        Device {
            inner: DeviceImpl { led_width, info, supported_content: replies.supported_frame_content },
            state: DeviceNotScanning,
        }
    }

    /// The device after a request to start scanning answered with `status`: the
    /// scanning device on success, otherwise the error and this device, unchanged.
    pub fn start_scanning(self, status: SenselStatus) -> (r: Result<Device<DeviceScanning>, (SenselError, Self)>)
        ensures
            match r {
                Ok(d) => status == SenselStatus::SENSEL_OK && d.same_device(&self),
                Err((e, d)) => status != SenselStatus::SENSEL_OK && e == SenselError && d.same_device(&self),
            },
    {
        match status {
            SenselStatus::SENSEL_OK => Ok(Device { inner: self.inner, state: DeviceScanning }),
            SenselStatus::SENSEL_ERROR => Err((SenselError, self)),
        }
    }
}

impl Device<DeviceScanning> {
    /// The device after a request to stop scanning answered with `status`: the
    /// idle device on success, otherwise the error and this device, unchanged.
    pub fn stop_scanning(self, status: SenselStatus) -> (r: Result<Device<DeviceNotScanning>, (SenselError, Self)>)
        ensures
            match r {
                Ok(d) => status == SenselStatus::SENSEL_OK && d.same_device(&self),
                Err((e, d)) => status != SenselStatus::SENSEL_OK && e == SenselError && d.same_device(&self),
            },
    {
        match status {
            SenselStatus::SENSEL_OK => Ok(Device { inner: self.inner, state: DeviceNotScanning }),
            SenselStatus::SENSEL_ERROR => Err((SenselError, self)),
        }
    }

    /// The answer to an available-frames query: the number of frames read.
    pub fn get_num_available_frames(&self, status: SenselStatus, num_frames: u32) -> (r: Result<usize, SenselError>)
        ensures
            r == status_value(status, num_frames as usize),
    {
        sensel_value(status, num_frames as usize)
    }

    /// The answer to a frame request: the frame LibSensel filled in, read with
    /// this device's sensor geometry.
    pub fn get_frame(&self, status: SenselStatus, data: SenselFrameData) -> (r: Result<Frame, SenselError>)
        requires
            frame_data_consistent(data),
        ensures
            match r {
                Ok(f) => status == SenselStatus::SENSEL_OK && f@ == frame_view_of(data),
                Err(e) => status != SenselStatus::SENSEL_OK && e == SenselError,
            },
    {
        let f = from_frame_data(data, self.get_info().sensor_info);
        sensel_value(status, f)
    }

    /// The answer to a frame request, pressure and label images included: the
    /// frame LibSensel filled in, read with this device's sensor geometry.
    pub fn get_forces_frame(&self, status: SenselStatus, data: SenselFrameData) -> (r: Result<forces::Frame, SenselError>)
        requires
            forces::frame_data_consistent(data, self.info().sensor_info),
        ensures
            match r {
                Ok(f) => status == SenselStatus::SENSEL_OK && f@ == forces::frame_view_of(
                    data,
                    self.info().sensor_info,
                ),
                Err(e) => status != SenselStatus::SENSEL_OK && e == SenselError,
            },
    {
        let f = forces::from_frame_data(data, self.get_info().sensor_info);
        sensel_value(status, f)
    }
}

/// A setting read back after being written comes back as written: the byte sent
/// for a frame-content mask decodes to that mask.
pub proof fn lemma_frame_content_read_back(mask: frame::Mask)
    requires
        mask.valid(),
    ensures
        status_value(SenselStatus::SENSEL_OK, frame::Mask::spec_from_bits_truncate(mask@)) == Ok::<
            frame::Mask,
            SenselError,
        >(mask),
{
    frame::Mask::lemma_bits_round_trip(mask);
}

/// A setting read back after being written comes back as written: the byte sent
/// for a contacts mask decodes to that mask.
pub proof fn lemma_contacts_mask_read_back(mask: contact::Mask)
    requires
        mask.valid(),
    ensures
        status_value(SenselStatus::SENSEL_OK, contact::Mask::spec_from_bits_truncate(mask@)) == Ok::<
            contact::Mask,
            SenselError,
        >(mask),
{
    contact::Mask::lemma_bits_round_trip(mask);
}

/// A setting read back after being written comes back as written: the byte sent
/// for an on/off setting decodes to that setting.
pub proof fn lemma_flag_read_back(val: bool)
    ensures
        status_value(SenselStatus::SENSEL_OK, spec_flag_byte(val) != 0) == Ok::<bool, SenselError>(val),
{
}

} // verus!
