use sensel::bindings::{
    SenselAccelData, SenselFrameData, FRAME_CONTENT_ACCEL_MASK, FRAME_CONTENT_PRESSURE_MASK,
    Float32, SenselDeviceID, SenselDeviceList, SenselFirmwareInfo, SenselScanDetail, SenselScanMode,
    SenselSensorInfo, SenselStatus,
    SENSEL_MAX_DEVICES, SENSEL_MAX_STRING_LEN,
};
use sensel::device::{
    byte_flag, flag_byte, Device, DeviceList, DeviceNotScanning, LEDArray, LEDWidth, OpenReplies,
    OpenStep,
};
use sensel::{contact, frame, SenselError, MAX_DEVICES};

fn padded(s: &str) -> [u8; SENSEL_MAX_STRING_LEN] {
    let mut out = [0u8; SENSEL_MAX_STRING_LEN];
    out[..s.len()].copy_from_slice(s.as_bytes());
    out
}

fn device_id(idx: u8, serial: &str, port: &str) -> SenselDeviceID {
    SenselDeviceID { idx, serial_num: padded(serial), com_port: padded(port) }
}

fn sensor_info(rows: u16, cols: u16) -> SenselSensorInfo {
    SenselSensorInfo {
        max_contacts: 16,
        num_rows: rows,
        num_cols: cols,
        width: Float32(230.0f32.to_bits()),
        height: Float32(130.0f32.to_bits()),
    }
}

fn fw_info() -> SenselFirmwareInfo {
    SenselFirmwareInfo {
        fw_protocol_version: 1,
        fw_version_major: 0,
        fw_version_minor: 19,
        fw_version_build: 4,
        fw_version_release: 1,
        device_id: 1,
        device_revision: 2,
    }
}

fn replies(led_reg_size: u8) -> OpenReplies {
    OpenReplies {
        fw_info: fw_info(),
        sensor_info: sensor_info(105, 185),
        supported_frame_content: 0xFF,
        num_leds: 3,
        max_led_brightness: 100,
        led_reg_size,
    }
}

const OK: SenselStatus = SenselStatus::SENSEL_OK;
const ERR: SenselStatus = SenselStatus::SENSEL_ERROR;

#[test]
fn num_sensors_is_rows_times_cols() {
    assert_eq!(sensor_info(105, 185).get_num_sensors(), 19425);
    assert_eq!(sensor_info(0, 185).get_num_sensors(), 0);
    assert_eq!(sensor_info(65535, 65535).get_num_sensors(), 4294836225);
}

#[test]
fn device_list_slice_holds_the_listed_devices() {
    let mut devices = [device_id(0, "", ""); SENSEL_MAX_DEVICES];
    devices[0] = device_id(7, "SM01", "/dev/ttyACM0");
    devices[1] = device_id(9, "SM02", "/dev/ttyACM1");
    let list: DeviceList = SenselDeviceList { num_devices: 2, devices }.into();
    let slice = list.as_slice();
    assert_eq!(slice.len(), 2);
    assert_eq!(slice[0].idx, 7);
    assert_eq!(slice[1].idx, 9);
}

#[test]
fn empty_and_full_device_lists() {
    let devices = [device_id(3, "", ""); SENSEL_MAX_DEVICES];
    let empty = DeviceList::from(SenselDeviceList { num_devices: 0, devices });
    assert_eq!(empty.as_slice().len(), 0);
    let full = DeviceList::from(SenselDeviceList { num_devices: MAX_DEVICES as u8, devices });
    assert_eq!(full.as_slice().len(), MAX_DEVICES);
}

#[test]
fn serial_number_and_port_keep_their_padding() {
    let id = device_id(0, "SM01173203441", "/dev/ttyACM0");
    let serial = id.get_serial_num();
    assert_eq!(serial.len(), SENSEL_MAX_STRING_LEN);
    assert!(serial.starts_with("SM01173203441\0"));
    assert_eq!(serial.trim_end_matches('\0'), "SM01173203441");
    assert_eq!(id.get_com_port().trim_end_matches('\0'), "/dev/ttyACM0");
}

#[test]
fn serial_number_decodes_multibyte_utf8() {
    let id = device_id(0, "Sé", "");
    assert_eq!(id.get_serial_num().trim_end_matches('\0'), "Sé");
}

#[test]
fn open_sequence_visits_every_request_in_order() {
    let mut step = OpenStep::first();
    let mut seen = vec![step];
    while let Some(next) = step.after(OK).unwrap() {
        seen.push(next);
        step = next;
    }
    assert_eq!(
        seen,
        vec![
            OpenStep::OpenDeviceByID,
            OpenStep::GetFirmwareInfo,
            OpenStep::GetSensorInfo,
            OpenStep::GetSupportedFrameContent,
            OpenStep::GetNumAvailableLEDs,
            OpenStep::GetMaxLEDBrightness,
            OpenStep::ReadLEDBrightnessSize,
            OpenStep::AllocateFrameData,
        ]
    );
}

#[test]
fn open_sequence_stops_at_a_failure() {
    assert_eq!(OpenStep::GetSensorInfo.after(ERR), Err(SenselError));
    assert_eq!(OpenStep::AllocateFrameData.after(OK), Ok(None));
    assert_eq!(OpenStep::OpenDeviceByID.after(ERR), Err(SenselError));
}

#[test]
fn create_records_the_reported_information() {
    let device: Device<DeviceNotScanning> = Device::create(replies(1));
    let info = device.get_info();
    assert_eq!(info.num_leds, 3);
    assert_eq!(info.max_led_brightness, 100);
    assert_eq!(info.sensor_info, sensor_info(105, 185));
    assert_eq!(info.fw_info, fw_info());
    assert_eq!(info.supported_frame_content, frame::Mask::all());
    assert_eq!(info.supported_frame_content.bits(), 0x0C);
}

#[test]
fn led_array_of_one_byte_registers_truncates() {
    let mut r = replies(1);
    r.max_led_brightness = 0x1FF;
    let device = Device::create(r);
    match device.set_led_array(&[0, 0x1FF, 0x100]).unwrap() {
        LEDArray::Char(buf) => assert_eq!(buf, vec![0u8, 0xFF, 0x00]),
        LEDArray::Short(_) => panic!("one-byte register expected"),
    }
}

#[test]
fn led_array_of_two_byte_registers_is_copied() {
    let device = Device::create(replies(2));
    match device.set_led_array(&[10, 100, 0]).unwrap() {
        LEDArray::Short(buf) => assert_eq!(buf, vec![10u16, 100, 0]),
        LEDArray::Char(_) => panic!("two-byte register expected"),
    }
}

#[test]
fn led_array_errors() {
    let device = Device::create(replies(2));
    assert!(device.set_led_array(&[1, 2]).is_err());
    assert!(device.set_led_array(&[1, 2, 3, 4]).is_err());
    assert!(device.set_led_array(&[1, 101, 3]).is_err());
    assert!(device.set_led_array(&[100, 100, 100]).is_ok());
    assert_eq!(device.set_led_array(&[100, 100, 100]).unwrap().len(), 3);
}

#[test]
fn led_width_is_visible_through_the_buffer() {
    assert!(matches!(Device::create(replies(1)).set_led_array(&[1, 2, 3]), Ok(LEDArray::Char(_))));
    assert!(matches!(Device::create(replies(2)).set_led_array(&[1, 2, 3]), Ok(LEDArray::Short(_))));
    let _ = LEDWidth::Char;
}

#[test]
fn scanning_transitions_keep_the_device() {
    let idle = Device::create(replies(2));
    let scanning = match idle.start_scanning(ERR) {
        Ok(_) => panic!("a failed start must not scan"),
        Err((e, idle)) => {
            assert_eq!(e, SenselError);
            idle.start_scanning(OK).ok().unwrap()
        }
    };
    assert_eq!(scanning.get_info().num_leds, 3);
    let scanning = match scanning.stop_scanning(ERR) {
        Ok(_) => panic!("a failed stop must keep scanning"),
        Err((_, s)) => s,
    };
    let idle = scanning.stop_scanning(OK).ok().unwrap();
    assert_eq!(idle.get_info().max_led_brightness, 100);
}

#[test]
fn getters_decode_the_answers() {
    let device = Device::create(replies(2));
    assert_eq!(device.get_power_button_pressed(OK, 3), Ok(true));
    assert_eq!(device.get_power_button_pressed(OK, 0), Ok(false));
    assert_eq!(device.get_power_button_pressed(ERR, 1), Err(SenselError));
    assert_eq!(device.get_contacts_enable_blob_merge(OK, 0), Ok(false));
    assert_eq!(device.get_dynamic_baseline_enabled(OK, 1), Ok(true));
    assert_eq!(device.get_dynamic_baseline_enabled(ERR, 1), Err(SenselError));
    assert_eq!(device.get_frame_content(OK, 0xFF).unwrap().bits(), 0x0C);
    assert_eq!(device.get_contacts_mask(OK, 0xF8).unwrap().bits(), 0x08);
    assert_eq!(device.get_contacts_mask(ERR, 0x08), Err(SenselError));
    assert_eq!(device.get_led_brightness(OK, 100), Ok(100));
    assert_eq!(device.get_led_brightness(ERR, 100), Err(SenselError));
    assert_eq!(device.get_scan_mode(OK, SenselScanMode::SCAN_MODE_ASYNC), Ok(SenselScanMode::SCAN_MODE_ASYNC));
    assert_eq!(device.get_scan_detail(OK, SenselScanDetail::SCAN_DETAIL_LOW), Ok(SenselScanDetail::SCAN_DETAIL_LOW));
    assert_eq!(device.get_scan_detail(ERR, SenselScanDetail::SCAN_DETAIL_LOW), Err(SenselError));
    assert_eq!(device.get_buffer_control(OK, 42), Ok(42));
    assert_eq!(device.get_max_frame_rate(OK, 42), Ok(42));
    assert_eq!(device.get_contacts_min_force(OK, 42), Ok(42));
    assert_eq!(device.get_contacts_min_force(ERR, 42), Err(SenselError));
    let scanning = device.start_scanning(OK).ok().unwrap();
    assert_eq!(scanning.get_num_available_frames(OK, 7), Ok(7));
    assert_eq!(scanning.get_num_available_frames(ERR, 7), Err(SenselError));
}

#[test]
fn settings_read_back_as_written() {
    let device = Device::create(replies(2));
    for m in [frame::Mask::accel(), frame::Mask::contacts(), frame::Mask::empty(), frame::Mask::all()] {
        assert_eq!(device.get_frame_content(OK, m.bits()), Ok(m));
    }
    assert_eq!(device.get_contacts_mask(OK, contact::Mask::peak().bits()), Ok(contact::Mask::peak()));
    for v in [false, true] {
        assert_eq!(device.get_contacts_enable_blob_merge(OK, flag_byte(v)), Ok(v));
        assert_eq!(byte_flag(flag_byte(v)), v);
    }
}

#[test]
fn frames_are_read_with_the_device() {
    let scanning = Device::create(replies(2)).start_scanning(OK).ok().unwrap();
    let data = SenselFrameData {
        content_bit_mask: FRAME_CONTENT_ACCEL_MASK,
        lost_frame_count: 2,
        n_contacts: 0,
        contacts: vec![],
        force_array: vec![],
        labels_array: vec![],
        accel_data: SenselAccelData { x: 0, y: 0, z: 1 },
    };
    let frame = scanning.get_frame(OK, data.clone()).unwrap();
    assert_eq!(frame.lost_frame_count, 2);
    assert_eq!(frame.accel_data, Some(SenselAccelData { x: 0, y: 0, z: 1 }));
    assert!(frame.get_contacts().is_none());
    assert!(scanning.get_frame(ERR, data).is_err());
}

#[test]
fn device_list_answer_holds_the_list() {
    let mut devices = [device_id(0, "", ""); SENSEL_MAX_DEVICES];
    devices[0] = device_id(4, "SM04", "COM4");
    let list = SenselDeviceList { num_devices: 1, devices };
    let answer = DeviceList::get_device_list(OK, list).ok().unwrap();
    assert_eq!(answer.num_devices(), 1);
    assert_eq!(answer.as_slice().len(), 1);
    assert_eq!(answer.as_slice()[0].idx, 4);
    assert!(DeviceList::get_device_list(ERR, list).is_err());
    let claimed = DeviceList::from(SenselDeviceList { num_devices: 17, devices });
    assert_eq!(claimed.num_devices(), 17);
}

#[test]
fn checked_string_getters() {
    let id = device_id(0, "SM01", "COM3");
    assert_eq!(id.try_get_serial_num().unwrap().trim_end_matches('\0'), "SM01");
    assert_eq!(id.try_get_com_port().unwrap().trim_end_matches('\0'), "COM3");
    let mut bad = id;
    bad.serial_num[1] = 0xFF;
    bad.com_port[0] = 0xC0;
    assert_eq!(bad.try_get_serial_num(), None);
    assert_eq!(bad.try_get_com_port(), None);
}

#[test]
fn device_keeps_its_record_through_scanning() {
    let idle = Device::create(replies(2));
    let info = idle.get_info();
    let idle = match idle.start_scanning(ERR) {
        Err((_, d)) => d,
        Ok(_) => panic!("a failed start must not scan"),
    };
    let scanning = idle.start_scanning(OK).ok().unwrap();
    let scanning = match scanning.stop_scanning(ERR) {
        Err((_, d)) => d,
        Ok(_) => panic!("a failed stop must keep scanning"),
    };
    let idle = scanning.stop_scanning(OK).ok().unwrap();
    let after = idle.get_info();
    assert_eq!(after.sensor_info, info.sensor_info);
    assert_eq!(after.fw_info, info.fw_info);
    assert_eq!(after.supported_frame_content, info.supported_frame_content);
    assert_eq!(after.num_leds, info.num_leds);
    assert_eq!(after.max_led_brightness, info.max_led_brightness);
    assert_eq!(idle.get_forces_supported_frame_content().bits(), 0x0F);
}

#[test]
fn forces_frame_content_keeps_image_bits() {
    let device = Device::create(replies(2));
    assert_eq!(device.get_forces_frame_content(OK, 0xF3).unwrap().bits(), 0x03);
    assert_eq!(device.get_frame_content(OK, 0xF3).unwrap().bits(), 0x00);
    assert!(device.get_forces_frame_content(ERR, 0x01).is_err());
}

#[test]
fn forces_frames_are_read_with_the_sensor_geometry() {
    let mut r = replies(2);
    r.sensor_info = sensor_info(2, 3);
    let scanning = Device::create(r).start_scanning(OK).ok().unwrap();
    let data = SenselFrameData {
        content_bit_mask: FRAME_CONTENT_PRESSURE_MASK,
        lost_frame_count: 0,
        n_contacts: 0,
        contacts: vec![],
        force_array: (0..8u32).map(Float32).collect(),
        labels_array: vec![],
        accel_data: SenselAccelData { x: 0, y: 0, z: 0 },
    };
    let frame = scanning.get_forces_frame(OK, data.clone()).unwrap();
    assert_eq!(frame.get_force_array().unwrap().len(), 6);
    assert_eq!(frame.get_force_array().unwrap()[5], Float32(5));
    assert!(frame.get_labels_array().is_none());
    assert!(scanning.get_forces_frame(ERR, data).is_err());
}
