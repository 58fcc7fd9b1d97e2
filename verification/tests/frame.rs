use sensel::bindings::{
    Float32, SenselAccelData, SenselContact, SenselFrameData, SenselSensorInfo,
    FRAME_CONTENT_ACCEL_MASK, FRAME_CONTENT_CONTACTS_MASK,
};
use sensel::contact::State;
use sensel::frame::forces;
use sensel::frame::forces::Mask as ForcesMask;
use sensel::frame::{from_frame_data, map_contact, Mask};

fn f(v: f32) -> Float32 {
    Float32(v.to_bits())
}

fn contact(id: u8, mask: u8) -> SenselContact {
    SenselContact {
        content_bit_mask: mask,
        id,
        state: 2,
        x_pos: f(10.5),
        y_pos: f(20.25),
        total_force: f(300.0),
        area: f(12.0),
        orientation: f(1.0),
        major_axis: f(2.0),
        minor_axis: f(3.0),
        delta_x: f(0.5),
        delta_y: f(0.25),
        delta_force: f(4.0),
        delta_area: f(1.0),
        min_x: f(9.0),
        min_y: f(19.0),
        max_x: f(12.0),
        max_y: f(22.0),
        peak_x: f(10.0),
        peak_y: f(20.0),
        peak_force: f(50.0),
    }
}

fn sensor() -> SenselSensorInfo {
    SenselSensorInfo { max_contacts: 4, num_rows: 105, num_cols: 185, width: f(230.0), height: f(130.0) }
}

fn accel() -> SenselAccelData {
    SenselAccelData { x: 1, y: -2, z: 980 }
}

#[test]
fn mask_truncates_unknown_bits() {
    assert_eq!(Mask::from_bits_truncate(0xFF).bits(), 0x0C);
    assert_eq!(Mask::from_bits_truncate(0x03).bits(), 0x00);
    assert_eq!(Mask::from_bits_truncate(0x03), Mask::empty());
    assert_eq!(Mask::all().bits(), FRAME_CONTENT_CONTACTS_MASK | FRAME_CONTENT_ACCEL_MASK);
}

#[test]
fn mask_contains() {
    let both = Mask::from_bits_truncate(0x0C);
    assert!(both.contains(Mask::contacts()));
    assert!(both.contains(Mask::accel()));
    assert!(both.contains(Mask::empty()));
    assert!(!Mask::accel().contains(Mask::contacts()));
    assert!(!Mask::accel().contains(both));
}

#[test]
fn mask_round_trips_through_its_byte() {
    for m in [Mask::empty(), Mask::contacts(), Mask::accel(), Mask::all()] {
        assert_eq!(Mask::from_bits_truncate(m.bits()), m);
    }
}

#[test]
fn frame_with_contacts_and_accel() {
    let buffer = [contact(1, 0), contact(2, 0x0F), contact(3, 0), contact(4, 0)];
    let data = SenselFrameData {
        content_bit_mask: FRAME_CONTENT_CONTACTS_MASK | FRAME_CONTENT_ACCEL_MASK,
        lost_frame_count: 5,
        n_contacts: 2,
        contacts: buffer.to_vec(),
        force_array: vec![],
        labels_array: vec![],
        accel_data: accel(),
    };
    let frame = from_frame_data(data, sensor());
    assert_eq!(frame.lost_frame_count, 5);
    assert_eq!(frame.get_lost_frame_count(), 5);
    assert_eq!(frame.get_accel_data(), Some(accel()));
    assert_eq!(frame.accel_data, Some(accel()));
    let contacts = frame.get_contacts().unwrap();
    assert_eq!(contacts.len(), 2);
    assert_eq!(contacts[0].id, 1);
    assert_eq!(contacts[1].id, 2);
    assert_eq!(contacts[1].state, State::Move);
    assert_eq!(contacts[0], map_contact(&buffer[0]));
}

#[test]
fn frame_without_announced_parts() {
    let buffer = [contact(1, 0)];
    let data = SenselFrameData {
        content_bit_mask: 0x03,
        lost_frame_count: 0,
        n_contacts: 200,
        contacts: buffer.to_vec(),
        force_array: vec![],
        labels_array: vec![],
        accel_data: accel(),
    };
    let frame = from_frame_data(data, sensor());
    assert!(frame.get_contacts().is_none());
    assert_eq!(frame.accel_data, None);
}

#[test]
fn frame_with_contacts_only() {
    let buffer = [contact(1, 0), contact(2, 0)];
    let data = SenselFrameData {
        content_bit_mask: FRAME_CONTENT_CONTACTS_MASK,
        lost_frame_count: -1,
        n_contacts: 0,
        contacts: buffer.to_vec(),
        force_array: vec![],
        labels_array: vec![],
        accel_data: accel(),
    };
    let frame = from_frame_data(data, sensor());
    assert_eq!(frame.get_contacts(), Some(vec![]));
    assert_eq!(frame.accel_data, None);
    assert_eq!(frame.lost_frame_count, -1);
}

#[test]
fn forces_frame_takes_announced_images() {
    let sensor = SenselSensorInfo { max_contacts: 4, num_rows: 2, num_cols: 2, width: f(1.0), height: f(1.0) };
    let data = SenselFrameData {
        content_bit_mask: 0x0F,
        lost_frame_count: 1,
        n_contacts: 1,
        contacts: vec![contact(9, 0)],
        force_array: vec![f(1.0), f(2.0), f(3.0), f(4.0), f(5.0)],
        labels_array: vec![1, 2, 3, 4],
        accel_data: accel(),
    };
    let frame = forces::from_frame_data(data, sensor);
    assert_eq!(frame.get_force_array().unwrap(), &[f(1.0), f(2.0), f(3.0), f(4.0)][..]);
    assert_eq!(frame.get_labels_array().unwrap(), &[1u8, 2, 3, 4][..]);
    assert_eq!(frame.get_contacts().unwrap().len(), 1);
    assert_eq!(frame.get_accel_data(), Some(accel()));
    assert_eq!(frame.get_lost_frame_count(), 1);
}

#[test]
fn forces_frame_leaves_out_what_is_not_announced() {
    let data = SenselFrameData {
        content_bit_mask: 0xF0,
        lost_frame_count: 0,
        n_contacts: 9,
        contacts: vec![],
        force_array: vec![],
        labels_array: vec![],
        accel_data: accel(),
    };
    let frame = forces::from_frame_data(data, sensor());
    assert!(frame.get_force_array().is_none());
    assert!(frame.get_labels_array().is_none());
    assert!(frame.get_contacts().is_none());
    assert_eq!(frame.get_accel_data(), None);
}

#[test]
fn forces_mask_keeps_image_bits() {
    assert_eq!(ForcesMask::from_bits_truncate(0xFF).bits(), 0x0F);
    assert!(ForcesMask::from_bits_truncate(0x03).contains(ForcesMask::pressure()));
    assert!(ForcesMask::from_bits_truncate(0x03).contains(ForcesMask::labels()));
    assert!(!ForcesMask::pressure().contains(ForcesMask::accel()));
    for m in [ForcesMask::empty(), ForcesMask::pressure(), ForcesMask::labels(), ForcesMask::contacts(), ForcesMask::accel(), ForcesMask::all()] {
        assert_eq!(ForcesMask::from_bits_truncate(m.bits()), m);
    }
}
