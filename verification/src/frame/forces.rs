//! Frames as the build with pressure and label images reads them: besides the
//! contacts and the accelerometer reading, a frame may carry a pressure image and
//! a label image, one entry per sensor cell.

use vstd::prelude::*;

use crate::bindings::{
    FRAME_CONTENT_ACCEL_MASK, FRAME_CONTENT_CONTACTS_MASK, FRAME_CONTENT_LABELS_MASK,
    FRAME_CONTENT_PRESSURE_MASK, Float32, SenselAccelData, SenselContact, SenselFrameData,
    SenselSensorInfo,
};
use crate::contact::{contact_of, Contact};
use crate::frame::{has_content, map_contact};

verus! {

/// Every frame content bit of this build.
pub const FRAME_CONTENT_ALL: u8 = FRAME_CONTENT_PRESSURE_MASK | FRAME_CONTENT_LABELS_MASK
    | FRAME_CONTENT_CONTACTS_MASK | FRAME_CONTENT_ACCEL_MASK;

/// The content bits of this build, as numbers.
pub proof fn lemma_content_bits()
    ensures
        FRAME_CONTENT_PRESSURE_MASK == 0x01u8,
        FRAME_CONTENT_LABELS_MASK == 0x02u8,
        FRAME_CONTENT_CONTACTS_MASK == 0x04u8,
        FRAME_CONTENT_ACCEL_MASK == 0x08u8,
        FRAME_CONTENT_ALL == 0x0Fu8,
{
    assert(0x01u8 | 0x02u8 | 0x04u8 | 0x08u8 == 0x0Fu8) by (bit_vector);
}

/// A set of frame content kinds, pressure and label images included.
#[derive(Clone, Copy, Debug, PartialEq, Eq, Structural)]
pub struct Mask {
    bits: u8,
}

impl View for Mask {
    type V = u8;

    closed spec fn view(&self) -> u8 {
        self.bits
    }
}

impl Mask {
    /// A mask holds no bit that names no content kind.
    pub open spec fn valid(self) -> bool {
        self@ & FRAME_CONTENT_ALL == self@
    }

    /// The mask made of the known bits of `bits`.
    pub closed spec fn spec_from_bits_truncate(bits: u8) -> Mask {
        Mask { bits: bits & FRAME_CONTENT_ALL }
    }

    /// The empty set.
    pub fn empty() -> (m: Mask)
        ensures
            m@ == 0,
            m.valid(),
    {
        proof {
            lemma_content_bits();
        }
        assert(0u8 & 0x0Fu8 == 0u8) by (bit_vector);
        Mask { bits: 0 }
    }

    /// The set of every content kind.
    pub fn all() -> (m: Mask)
        ensures
            m@ == FRAME_CONTENT_ALL,
            m.valid(),
    {
        proof {
            lemma_content_bits();
        }
        assert(0x0Fu8 & 0x0Fu8 == 0x0Fu8) by (bit_vector);
        Mask { bits: FRAME_CONTENT_ALL }
    }

    /// The frame carries its pressure image.
    pub fn pressure() -> (m: Mask)
        ensures
            m@ == FRAME_CONTENT_PRESSURE_MASK,
            m.valid(),
    {
        proof {
            lemma_content_bits();
        }
        assert(0x01u8 & 0x0Fu8 == 0x01u8) by (bit_vector);
        Mask { bits: FRAME_CONTENT_PRESSURE_MASK }
    }

    /// The frame carries its label image.
    pub fn labels() -> (m: Mask)
        ensures
            m@ == FRAME_CONTENT_LABELS_MASK,
            m.valid(),
    {
        proof {
            lemma_content_bits();
        }
        assert(0x02u8 & 0x0Fu8 == 0x02u8) by (bit_vector);
        Mask { bits: FRAME_CONTENT_LABELS_MASK }
    }

    /// The frame carries its contacts.
    pub fn contacts() -> (m: Mask)
        ensures
            m@ == FRAME_CONTENT_CONTACTS_MASK,
            m.valid(),
    {
        proof {
            lemma_content_bits();
        }
        assert(0x04u8 & 0x0Fu8 == 0x04u8) by (bit_vector);
        Mask { bits: FRAME_CONTENT_CONTACTS_MASK }
    }

    /// The frame carries accelerometer data.
    pub fn accel() -> (m: Mask)
        ensures
            m@ == FRAME_CONTENT_ACCEL_MASK,
            m.valid(),
    {
        proof {
            lemma_content_bits();
        }
        assert(0x08u8 & 0x0Fu8 == 0x08u8) by (bit_vector);
        Mask { bits: FRAME_CONTENT_ACCEL_MASK }
    }

    /// The byte that LibSensel takes for this mask.
    pub fn bits(&self) -> (b: u8)
        ensures
            b == self@,
    {
        self.bits
    }

    /// The mask of the known bits of `bits`; unknown bits are dropped.
    pub fn from_bits_truncate(bits: u8) -> (m: Mask)
        ensures
            m == Mask::spec_from_bits_truncate(bits),
            m@ == bits & FRAME_CONTENT_ALL,
            m@ == bits & 0x0Fu8,
            m.valid(),
    {
        proof {
            lemma_content_bits();
        }
        assert((bits & 0x0Fu8) & 0x0Fu8 == bits & 0x0Fu8) by (bit_vector);
        Mask { bits: bits & FRAME_CONTENT_ALL }
    }

    /// Whether every kind in `other` is in `self`.
    pub fn contains(&self, other: Mask) -> (b: bool)
        ensures
            b == (self@ & other@ == other@),
    {
        (self.bits & other.bits) == other.bits
    }

    /// Truncating keeps exactly the pressure (0x01), labels (0x02), contacts
    /// (0x04) and accelerometer (0x08) bits of the byte.
    pub proof fn lemma_mask_bits(bits: u8)
        ensures
            Mask::spec_from_bits_truncate(bits)@ == bits & 0x0Fu8,
            Mask::spec_from_bits_truncate(bits)@ & 0xF0u8 == 0,
    {
        lemma_content_bits();
        assert((bits & 0x0Fu8) & 0xF0u8 == 0) by (bit_vector);
    }

    /// Reading back the byte of a mask gives the same mask.
    pub proof fn lemma_bits_round_trip(m: Mask)
        requires
            m.valid(),
        ensures
            Mask::spec_from_bits_truncate(m@) == m,
    {
    }
}

/// A frame, with each optional part present exactly when the frame's content
/// mask announces it.
#[derive(Clone, Debug)]
pub struct Frame {
    /// Number of frames the device dropped before this one.
    pub lost_frame_count: i32,
    contacts: Option<Vec<SenselContact>>,
    force_array: Option<Vec<Float32>>,
    labels_array: Option<Vec<u8>>,
    pub accel_data: Option<SenselAccelData>,
}

/// What a frame holds: its lost-frame count and each part it carries.
pub struct FrameView {
    pub lost_frame_count: i32,
    pub contacts: Option<Seq<SenselContact>>,
    pub force_array: Option<Seq<Float32>>,
    pub labels_array: Option<Seq<u8>>,
    pub accel_data: Option<SenselAccelData>,
}

impl View for Frame {
    type V = FrameView;

    closed spec fn view(&self) -> FrameView {
        FrameView {
            lost_frame_count: self.lost_frame_count,
            contacts: match self.contacts {
                Some(cs) => Some(cs@),
                None => None,
            },
            force_array: match self.force_array {
                Some(fs) => Some(fs@),
                None => None,
            },
            labels_array: match self.labels_array {
                Some(ls) => Some(ls@),
                None => None,
            },
            accel_data: self.accel_data,
        }
    }
}

impl Frame {
    /// Number of frames the device dropped before this one.
    pub fn get_lost_frame_count(&self) -> (n: i32)
        ensures
            n == self@.lost_frame_count,
    {
        self.lost_frame_count
    }

    /// The accelerometer reading, when the frame carries one.
    pub fn get_accel_data(&self) -> (a: Option<SenselAccelData>)
        ensures
            a == self@.accel_data,
    {
        self.accel_data
    }

    /// The pressure image, one force per sensor cell, when the frame carries it.
    pub fn get_force_array(&self) -> (r: Option<&[Float32]>)
        ensures
            match self@.force_array {
                Some(fs) => r matches Some(s) && s@ == fs,
                None => r is None,
            },
    {
        match &self.force_array {
            Some(fs) => Some(fs.as_slice()),
            None => None,
        }
    }

    /// The label image, one label per sensor cell, when the frame carries it.
    pub fn get_labels_array(&self) -> (r: Option<&[u8]>)
        ensures
            match self@.labels_array {
                Some(ls) => r matches Some(s) && s@ == ls,
                None => r is None,
            },
    {
        match &self.labels_array {
            Some(ls) => Some(ls.as_slice()),
            None => None,
        }
    }

    /// The contacts of the frame, in the order the device reported them, when the
    /// frame carries contacts.
    pub fn get_contacts(&self) -> (r: Option<Vec<Contact>>)
        ensures
            match self@.contacts {
                Some(cs) => r matches Some(v) && v@ == cs.map_values(|c: SenselContact| contact_of(c)),
                None => r is None,
            },
    {
        match &self.contacts {
            None => None,
            Some(cs) => {
                let mut out: Vec<Contact> = Vec::new();
                let n = cs.len();
                for i in 0..n
                    invariant
                        n == cs@.len(),
                        out@ == cs@.take(i as int).map_values(|c: SenselContact| contact_of(c)),
                {
                    out.push(map_contact(&cs[i]));
                    assert(cs@.take(i + 1) == cs@.take(i as int).push(cs@[i as int]));
                }
                assert(cs@.take(n as int) == cs@);
                Some(out)
            },
        }
    }
}

/// Number of sensor cells of a sensor.
pub open spec fn num_sensors(sensor: SenselSensorInfo) -> int {
    sensor.num_rows * sensor.num_cols
}

/// What the frame built from `data` for `sensor` holds.
pub open spec fn frame_view_of(data: SenselFrameData, sensor: SenselSensorInfo) -> FrameView {
    FrameView {
        lost_frame_count: data.lost_frame_count,
        contacts: if has_content(data.content_bit_mask, FRAME_CONTENT_CONTACTS_MASK) {
            Some(data.contacts@.take(data.n_contacts as int))
        } else {
            None
        },
        force_array: if has_content(data.content_bit_mask, FRAME_CONTENT_PRESSURE_MASK) {
            Some(data.force_array@.take(num_sensors(sensor)))
        } else {
            None
        },
        labels_array: if has_content(data.content_bit_mask, FRAME_CONTENT_LABELS_MASK) {
            Some(data.labels_array@.take(num_sensors(sensor)))
        } else {
            None
        },
        accel_data: if has_content(data.content_bit_mask, FRAME_CONTENT_ACCEL_MASK) {
            Some(data.accel_data)
        } else {
            None
        },
    }
}

/// Whether `data` is a frame that LibSensel can have filled in for `sensor`: each
/// buffer that the content byte announces holds what the frame takes from it.
pub open spec fn frame_data_consistent(data: SenselFrameData, sensor: SenselSensorInfo) -> bool {
    &&& has_content(data.content_bit_mask, FRAME_CONTENT_CONTACTS_MASK) ==> data.n_contacts
        <= data.contacts@.len()
    &&& has_content(data.content_bit_mask, FRAME_CONTENT_PRESSURE_MASK) ==> num_sensors(sensor)
        <= data.force_array@.len()
    &&& has_content(data.content_bit_mask, FRAME_CONTENT_LABELS_MASK) ==> num_sensors(sensor)
        <= data.labels_array@.len()
}

/// Decoding a frame takes each part exactly when the content byte announces it,
/// whatever the other bits say: the contacts when bit 0x04 is set, and then
/// exactly the first `n_contacts` records, each unchanged and in order; the
/// pressure image when bit 0x01 is set and the label image when bit 0x02 is set,
/// each then exactly the first rows x columns entries of its buffer, unchanged;
/// the accelerometer reading, unchanged, when bit 0x08 is set; and the
/// lost-frame count always.
pub proof fn lemma_frame_decoding(data: SenselFrameData, sensor: SenselSensorInfo)
    ensures
        frame_view_of(data, sensor).lost_frame_count == data.lost_frame_count,
        frame_view_of(data, sensor).contacts is Some <==> data.content_bit_mask & 0x04u8 == 0x04u8,
        data.content_bit_mask & 0x04u8 == 0x04u8 && data.n_contacts <= data.contacts@.len() ==> {
            &&& frame_view_of(data, sensor).contacts matches Some(cs)
            &&& cs.len() == data.n_contacts
            &&& forall|i: int| 0 <= i < cs.len() ==> cs[i] == data.contacts@[i]
        },
        frame_view_of(data, sensor).force_array is Some <==> data.content_bit_mask & 0x01u8 == 0x01u8,
        data.content_bit_mask & 0x01u8 == 0x01u8 && sensor.num_rows * sensor.num_cols
            <= data.force_array@.len() ==> {
            &&& frame_view_of(data, sensor).force_array matches Some(fs)
            &&& fs.len() == sensor.num_rows * sensor.num_cols
            &&& forall|i: int| 0 <= i < fs.len() ==> fs[i] == data.force_array@[i]
        },
        frame_view_of(data, sensor).labels_array is Some <==> data.content_bit_mask & 0x02u8 == 0x02u8,
        data.content_bit_mask & 0x02u8 == 0x02u8 && sensor.num_rows * sensor.num_cols
            <= data.labels_array@.len() ==> {
            &&& frame_view_of(data, sensor).labels_array matches Some(ls)
            &&& ls.len() == sensor.num_rows * sensor.num_cols
            &&& forall|i: int| 0 <= i < ls.len() ==> ls[i] == data.labels_array@[i]
        },
        frame_view_of(data, sensor).accel_data is Some <==> data.content_bit_mask & 0x08u8 == 0x08u8,
        data.content_bit_mask & 0x08u8 == 0x08u8 ==> frame_view_of(data, sensor).accel_data == Some(
            data.accel_data,
        ),
{
    lemma_content_bits();
}

/// The frame that LibSensel filled in: each part is taken exactly when the content
/// byte announces it; the contacts are the first `n_contacts` records of the
/// contact buffer, and each image the first entry of its buffer for every sensor
/// cell.
pub fn from_frame_data(data: SenselFrameData, sensor: SenselSensorInfo) -> (f: Frame)
    requires
        frame_data_consistent(data, sensor),
    ensures
        f@ == frame_view_of(data, sensor),
        f@.lost_frame_count == data.lost_frame_count,
        f@.contacts is Some <==> data.content_bit_mask & 0x04u8 == 0x04u8,
        f@.contacts matches Some(cs) ==> cs.len() == data.n_contacts && forall|i: int|
            0 <= i < cs.len() ==> cs[i] == data.contacts@[i],
        f@.force_array is Some <==> data.content_bit_mask & 0x01u8 == 0x01u8,
        f@.force_array matches Some(fs) ==> fs.len() == sensor.num_rows * sensor.num_cols && forall|i: int|
            0 <= i < fs.len() ==> fs[i] == data.force_array@[i],
        f@.labels_array is Some <==> data.content_bit_mask & 0x02u8 == 0x02u8,
        f@.labels_array matches Some(ls) ==> ls.len() == sensor.num_rows * sensor.num_cols && forall|i: int|
            0 <= i < ls.len() ==> ls[i] == data.labels_array@[i],
        f@.accel_data is Some <==> data.content_bit_mask & 0x08u8 == 0x08u8,
        f@.accel_data matches Some(a) ==> a == data.accel_data,
{
    proof {
        lemma_frame_decoding(data, sensor);
    }
    let mask = Mask::from_bits_truncate(data.content_bit_mask);
    proof {
        lemma_content_bits();
        let b = data.content_bit_mask;
        assert((b & 0x0Fu8) & 0x01u8 == 0x01u8 <==> b & 0x01u8 == 0x01u8) by (bit_vector);
        assert((b & 0x0Fu8) & 0x02u8 == 0x02u8 <==> b & 0x02u8 == 0x02u8) by (bit_vector);
        assert((b & 0x0Fu8) & 0x04u8 == 0x04u8 <==> b & 0x04u8 == 0x04u8) by (bit_vector);
        assert((b & 0x0Fu8) & 0x08u8 == 0x08u8 <==> b & 0x08u8 == 0x08u8) by (bit_vector);
    }
    let SenselFrameData { content_bit_mask: _, lost_frame_count, n_contacts, contacts, force_array, labels_array, accel_data } = data;
    let contacts = if mask.contains(Mask::contacts()) {
        let mut records = contacts;
        records.truncate(n_contacts as usize);
        Some(records)
    } else {
        None
    };
    let force_array = if mask.contains(Mask::pressure()) {
        let mut forces = force_array;
        forces.truncate(sensor.get_num_sensors());
        Some(forces)
    } else {
        None
    };
    let labels_array = if mask.contains(Mask::labels()) {
        let mut labels = labels_array;
        labels.truncate(sensor.get_num_sensors());
        Some(labels)
    } else {
        None
    };
    let accel_data = if mask.contains(Mask::accel()) {
        Some(accel_data)
    } else {
        None
    };
    Frame { lost_frame_count, contacts, force_array, labels_array, accel_data }
}

} // verus!
