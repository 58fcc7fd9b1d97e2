//! Frames read from a scanning device.

use vstd::prelude::*;

pub mod forces;

use crate::bindings::{
    FRAME_CONTENT_ACCEL_MASK, FRAME_CONTENT_CONTACTS_MASK, SenselAccelData, SenselContact, SenselFrameData,
    SenselSensorInfo,
};
use crate::contact::{contact_of, Contact};


verus! {

/// Every frame content bit that this build knows.
pub const FRAME_CONTENT_ALL: u8 = FRAME_CONTENT_CONTACTS_MASK | FRAME_CONTENT_ACCEL_MASK;

/// Whether the content byte `bits` has the bit `flag` set.
pub open spec fn has_content(bits: u8, flag: u8) -> bool {
    bits & flag == flag
}

/// The known content bits, as numbers.
pub proof fn lemma_content_bits()
    ensures
        FRAME_CONTENT_CONTACTS_MASK == 0x04u8,
        FRAME_CONTENT_ACCEL_MASK == 0x08u8,
        FRAME_CONTENT_ALL == 0x0Cu8,
{
    assert(0x04u8 | 0x08u8 == 0x0Cu8) by (bit_vector);
}

/// A set of frame content kinds: which data a frame carries.
#[derive(Clone, Copy, Debug, PartialEq, Eq, Structural)]
pub struct Mask {
    bits: u8,
}

impl View for Mask {
    type V = u8;

    closed spec fn view(&self) -> u8 {
        self.bits
    }
}

impl Mask {
    /// A mask holds no bit that names no content kind.
    pub open spec fn valid(self) -> bool {
        self@ & FRAME_CONTENT_ALL == self@
    }

    /// The mask made of the known bits of `bits`.
    pub closed spec fn spec_from_bits_truncate(bits: u8) -> Mask {
        Mask { bits: bits & FRAME_CONTENT_ALL }
    }

    /// The view of a truncated mask is the byte with its unknown bits cleared.
    pub proof fn lemma_from_bits_truncate_view(bits: u8)
        ensures
            Mask::spec_from_bits_truncate(bits)@ == bits & FRAME_CONTENT_ALL,
            Mask::spec_from_bits_truncate(bits).valid(),
    {
        lemma_content_bits();
        assert((bits & 0x0Cu8) & 0x0Cu8 == bits & 0x0Cu8) by (bit_vector);
    }

    /// The empty set.
    pub fn empty() -> (m: Mask)
        ensures
            m@ == 0,
            m.valid(),
    {
        proof {
            lemma_content_bits();
        }
        assert(0u8 & 0x0Cu8 == 0u8) by (bit_vector);
        Mask { bits: 0 }
    }

    /// The set of every content kind.
    pub fn all() -> (m: Mask)
        ensures
            m@ == FRAME_CONTENT_ALL,
            m.valid(),
    {
        proof {
            lemma_content_bits();
        }
        assert(0x0Cu8 & 0x0Cu8 == 0x0Cu8) by (bit_vector);
        Mask { bits: FRAME_CONTENT_ALL }
    }

    /// The frame carries its contacts.
    pub fn contacts() -> (m: Mask)
        ensures
            m@ == FRAME_CONTENT_CONTACTS_MASK,
            m.valid(),
    {
        proof {
            lemma_content_bits();
        }
        assert(0x04u8 & 0x0Cu8 == 0x04u8) by (bit_vector);
        Mask { bits: FRAME_CONTENT_CONTACTS_MASK }
    }

    /// The frame carries accelerometer data.
    pub fn accel() -> (m: Mask)
        ensures
            m@ == FRAME_CONTENT_ACCEL_MASK,
            m.valid(),
    {
        proof {
            lemma_content_bits();
        }
        assert(0x08u8 & 0x0Cu8 == 0x08u8) by (bit_vector);
        Mask { bits: FRAME_CONTENT_ACCEL_MASK }
    }

    /// The byte that LibSensel takes for this mask.
    pub fn bits(&self) -> (b: u8)
        ensures
            b == self@,
    {
        self.bits
    }

    /// The mask of the known bits of `bits`; unknown bits are dropped.
    pub fn from_bits_truncate(bits: u8) -> (m: Mask)
        ensures
            m == Mask::spec_from_bits_truncate(bits),
            m@ == bits & FRAME_CONTENT_ALL,
            m@ == bits & 0x0Cu8,
            m.valid(),
    {
        proof {
            lemma_content_bits();
            Mask::lemma_from_bits_truncate_view(bits);
        }
        Mask { bits: bits & FRAME_CONTENT_ALL }
    }

    /// Whether every kind in `other` is in `self`.
    pub fn contains(&self, other: Mask) -> (b: bool)
        ensures
            b == (self@ & other@ == other@),
    {
        (self.bits & other.bits) == other.bits
    }

    /// Truncating keeps exactly the contacts bit (0x04) and the accelerometer
    /// bit (0x08) of the byte.
    pub proof fn lemma_mask_bits(bits: u8)
        ensures
            Mask::spec_from_bits_truncate(bits)@ == bits & 0x0Cu8,
            Mask::spec_from_bits_truncate(bits)@ & 0x04u8 == bits & 0x04u8,
            Mask::spec_from_bits_truncate(bits)@ & 0x08u8 == bits & 0x08u8,
            Mask::spec_from_bits_truncate(bits)@ & 0xF3u8 == 0,
    {
        lemma_content_bits();
        assert((bits & 0x0Cu8) & 0x04u8 == bits & 0x04u8) by (bit_vector);
        assert((bits & 0x0Cu8) & 0x08u8 == bits & 0x08u8) by (bit_vector);
        assert((bits & 0x0Cu8) & 0xF3u8 == 0) by (bit_vector);
    }

    /// Reading back the byte of a mask gives the same mask.
    pub proof fn lemma_bits_round_trip(m: Mask)
        requires
            m.valid(),
        ensures
            Mask::spec_from_bits_truncate(m@) == m,
    {
    }
}

/// A frame, with each optional part present exactly when the frame's content
/// mask announces it.
#[derive(Clone, Debug)]
pub struct Frame {
    /// Number of frames the device dropped before this one.
    pub lost_frame_count: i32,
    contacts: Option<Vec<SenselContact>>,
    pub accel_data: Option<SenselAccelData>,
}

/// The contact that a LibSensel contact record describes.
pub fn map_contact(c: &SenselContact) -> (r: Contact)
    ensures
        r == contact_of(*c),
{
    Contact::from(*c)
}

/// What a frame holds: its lost-frame count, the raw contact records when it
/// carries contacts, and the accelerometer reading when it carries one.
pub struct FrameView {
    pub lost_frame_count: i32,
    pub contacts: Option<Seq<SenselContact>>,
    pub accel_data: Option<SenselAccelData>,
}

impl View for Frame {
    type V = FrameView;

    closed spec fn view(&self) -> FrameView {
        FrameView {
            lost_frame_count: self.lost_frame_count,
            contacts: match self.contacts {
                Some(cs) => Some(cs@),
                None => None,
            },
            accel_data: self.accel_data,
        }
    }
}

impl Frame {
    /// Number of frames the device dropped before this one.
    pub fn get_lost_frame_count(&self) -> (n: i32)
        ensures
            n == self@.lost_frame_count,
    {
        self.lost_frame_count
    }

    /// The accelerometer reading, when the frame carries one.
    pub fn get_accel_data(&self) -> (a: Option<SenselAccelData>)
        ensures
            a == self@.accel_data,
    {
        self.accel_data
    }

    /// The contacts of the frame, in the order the device reported them, when the
    /// frame carries contacts.
    pub fn get_contacts(&self) -> (r: Option<Vec<Contact>>)
        ensures
            match self@.contacts {
                Some(cs) => r matches Some(v) && v@ == cs.map_values(|c: SenselContact| contact_of(c)),
                None => r is None,
            },
    {
        match &self.contacts {
            None => None,
            Some(cs) => {
                let mut out: Vec<Contact> = Vec::new();
                let n = cs.len();
                for i in 0..n
                    invariant
                        n == cs@.len(),
                        out@ == cs@.take(i as int).map_values(|c: SenselContact| contact_of(c)),
                {
                    out.push(map_contact(&cs[i]));
                    assert(cs@.take(i + 1) == cs@.take(i as int).push(cs@[i as int]));
                }
                assert(cs@.take(n as int) == cs@);
                Some(out)
            },
        }
    }
}

/// What the frame built from `data` holds.
pub open spec fn frame_view_of(data: SenselFrameData) -> FrameView {
    FrameView {
        lost_frame_count: data.lost_frame_count,
        contacts: if has_content(data.content_bit_mask, FRAME_CONTENT_CONTACTS_MASK) {
            Some(data.contacts@.take(data.n_contacts as int))
        } else {
            None
        },
        accel_data: if has_content(data.content_bit_mask, FRAME_CONTENT_ACCEL_MASK) {
            Some(data.accel_data)
        } else {
            None
        },
    }
}

/// Whether `data` is a frame that LibSensel can have filled in: when it announces
/// contacts, its contact buffer holds at least `n_contacts` records.
pub open spec fn frame_data_consistent(data: SenselFrameData) -> bool {
    has_content(data.content_bit_mask, FRAME_CONTENT_CONTACTS_MASK) ==> data.n_contacts
        <= data.contacts@.len()
}

/// Decoding a frame takes each part exactly when the content byte announces it,
/// whatever the other bits say: the contacts when bit 0x04 is set, and then
/// exactly the first `n_contacts` records of the buffer, each unchanged and in
/// order, whatever their states; the accelerometer reading, unchanged, when bit
/// 0x08 is set; and the lost-frame count always.
pub proof fn lemma_frame_decoding(data: SenselFrameData)
    ensures
        frame_view_of(data).lost_frame_count == data.lost_frame_count,
        frame_view_of(data).contacts is Some <==> data.content_bit_mask & 0x04u8 == 0x04u8,
        data.content_bit_mask & 0x04u8 == 0x04u8 && data.n_contacts <= data.contacts@.len() ==> {
            &&& frame_view_of(data).contacts matches Some(cs)
            &&& cs.len() == data.n_contacts
            &&& forall|i: int| 0 <= i < cs.len() ==> cs[i] == data.contacts@[i]
        },
        frame_view_of(data).accel_data is Some <==> data.content_bit_mask & 0x08u8 == 0x08u8,
        data.content_bit_mask & 0x08u8 == 0x08u8 ==> frame_view_of(data).accel_data == Some(
            data.accel_data,
        ),
{
    lemma_content_bits();
}

/// The frame that LibSensel filled in: contacts and accelerometer data are taken
/// exactly when the content byte announces them, the contacts being the first
/// `n_contacts` records of the contact buffer. The sensor geometry is needed only
/// for the pressure and label images, which [`forces::from_frame_data`] reads.
pub fn from_frame_data(data: SenselFrameData, _sensor: SenselSensorInfo) -> (f: Frame)
    requires
        frame_data_consistent(data),
    ensures
        f@ == frame_view_of(data),
        f@.lost_frame_count == data.lost_frame_count,
        f@.contacts is Some <==> data.content_bit_mask & 0x04u8 == 0x04u8,
        f@.contacts matches Some(cs) ==> cs.len() == data.n_contacts && forall|i: int|
            0 <= i < cs.len() ==> cs[i] == data.contacts@[i],
        f@.accel_data is Some <==> data.content_bit_mask & 0x08u8 == 0x08u8,
        f@.accel_data matches Some(a) ==> a == data.accel_data,
{
    proof {
        lemma_frame_decoding(data);
    }
    let mask = Mask::from_bits_truncate(data.content_bit_mask);
    proof {
        lemma_content_bits();
        let b = data.content_bit_mask;
        assert((b & 0x0Cu8) & 0x04u8 == 0x04u8 <==> b & 0x04u8 == 0x04u8) by (bit_vector);
        assert((b & 0x0Cu8) & 0x08u8 == 0x08u8 <==> b & 0x08u8 == 0x08u8) by (bit_vector);
    }
    let contacts = if mask.contains(Mask::contacts()) {
        let mut records = data.contacts;
        records.truncate(data.n_contacts as usize);
        Some(records)
    } else {
        None
    };
    let accel_data = if mask.contains(Mask::accel()) {
        Some(data.accel_data)
    } else {
        None
    };
    Frame { lost_frame_count: data.lost_frame_count, contacts, accel_data }
}

} // verus!
