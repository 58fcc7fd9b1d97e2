//! Contacts: touches that a device tracks from frame to frame.

use vstd::prelude::*;

use crate::bindings::{
    CONTACT_END, CONTACT_MASK_BOUNDING_BOX, CONTACT_MASK_DELTAS, CONTACT_MASK_ELLIPSE,
    CONTACT_MASK_PEAK, CONTACT_MOVE, CONTACT_START, Float32, SenselContact,
};

verus! {

/// Every contact content bit.
pub const CONTACT_MASK_ALL: u8 = CONTACT_MASK_ELLIPSE | CONTACT_MASK_DELTAS | CONTACT_MASK_BOUNDING_BOX
    | CONTACT_MASK_PEAK;

/// Whether the content byte `bits` has the bit `flag` set.
pub open spec fn has_field(bits: u8, flag: u8) -> bool {
    bits & flag == flag
}

/// The known contact content bits, as numbers.
pub proof fn lemma_contact_bits()
    ensures
        CONTACT_MASK_ELLIPSE == 0x01u8,
        CONTACT_MASK_DELTAS == 0x02u8,
        CONTACT_MASK_BOUNDING_BOX == 0x04u8,
        CONTACT_MASK_PEAK == 0x08u8,
        CONTACT_MASK_ALL == 0x0Fu8,
{
    assert(0x01u8 | 0x02u8 | 0x04u8 | 0x08u8 == 0x0Fu8) by (bit_vector);
}

/// A set of contact content kinds: which optional data a contact carries.
#[derive(Clone, Copy, Debug, PartialEq, Eq, Structural)]
pub struct Mask {
    bits: u8,
}

impl View for Mask {
    type V = u8;

    closed spec fn view(&self) -> u8 {
        self.bits
    }
}

impl Mask {
    /// A mask holds no bit that names no content kind.
    pub open spec fn valid(self) -> bool {
        self@ & CONTACT_MASK_ALL == self@
    }

    /// The mask made of the known bits of `bits`.
    pub closed spec fn spec_from_bits_truncate(bits: u8) -> Mask {
        Mask { bits: bits & CONTACT_MASK_ALL }
    }

    /// The empty set.
    pub fn empty() -> (m: Mask)
        ensures
            m@ == 0,
            m.valid(),
    {
        proof {
            lemma_contact_bits();
        }
        assert(0u8 & 0x0Fu8 == 0u8) by (bit_vector);
        Mask { bits: 0 }
    }

    /// The set of every content kind.
    pub fn all() -> (m: Mask)
        ensures
            m@ == CONTACT_MASK_ALL,
            m.valid(),
    {
        proof {
            lemma_contact_bits();
        }
        assert(0x0Fu8 & 0x0Fu8 == 0x0Fu8) by (bit_vector);
        Mask { bits: CONTACT_MASK_ALL }
    }

    /// Contacts carry their ellipse.
    pub fn ellipse() -> (m: Mask)
        ensures
            m@ == CONTACT_MASK_ELLIPSE,
            m.valid(),
    {
        proof {
            lemma_contact_bits();
        }
        assert(0x01u8 & 0x0Fu8 == 0x01u8) by (bit_vector);
        Mask { bits: CONTACT_MASK_ELLIPSE }
    }

    /// Contacts carry their changes since the previous frame.
    pub fn deltas() -> (m: Mask)
        ensures
            m@ == CONTACT_MASK_DELTAS,
            m.valid(),
    {
        proof {
            lemma_contact_bits();
        }
        assert(0x02u8 & 0x0Fu8 == 0x02u8) by (bit_vector);
        Mask { bits: CONTACT_MASK_DELTAS }
    }

    /// Contacts carry their bounding box.
    pub fn bounding_box() -> (m: Mask)
        ensures
            m@ == CONTACT_MASK_BOUNDING_BOX,
            m.valid(),
    {
        proof {
            lemma_contact_bits();
        }
        assert(0x04u8 & 0x0Fu8 == 0x04u8) by (bit_vector);
        Mask { bits: CONTACT_MASK_BOUNDING_BOX }
    }

    /// Contacts carry their peak.
    pub fn peak() -> (m: Mask)
        ensures
            m@ == CONTACT_MASK_PEAK,
            m.valid(),
    {
        proof {
            lemma_contact_bits();
        }
        assert(0x08u8 & 0x0Fu8 == 0x08u8) by (bit_vector);
        Mask { bits: CONTACT_MASK_PEAK }
    }

    /// The byte that LibSensel takes for this mask.
    pub fn bits(&self) -> (b: u8)
        ensures
            b == self@,
    {
        self.bits
    }

    /// The mask of the known bits of `bits`; unknown bits are dropped.
    pub fn from_bits_truncate(bits: u8) -> (m: Mask)
        ensures
            m == Mask::spec_from_bits_truncate(bits),
            m@ == bits & CONTACT_MASK_ALL,
            m@ == bits & 0x0Fu8,
            m.valid(),
    {
        proof {
            lemma_contact_bits();
        }
        assert((bits & 0x0Fu8) & 0x0Fu8 == bits & 0x0Fu8) by (bit_vector);
        Mask { bits: bits & CONTACT_MASK_ALL }
    }

    /// Whether every kind in `other` is in `self`.
    pub fn contains(&self, other: Mask) -> (b: bool)
        ensures
            b == (self@ & other@ == other@),
    {
        (self.bits & other.bits) == other.bits
    }

    /// Truncating keeps exactly the ellipse (0x01), deltas (0x02), bounding-box
    /// (0x04) and peak (0x08) bits of the byte.
    pub proof fn lemma_mask_bits(bits: u8)
        ensures
            Mask::spec_from_bits_truncate(bits)@ == bits & 0x0Fu8,
            Mask::spec_from_bits_truncate(bits)@ & 0xF0u8 == 0,
    {
        lemma_contact_bits();
        assert((bits & 0x0Fu8) & 0xF0u8 == 0) by (bit_vector);
    }

    /// Reading back the byte of a mask gives the same mask.
    pub proof fn lemma_bits_round_trip(m: Mask)
        requires
            m.valid(),
        ensures
            Mask::spec_from_bits_truncate(m@) == m,
    {
    }
}

/// Where a contact is in its life.
#[derive(Clone, Copy, Debug, PartialEq, Eq, Structural)]
pub enum State {
    /// Not a valid contact (also any state code LibSensel does not define).
    Invalid,
    /// The contact appeared in this frame.
    Start,
    /// The contact persists from an earlier frame.
    Move,
    /// The contact ended in this frame.
    End,
}

impl State {
    /// The state a LibSensel state code stands for.
    pub open spec fn spec_from_code(code: u32) -> State {
        if code == CONTACT_START {
            State::Start
        } else if code == CONTACT_MOVE {
            State::Move
        } else if code == CONTACT_END {
            State::End
        } else {
            State::Invalid
        }
    }

    /// The state a LibSensel state code stands for.
    pub fn from_code(code: u32) -> (s: State)
        ensures
            s == State::spec_from_code(code),
    {
        if code == CONTACT_START {
            State::Start
        } else if code == CONTACT_MOVE {
            State::Move
        } else if code == CONTACT_END {
            State::End
        } else {
            State::Invalid
        }
    }
}

/// The brightness to give the LED of a contact to mark where it is in its life:
/// `on` when the contact starts, zero when it ends, no change otherwise.
pub fn state_led_brightness(state: State, on: u16) -> (r: Option<u16>)
    ensures
        r == match state {
            State::Start => Some(on),
            State::End => Some(0u16),
            _ => None::<u16>,
        },
{
    match state {
        State::Start => Some(on),
        State::End => Some(0),
        _ => None,
    }
}

/// The ellipse that approximates a contact.
#[derive(Clone, Copy, Debug, PartialEq, Eq, Structural)]
pub struct Ellipse {
    pub orientation: Float32,
    pub major_axis: Float32,
    pub minor_axis: Float32,
}

/// Change of a contact since the previous frame.
#[derive(Clone, Copy, Debug, PartialEq, Eq, Structural)]
pub struct Delta {
    pub x: Float32,
    pub y: Float32,
    pub force: Float32,
    pub area: Float32,
}

/// Smallest axis-aligned box around a contact.
#[derive(Clone, Copy, Debug, PartialEq, Eq, Structural)]
pub struct BoundingBox {
    pub min_x: Float32,
    pub min_y: Float32,
    pub max_x: Float32,
    pub max_y: Float32,
}

/// Point of highest force of a contact.
#[derive(Clone, Copy, Debug, PartialEq, Eq, Structural)]
pub struct Peak {
    pub x: Float32,
    pub y: Float32,
    pub force: Float32,
}

/// A contact, with each optional group of data present exactly when the
/// contact's content mask announces it.
#[derive(Clone, Copy, Debug, PartialEq, Eq, Structural)]
pub struct Contact {
    pub id: u8,
    pub state: State,
    pub x: Float32,
    pub y: Float32,
    pub total_force: Float32,
    pub area: Float32,
    pub ellipse: Option<Ellipse>,
    pub delta: Option<Delta>,
    pub bounding_box: Option<BoundingBox>,
    pub peak: Option<Peak>,
}

/// The contact that a LibSensel contact record describes.
pub open spec fn contact_of(c: SenselContact) -> Contact {
    Contact {
        id: c.id,
        state: State::spec_from_code(c.state),
        x: c.x_pos,
        y: c.y_pos,
        total_force: c.total_force,
        area: c.area,
        ellipse: if has_field(c.content_bit_mask, CONTACT_MASK_ELLIPSE) {
            Some(Ellipse { orientation: c.orientation, major_axis: c.major_axis, minor_axis: c.minor_axis })
        } else {
            None
        },
        delta: if has_field(c.content_bit_mask, CONTACT_MASK_DELTAS) {
            Some(Delta { x: c.delta_x, y: c.delta_y, force: c.delta_force, area: c.delta_area })
        } else {
            None
        },
        bounding_box: if has_field(c.content_bit_mask, CONTACT_MASK_BOUNDING_BOX) {
            Some(BoundingBox { min_x: c.min_x, min_y: c.min_y, max_x: c.max_x, max_y: c.max_y })
        } else {
            None
        },
        peak: if has_field(c.content_bit_mask, CONTACT_MASK_PEAK) {
            Some(Peak { x: c.peak_x, y: c.peak_y, force: c.peak_force })
        } else {
            None
        },
    }
}

/// Converting a contact record keeps its id, position, force and area; reads its
/// state code as 1 = start, 2 = move, 3 = end and anything else as invalid; and
/// carries each optional group exactly when the record's content byte announces
/// it, filled from that group's own fields: the ellipse for bit 0x01, the deltas
/// for bit 0x02, the bounding box for bit 0x04 and the peak for bit 0x08.
pub proof fn lemma_contact_conversion(c: SenselContact)
    ensures
        contact_of(c).id == c.id,
        contact_of(c).x == c.x_pos,
        contact_of(c).y == c.y_pos,
        contact_of(c).total_force == c.total_force,
        contact_of(c).area == c.area,
        c.state == 1 ==> contact_of(c).state == State::Start,
        c.state == 2 ==> contact_of(c).state == State::Move,
        c.state == 3 ==> contact_of(c).state == State::End,
        c.state == 0 || c.state > 3 ==> contact_of(c).state == State::Invalid,
        contact_of(c).ellipse is Some <==> c.content_bit_mask & 0x01u8 == 0x01u8,
        contact_of(c).ellipse matches Some(e) ==> e.orientation == c.orientation && e.major_axis
            == c.major_axis && e.minor_axis == c.minor_axis,
        contact_of(c).delta is Some <==> c.content_bit_mask & 0x02u8 == 0x02u8,
        contact_of(c).delta matches Some(d) ==> d.x == c.delta_x && d.y == c.delta_y && d.force
            == c.delta_force && d.area == c.delta_area,
        contact_of(c).bounding_box is Some <==> c.content_bit_mask & 0x04u8 == 0x04u8,
        contact_of(c).bounding_box matches Some(b) ==> b.min_x == c.min_x && b.min_y == c.min_y
            && b.max_x == c.max_x && b.max_y == c.max_y,
        contact_of(c).peak is Some <==> c.content_bit_mask & 0x08u8 == 0x08u8,
        contact_of(c).peak matches Some(p) ==> p.x == c.peak_x && p.y == c.peak_y && p.force
            == c.peak_force,
{
    lemma_contact_bits();
}

impl From<SenselContact> for Contact {
    fn from(c: SenselContact) -> (r: Contact)
        ensures
            r.id == c.id,
            r.ellipse is Some <==> c.content_bit_mask & 0x01u8 == 0x01u8,
            r.delta is Some <==> c.content_bit_mask & 0x02u8 == 0x02u8,
            r.bounding_box is Some <==> c.content_bit_mask & 0x04u8 == 0x04u8,
            r.peak is Some <==> c.content_bit_mask & 0x08u8 == 0x08u8,
    {
        proof {
            lemma_contact_conversion(c);
        }
        let mask = Mask::from_bits_truncate(c.content_bit_mask);
        proof {
            lemma_contact_bits();
            let b = c.content_bit_mask;
            assert((b & 0x0Fu8) & 0x01u8 == 0x01u8 <==> b & 0x01u8 == 0x01u8) by (bit_vector);
            assert((b & 0x0Fu8) & 0x02u8 == 0x02u8 <==> b & 0x02u8 == 0x02u8) by (bit_vector);
            assert((b & 0x0Fu8) & 0x04u8 == 0x04u8 <==> b & 0x04u8 == 0x04u8) by (bit_vector);
            assert((b & 0x0Fu8) & 0x08u8 == 0x08u8 <==> b & 0x08u8 == 0x08u8) by (bit_vector);
        }
        let ellipse = if mask.contains(Mask::ellipse()) {
            Some(Ellipse { orientation: c.orientation, major_axis: c.major_axis, minor_axis: c.minor_axis })
        } else {
            None
        };
        let delta = if mask.contains(Mask::deltas()) {
            Some(Delta { x: c.delta_x, y: c.delta_y, force: c.delta_force, area: c.delta_area })
        } else {
            None
        };
        let bounding_box = if mask.contains(Mask::bounding_box()) {
            Some(BoundingBox { min_x: c.min_x, min_y: c.min_y, max_x: c.max_x, max_y: c.max_y })
        } else {
            None
        };
        let peak = if mask.contains(Mask::peak()) {
            Some(Peak { x: c.peak_x, y: c.peak_y, force: c.peak_force })
        } else {
            None
        };
        Contact {
            id: c.id,
            state: State::from_code(c.state),
            x: c.x_pos,
            y: c.y_pos,
            total_force: c.total_force,
            area: c.area,
            ellipse,
            delta,
            bounding_box,
            peak,
        }
    }
}

impl vstd::std_specs::convert::FromSpecImpl<SenselContact> for Contact {
    open spec fn obeys_from_spec() -> bool {
        true
    }

    open spec fn from_spec(c: SenselContact) -> Contact {
        contact_of(c)
    }
}

} // verus!
