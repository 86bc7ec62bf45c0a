use vstd::prelude::*;

verus! {

/// The set of window edges that a resize drags, as the bits of the wire
/// encoding: 1 top, 2 bottom, 4 left, 8 right.
#[derive(Clone, Copy, Debug, PartialEq, Eq, Hash, Structural)]
pub struct ResizeEdge {
    bits: u32,
}

impl ResizeEdge {
    /// Which edges each named set holds.
    proof fn lemma_named_bits(b: u32)
        ensures
            (b == 1u32 ==> (b & 1u32 != 0 && b & 2u32 == 0 && b & 4u32 == 0 && b & 8u32 == 0)),
            (b == 2u32 ==> (b & 1u32 == 0 && b & 2u32 != 0 && b & 4u32 == 0 && b & 8u32 == 0)),
            (b == 4u32 ==> (b & 1u32 == 0 && b & 2u32 == 0 && b & 4u32 != 0 && b & 8u32 == 0)),
            (b == 8u32 ==> (b & 1u32 == 0 && b & 2u32 == 0 && b & 4u32 == 0 && b & 8u32 != 0)),
            (b == 5u32 ==> (b & 1u32 != 0 && b & 2u32 == 0 && b & 4u32 != 0 && b & 8u32 == 0)),
            (b == 6u32 ==> (b & 1u32 == 0 && b & 2u32 != 0 && b & 4u32 != 0 && b & 8u32 == 0)),
            (b == 9u32 ==> (b & 1u32 != 0 && b & 2u32 == 0 && b & 4u32 == 0 && b & 8u32 != 0)),
            (b == 10u32 ==> (b & 1u32 == 0 && b & 2u32 != 0 && b & 4u32 == 0 && b & 8u32 != 0)),
    {
        assert((b == 1u32 ==> (b & 1u32 != 0 && b & 2u32 == 0 && b & 4u32 == 0 && b & 8u32 == 0)) && (b == 2u32 ==> (b & 1u32 == 0 && b & 2u32 != 0 && b & 4u32 == 0 && b & 8u32 == 0)) && (b == 4u32 ==> (b & 1u32 == 0 && b & 2u32 == 0 && b & 4u32 != 0 && b & 8u32 == 0)) && (b == 8u32 ==> (b & 1u32 == 0 && b & 2u32 == 0 && b & 4u32 == 0 && b & 8u32 != 0)) && (b == 5u32 ==> (b & 1u32 != 0 && b & 2u32 == 0 && b & 4u32 != 0 && b & 8u32 == 0)) && (b == 6u32 ==> (b & 1u32 == 0 && b & 2u32 != 0 && b & 4u32 != 0 && b & 8u32 == 0)) && (b == 9u32 ==> (b & 1u32 != 0 && b & 2u32 == 0 && b & 4u32 == 0 && b & 8u32 != 0)) && (b == 10u32 ==> (b & 1u32 == 0 && b & 2u32 != 0 && b & 4u32 == 0 && b & 8u32 != 0))) by (bit_vector);
    }

    /// The top edge.
    pub fn top() -> (r: ResizeEdge)
        ensures
            r.spec_bits() == 1,
            r.has_top() && !r.has_bottom() && !r.has_left() && !r.has_right(),
    {
        proof {
            Self::lemma_named_bits(1);
        }
        ResizeEdge { bits: 1 }
    }

    /// The bottom edge.
    pub fn bottom() -> (r: ResizeEdge)
        ensures
            r.spec_bits() == 2,
            !r.has_top() && r.has_bottom() && !r.has_left() && !r.has_right(),
    {
        proof {
            Self::lemma_named_bits(2);
        }
        ResizeEdge { bits: 2 }
    }

    /// The left edge.
    pub fn left() -> (r: ResizeEdge)
        ensures
            r.spec_bits() == 4,
            !r.has_top() && !r.has_bottom() && r.has_left() && !r.has_right(),
    {
        proof {
            Self::lemma_named_bits(4);
        }
        ResizeEdge { bits: 4 }
    }

    /// The right edge.
    pub fn right() -> (r: ResizeEdge)
        ensures
            r.spec_bits() == 8,
            !r.has_top() && !r.has_bottom() && !r.has_left() && r.has_right(),
    {
        proof {
            Self::lemma_named_bits(8);
        }
        ResizeEdge { bits: 8 }
    }

    /// The top and left edges.
    pub fn top_left() -> (r: ResizeEdge)
        ensures
            r.spec_bits() == 5,
            r.has_top() && !r.has_bottom() && r.has_left() && !r.has_right(),
    {
        proof {
            Self::lemma_named_bits(5);
        }
        ResizeEdge { bits: 5 }
    }

    /// The bottom and left edges.
    pub fn bottom_left() -> (r: ResizeEdge)
        ensures
            r.spec_bits() == 6,
            !r.has_top() && r.has_bottom() && r.has_left() && !r.has_right(),
    {
        proof {
            Self::lemma_named_bits(6);
        }
        ResizeEdge { bits: 6 }
    }

    /// The top and right edges.
    pub fn top_right() -> (r: ResizeEdge)
        ensures
            r.spec_bits() == 9,
            r.has_top() && !r.has_bottom() && !r.has_left() && r.has_right(),
    {
        proof {
            Self::lemma_named_bits(9);
        }
        ResizeEdge { bits: 9 }
    }

    /// The bottom and right edges.
    pub fn bottom_right() -> (r: ResizeEdge)
        ensures
            r.spec_bits() == 10,
            !r.has_top() && r.has_bottom() && !r.has_left() && r.has_right(),
    {
        proof {
            Self::lemma_named_bits(10);
        }
        ResizeEdge { bits: 10 }
    }

    /// The mask of all four edges.
    pub open spec fn all_bits() -> u32 {
        15
    }

    pub closed spec fn spec_bits(self) -> u32 {
        self.bits
    }

    pub open spec fn wf(self) -> bool {
        self.spec_bits() & !Self::all_bits() == 0
    }

    /// Whether `self` and `other` share an edge.
    pub open spec fn spec_intersects(self, other: ResizeEdge) -> bool {
        self.spec_bits() & other.spec_bits() != 0
    }

    pub open spec fn has_left(self) -> bool {
        self.spec_bits() & 4 != 0
    }

    pub open spec fn has_right(self) -> bool {
        self.spec_bits() & 8 != 0
    }

    pub open spec fn has_top(self) -> bool {
        self.spec_bits() & 1 != 0
    }

    pub open spec fn has_bottom(self) -> bool {
        self.spec_bits() & 2 != 0
    }

    pub fn bits(&self) -> (r: u32)
        ensures
            r == self.spec_bits(),
    {
        self.bits
    }

    /// The set whose bits are `bits`, or `None` where a bit names no edge.
    pub fn from_bits(bits: u32) -> (r: Option<ResizeEdge>)
        ensures
            r.is_some() <==> bits & !Self::all_bits() == 0,
            r.is_some() ==> r.unwrap().spec_bits() == bits && r.unwrap().wf(),
    {
        if bits & !15u32 == 0 {
            Some(ResizeEdge { bits })
        } else {
            None
        }
    }

    /// Whether `self` and `other` share an edge.
    pub fn intersects(&self, other: ResizeEdge) -> (r: bool)
        ensures
            r == self.spec_intersects(other),
    {
        self.bits & other.bits != 0
    }

    /// Whether every edge of `other` is in `self`.
    pub fn contains(&self, other: ResizeEdge) -> (r: bool)
        ensures
            r == (self.spec_bits() & other.spec_bits() == other.spec_bits()),
    {
        self.bits & other.bits == other.bits
    }

    /// The edges of both sets.
    pub fn union(&self, other: ResizeEdge) -> (r: ResizeEdge)
        ensures
            r.spec_bits() == self.spec_bits() | other.spec_bits(),
    {
        ResizeEdge { bits: self.bits | other.bits }
    }
}

} // verus!
