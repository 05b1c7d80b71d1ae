//! The eight directions in which a handle resizes an item.

use vstd::prelude::*;

verus! {

/// Bit of the top edge in [`ResizeDirection::bits`].
pub const TOP_BIT: u8 = 0b0001;

/// Bit of the bottom edge in [`ResizeDirection::bits`].
pub const BOTTOM_BIT: u8 = 0b0010;

/// Bit of the left edge in [`ResizeDirection::bits`].
pub const LEFT_BIT: u8 = 0b0100;

/// Bit of the right edge in [`ResizeDirection::bits`].
pub const RIGHT_BIT: u8 = 0b1000;

/// Which edges of an item a resize gesture moves. A corner moves two.
#[derive(Clone, Copy, Debug, PartialEq, Eq, Structural)]
pub enum ResizeDirection {
    Top,
    Bottom,
    Left,
    Right,
    TopLeft,
    TopRight,
    BottomLeft,
    BottomRight,
}

/// The two families of handles: the four edge strips and the four corner squares.
#[derive(Clone, Copy, Debug, PartialEq, Eq, Structural)]
pub enum HandleKind {
    Edge,
    Corner,
}

impl ResizeDirection {
    /// The direction moves the top edge.
    pub open spec fn moves_top(self) -> bool {
        self == ResizeDirection::Top || self == ResizeDirection::TopLeft || self
            == ResizeDirection::TopRight
    }

    /// The direction moves the bottom edge.
    pub open spec fn moves_bottom(self) -> bool {
        self == ResizeDirection::Bottom || self == ResizeDirection::BottomLeft || self
            == ResizeDirection::BottomRight
    }

    /// The direction moves the left edge.
    pub open spec fn moves_left(self) -> bool {
        self == ResizeDirection::Left || self == ResizeDirection::TopLeft || self
            == ResizeDirection::BottomLeft
    }

    /// The direction moves the right edge.
    pub open spec fn moves_right(self) -> bool {
        self == ResizeDirection::Right || self == ResizeDirection::TopRight || self
            == ResizeDirection::BottomRight
    }

    /// The edge flags as a number: the sum of the bits of the edges moved.
    pub open spec fn spec_bits(self) -> u8 {
        match self {
            ResizeDirection::Top => 0b0001,
            ResizeDirection::Bottom => 0b0010,
            ResizeDirection::Left => 0b0100,
            ResizeDirection::Right => 0b1000,
            ResizeDirection::TopLeft => 0b0101,
            ResizeDirection::TopRight => 0b1001,
            ResizeDirection::BottomLeft => 0b0110,
            ResizeDirection::BottomRight => 0b1010,
        }
    }

    /// The family of the handle that starts a resize in this direction.
    pub open spec fn spec_kind(self) -> HandleKind {
        if (self.moves_top() || self.moves_bottom()) && (self.moves_left() || self.moves_right()) {
            HandleKind::Corner
        } else {
            HandleKind::Edge
        }
    }

    /// The direction in a word, as a diagnostic shows it.
    pub open spec fn spec_name(self) -> Seq<char> {
        match self {
            ResizeDirection::Top => "Top"@,
            ResizeDirection::Bottom => "Bottom"@,
            ResizeDirection::Left => "Left"@,
            ResizeDirection::Right => "Right"@,
            ResizeDirection::TopLeft => "TopLeft"@,
            ResizeDirection::TopRight => "TopRight"@,
            ResizeDirection::BottomLeft => "BottomLeft"@,
            ResizeDirection::BottomRight => "BottomRight"@,
        }
    }

    /// The handle name that stands for this direction.
    pub open spec fn spec_handle_name(self) -> Seq<char> {
        match self {
            ResizeDirection::Top => "top-resizer"@,
            ResizeDirection::Bottom => "bottom-resizer"@,
            ResizeDirection::Left => "left-resizer"@,
            ResizeDirection::Right => "right-resizer"@,
            ResizeDirection::TopLeft => "top-left-resizer"@,
            ResizeDirection::TopRight => "top-right-resizer"@,
            ResizeDirection::BottomLeft => "bottom-left-resizer"@,
            ResizeDirection::BottomRight => "bottom-right-resizer"@,
        }
    }

    /// The direction that a handle name stands for. A name that is none of the
    /// eight stands for the top-left corner.
    pub open spec fn of_handle_name(name: Seq<char>) -> ResizeDirection {
        if name == "top-right-resizer"@ {
            ResizeDirection::TopRight
        } else if name == "bottom-left-resizer"@ {
            ResizeDirection::BottomLeft
        } else if name == "bottom-right-resizer"@ {
            ResizeDirection::BottomRight
        } else if name == "top-resizer"@ {
            ResizeDirection::Top
        } else if name == "bottom-resizer"@ {
            ResizeDirection::Bottom
        } else if name == "left-resizer"@ {
            ResizeDirection::Left
        } else if name == "right-resizer"@ {
            ResizeDirection::Right
        } else {
            ResizeDirection::TopLeft
        }
    }

    /// The edge flags of this direction.
    pub fn bits(&self) -> (b: u8)
        ensures
            b == self.spec_bits(),
    {
        match self {
            ResizeDirection::Top => 0b0001,
            ResizeDirection::Bottom => 0b0010,
            ResizeDirection::Left => 0b0100,
            ResizeDirection::Right => 0b1000,
            ResizeDirection::TopLeft => 0b0101,
            ResizeDirection::TopRight => 0b1001,
            ResizeDirection::BottomLeft => 0b0110,
            ResizeDirection::BottomRight => 0b1010,
        }
    }

    /// The edge flags that two directions share. It is nonzero exactly when
    /// they move a common edge.
    pub fn bitand(self, rhs: ResizeDirection) -> (b: u8)
        ensures
            b == self.spec_bits() & rhs.spec_bits(),
            (b != 0) == (self.moves_top() && rhs.moves_top() || self.moves_bottom()
                && rhs.moves_bottom() || self.moves_left() && rhs.moves_left()
                || self.moves_right() && rhs.moves_right()),
    {
        proof {
            Self::flags_are_bits(self);
            Self::flags_are_bits(rhs);
            let a = self.spec_bits();
            let c = rhs.spec_bits();
            assert((a & c != 0) == ((a & 1 != 0) && (c & 1 != 0) || (a & 2 != 0) && (c & 2 != 0)
                || (a & 4 != 0) && (c & 4 != 0) || (a & 8 != 0) && (c & 8 != 0))) by (bit_vector)
                requires
                    a < 16,
                    c < 16,
            ;
        }
        self.bits() & rhs.bits()
    }

    /// Each edge flag of a direction is one bit of its number, and no other bit is set.
    pub proof fn flags_are_bits(d: ResizeDirection)
        ensures
            d.moves_top() == (d.spec_bits() & TOP_BIT != 0),
            d.moves_bottom() == (d.spec_bits() & BOTTOM_BIT != 0),
            d.moves_left() == (d.spec_bits() & LEFT_BIT != 0),
            d.moves_right() == (d.spec_bits() & RIGHT_BIT != 0),
            d.spec_bits() < 16,
            !(d.moves_top() && d.moves_bottom()),
            !(d.moves_left() && d.moves_right()),
    {
        assert(0b0001u8 & 1 != 0 && 0b0010u8 & 1 == 0 && 0b0100u8 & 1 == 0 && 0b1000u8 & 1 == 0
            && 0b0101u8 & 1 != 0 && 0b1001u8 & 1 != 0 && 0b0110u8 & 1 == 0 && 0b1010u8 & 1 == 0)
            by (bit_vector);
        assert(0b0001u8 & 2 == 0 && 0b0010u8 & 2 != 0 && 0b0100u8 & 2 == 0 && 0b1000u8 & 2 == 0
            && 0b0101u8 & 2 == 0 && 0b1001u8 & 2 == 0 && 0b0110u8 & 2 != 0 && 0b1010u8 & 2 != 0)
            by (bit_vector);
        assert(0b0001u8 & 4 == 0 && 0b0010u8 & 4 == 0 && 0b0100u8 & 4 != 0 && 0b1000u8 & 4 == 0
            && 0b0101u8 & 4 != 0 && 0b1001u8 & 4 == 0 && 0b0110u8 & 4 != 0 && 0b1010u8 & 4 == 0)
            by (bit_vector);
        assert(0b0001u8 & 8 == 0 && 0b0010u8 & 8 == 0 && 0b0100u8 & 8 == 0 && 0b1000u8 & 8 != 0
            && 0b0101u8 & 8 == 0 && 0b1001u8 & 8 != 0 && 0b0110u8 & 8 == 0 && 0b1010u8 & 8 != 0)
            by (bit_vector);
    }

    /// Whether the direction moves the top edge.
    pub fn has_top(self) -> (r: bool)
        ensures
            r == self.moves_top(),
    {
        self.bitand(ResizeDirection::Top) != 0
    }

    /// Whether the direction moves the bottom edge.
    pub fn has_bottom(self) -> (r: bool)
        ensures
            r == self.moves_bottom(),
    {
        self.bitand(ResizeDirection::Bottom) != 0
    }

    /// Whether the direction moves the left edge.
    pub fn has_left(self) -> (r: bool)
        ensures
            r == self.moves_left(),
    {
        self.bitand(ResizeDirection::Left) != 0
    }

    /// Whether the direction moves the right edge.
    pub fn has_right(self) -> (r: bool)
        ensures
            r == self.moves_right(),
    {
        self.bitand(ResizeDirection::Right) != 0
    }

    /// The family of the handle that starts a resize in this direction.
    pub fn kind(self) -> (k: HandleKind)
        ensures
            k == self.spec_kind(),
    {
        if (self.has_top() || self.has_bottom()) && (self.has_left() || self.has_right()) {
            HandleKind::Corner
        } else {
            HandleKind::Edge
        }
    }

    /// The direction in a word, such as `TopLeft`.
    pub fn name(&self) -> (name: String)
        ensures
            name@ == self.spec_name(),
    {
        match self {
            ResizeDirection::Top => "Top".to_owned(),
            ResizeDirection::Bottom => "Bottom".to_owned(),
            ResizeDirection::Left => "Left".to_owned(),
            ResizeDirection::Right => "Right".to_owned(),
            ResizeDirection::TopLeft => "TopLeft".to_owned(),
            ResizeDirection::TopRight => "TopRight".to_owned(),
            ResizeDirection::BottomLeft => "BottomLeft".to_owned(),
            ResizeDirection::BottomRight => "BottomRight".to_owned(),
        }
    }

    /// The handle name that stands for this direction, such as `top-left-resizer`.
    pub fn handle_name(self) -> (name: String)
        ensures
            name@ == self.spec_handle_name(),
    {
        match self {
            ResizeDirection::Top => "top-resizer".to_owned(),
            ResizeDirection::Bottom => "bottom-resizer".to_owned(),
            ResizeDirection::Left => "left-resizer".to_owned(),
            ResizeDirection::Right => "right-resizer".to_owned(),
            ResizeDirection::TopLeft => "top-left-resizer".to_owned(),
            ResizeDirection::TopRight => "top-right-resizer".to_owned(),
            ResizeDirection::BottomLeft => "bottom-left-resizer".to_owned(),
            ResizeDirection::BottomRight => "bottom-right-resizer".to_owned(),
        }
    }

    /// The direction of the handle with the given name. An unknown name gives
    /// the top-left corner.
    pub fn from_handle_name(name: &str) -> (d: ResizeDirection)
        ensures
            d == Self::of_handle_name(name@),
    {
        let owned: String = name.to_owned();
        if owned == "top-right-resizer".to_owned() {
            ResizeDirection::TopRight
        } else if owned == "bottom-left-resizer".to_owned() {
            ResizeDirection::BottomLeft
        } else if owned == "bottom-right-resizer".to_owned() {
            ResizeDirection::BottomRight
        } else if owned == "top-resizer".to_owned() {
            ResizeDirection::Top
        } else if owned == "bottom-resizer".to_owned() {
            ResizeDirection::Bottom
        } else if owned == "left-resizer".to_owned() {
            ResizeDirection::Left
        } else if owned == "right-resizer".to_owned() {
            ResizeDirection::Right
        } else {
            ResizeDirection::TopLeft
        }
    }

    /// Reading a direction's handle name gives the direction back.
    pub proof fn handle_name_round_trip(d: ResizeDirection)
        ensures
            Self::of_handle_name(d.spec_handle_name()) == d,
    {
        reveal_strlit("top-resizer");
        reveal_strlit("bottom-resizer");
        reveal_strlit("left-resizer");
        reveal_strlit("right-resizer");
        reveal_strlit("top-left-resizer");
        reveal_strlit("top-right-resizer");
        reveal_strlit("bottom-left-resizer");
        reveal_strlit("bottom-right-resizer");
        assert("top-resizer"@.len() == 11);
        assert("bottom-resizer"@.len() == 14);
        assert("left-resizer"@.len() == 12);
        assert("right-resizer"@.len() == 13);
        assert("top-left-resizer"@.len() == 16);
        assert("top-right-resizer"@.len() == 17);
        assert("bottom-left-resizer"@.len() == 19);
        assert("bottom-right-resizer"@.len() == 20);
    }
}

} // verus!
