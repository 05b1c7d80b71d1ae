//! The rectangle of one item and the arithmetic of moving and resizing it.
//!
//! Pointer coordinates and layout read from the rendered element are 32-bit,
//! as the host document reports them. The geometry that a gesture computes is
//! held in 128 bits, wide enough for every result, so that each function here
//! is total and agrees with the mathematical integers.

use vstd::prelude::*;
use vstd::arithmetic::div_mod::lemma_fundamental_div_mod;
use vstd::arithmetic::div_mod::lemma_div_pos_is_pos;
use vstd::arithmetic::div_mod::lemma_mod_bound;
use crate::direction::ResizeDirection;

verus! {

/// Width and height of an item for which the caller gives none.
pub const DEFAULT_EXTENT: i32 = 250;

/// Stacking order of an item at rest.
pub const RESTING_Z_INDEX: i32 = 1;

/// Stacking order of an item while it is dragged.
pub const FOREGROUND_Z_INDEX: i32 = 1000;

/// Offset and size of the rendered element, as read from the host document at
/// the start of a gesture.
#[derive(Clone, Copy, Debug, PartialEq, Eq, Structural)]
pub struct LiveLayout {
    pub left: i32,
    pub top: i32,
    pub width: i32,
    pub height: i32,
}

/// A rectangle over the mathematical integers: what the contracts compute with.
pub ghost struct Frame {
    pub x: int,
    pub y: int,
    pub width: int,
    pub height: int,
}

/// The authoritative rectangle of one item, with its stacking order and flags.
#[derive(Clone, Copy, Debug, PartialEq, Eq, Structural)]
pub struct ItemGeometry {
    /// Left offset of the top-left corner, in viewport coordinates.
    pub x: i128,
    /// Top offset of the top-left corner, in viewport coordinates.
    pub y: i128,
    pub width: i128,
    pub height: i128,
    pub z_index: i32,
    /// Set once the item has been deleted; never cleared.
    pub hidden: bool,
    /// Whether a resize keeps the ratio of width to height.
    pub aspect_locked: bool,
    /// What the item displays: an index that the application resolves.
    pub content_ref: usize,
}

impl LiveLayout {
    /// The layout as a rectangle over the integers.
    pub open spec fn frame(self) -> Frame {
        Frame { x: self.left as int, y: self.top as int, width: self.width as int, height: self.height as int }
    }

    /// Both extents are at least zero, as every rendered element's are.
    pub open spec fn is_rendered(self) -> bool {
        self.width >= 0 && self.height >= 0
    }
}

impl ItemGeometry {
    /// Position and size as a rectangle over the integers.
    pub open spec fn frame(self) -> Frame {
        Frame { x: self.x as int, y: self.y as int, width: self.width as int, height: self.height as int }
    }

    /// This geometry with its rectangle replaced.
    pub open spec fn with_frame(self, f: Frame) -> ItemGeometry
        recommends
            fits(f),
    {
        ItemGeometry {
            x: f.x as i128,
            y: f.y as i128,
            width: f.width as i128,
            height: f.height as i128,
            ..self
        }
    }

    /// A visible item at rest with the given rectangle.
    pub fn new(x: i128, y: i128, width: i128, height: i128, aspect_locked: bool, content_ref: usize) -> (g: ItemGeometry)
        ensures
            g == (ItemGeometry {
                x,
                y,
                width,
                height,
                z_index: RESTING_Z_INDEX,
                hidden: false,
                aspect_locked,
                content_ref,
            }),
    {
        ItemGeometry {
            x,
            y,
            width,
            height,
            z_index: RESTING_Z_INDEX,
            hidden: false,
            aspect_locked,
            content_ref,
        }
    }
}

/// Every coordinate of the rectangle can be stored.
pub open spec fn fits(f: Frame) -> bool {
    &&& i128::MIN <= f.x <= i128::MAX
    &&& i128::MIN <= f.y <= i128::MAX
    &&& i128::MIN <= f.width <= i128::MAX
    &&& i128::MIN <= f.height <= i128::MAX
}

/// Where a drag that started on `start` with the pointer at the anchor has
/// brought the top-left corner once the pointer has moved by `(dx, dy)`.
pub open spec fn dragged(start: Frame, dx: int, dy: int) -> Frame {
    Frame { x: start.x + dx, y: start.y + dy, ..start }
}

/// Width before mirroring: the right edge adds the pointer's horizontal
/// movement, the left edge takes it away.
pub open spec fn raw_width(start: Frame, dx: int, d: ResizeDirection) -> int {
    if d.moves_right() {
        start.width + dx
    } else if d.moves_left() {
        start.width - dx
    } else {
        start.width
    }
}

/// Height before mirroring: the bottom edge adds the pointer's vertical
/// movement, the top edge takes it away.
pub open spec fn raw_height(start: Frame, dy: int, d: ResizeDirection) -> int {
    if d.moves_bottom() {
        start.height + dy
    } else if d.moves_top() {
        start.height - dy
    } else {
        start.height
    }
}

/// Left offset before mirroring: only the left edge carries it along.
pub open spec fn raw_x(start: Frame, dx: int, d: ResizeDirection) -> int {
    if d.moves_left() {
        start.x + dx
    } else {
        start.x
    }
}

/// Top offset before mirroring: only the top edge carries it along.
pub open spec fn raw_y(start: Frame, dy: int, d: ResizeDirection) -> int {
    if d.moves_top() {
        start.y + dy
    } else {
        start.y
    }
}

/// The offset of a mirrored axis: a negative extent advances it by that extent.
pub open spec fn mirrored_offset(offset: int, extent: int) -> int {
    if extent < 0 {
        offset + extent
    } else {
        offset
    }
}

/// The extent of a mirrored axis: never negative.
pub open spec fn mirrored_extent(extent: int) -> int {
    if extent < 0 {
        -extent
    } else {
        extent
    }
}

/// A resize with both axes free: each edge that the direction moves follows
/// the pointer, and an axis dragged through its opposite edge is mirrored.
pub open spec fn resized_free(start: Frame, dx: int, dy: int, d: ResizeDirection) -> Frame {
    Frame {
        x: mirrored_offset(raw_x(start, dx, d), raw_width(start, dx, d)),
        y: mirrored_offset(raw_y(start, dy, d), raw_height(start, dy, d)),
        width: mirrored_extent(raw_width(start, dx, d)),
        height: mirrored_extent(raw_height(start, dy, d)),
    }
}

/// The axis that leads an aspect-locked resize is the width for every
/// direction that moves the left or the right edge, and the height for the
/// top and bottom edges alone.
pub open spec fn width_leads(d: ResizeDirection) -> bool {
    d.moves_left() || d.moves_right()
}

/// Whether a rectangle has a ratio of width to height that a resize can keep.
pub open spec fn has_ratio(start: Frame) -> bool {
    start.width > 0 && start.height > 0
}

/// A resize that keeps the starting ratio of width to height. The leading
/// axis follows the pointer and is mirrored like a free one; the other extent
/// is the leading one scaled by the starting ratio, rounded down to a whole
/// pixel. Where the direction moves the top edge of a corner, the bottom edge
/// stays where it was.
pub open spec fn resized_locked(start: Frame, dx: int, dy: int, d: ResizeDirection) -> Frame
    recommends
        has_ratio(start),
{
    if width_leads(d) {
        let width = mirrored_extent(raw_width(start, dx, d));
        let height = (width * start.height) / start.width;
        Frame {
            x: mirrored_offset(raw_x(start, dx, d), raw_width(start, dx, d)),
            y: if d.moves_top() {
                start.y + start.height - height
            } else {
                start.y
            },
            width,
            height,
        }
    } else {
        let height = mirrored_extent(raw_height(start, dy, d));
        let width = (height * start.width) / start.height;
        Frame {
            x: start.x,
            y: mirrored_offset(raw_y(start, dy, d), raw_height(start, dy, d)),
            width,
            height,
        }
    }
}

/// The rectangle of an item whose resize started on `start`, once the pointer
/// has moved by `(dx, dy)` from the anchor. A locked item that starts without
/// a ratio to keep, one extent being zero or less, resizes freely.
pub open spec fn resized(start: Frame, dx: int, dy: int, d: ResizeDirection, locked: bool) -> Frame {
    if locked && has_ratio(start) {
        resized_locked(start, dx, dy, d)
    } else {
        resized_free(start, dx, dy, d)
    }
}

/// How far the pointer has moved along one axis since the anchor.
pub fn pointer_delta(now: i32, anchor: i32) -> (d: i64)
    ensures
        d == now - anchor,
{
    let a: i64 = now as i64;
    let b: i64 = anchor as i64;
    a - b
}

/// Mirrors one axis: a negative extent is negated and the offset advanced by it.
fn mirror_axis(offset: i128, extent: i128) -> (r: (i128, i128))
    requires
        -0x1_0000_0000_0000_0000 <= offset <= 0x1_0000_0000_0000_0000,
        -0x1_0000_0000_0000_0000 <= extent <= 0x1_0000_0000_0000_0000,
    ensures
        r.0 == mirrored_offset(offset as int, extent as int),
        r.1 == mirrored_extent(extent as int),
        r.1 >= 0,
{
    if extent < 0 {
        (offset + extent, -extent)
    } else {
        (offset, extent)
    }
}

/// One extent scaled by the ratio of two positive extents, rounded down.
fn scale_extent(extent: i128, numerator: i32, denominator: i32) -> (r: i128)
    requires
        0 <= extent <= 0x4_0000_0000,
        numerator > 0,
        denominator > 0,
    ensures
        r == (extent * numerator) / (denominator as int),
        0 <= r <= extent * numerator,
        r * denominator <= extent * numerator < (r + 1) * denominator,
{
    let n: i128 = numerator as i128;
    let d: i128 = denominator as i128;
    proof {
        assert(0 <= extent * n <= 0x4_0000_0000 * 0x8000_0000) by (nonlinear_arith)
            requires
                0 <= extent <= 0x4_0000_0000,
                0 < n <= 0x7fff_ffff,
        ;
        let p = extent * n;
        lemma_fundamental_div_mod(p, d as int);
        lemma_mod_bound(p, d as int);
        lemma_div_pos_is_pos(p, d as int);
        assert((p / (d as int)) * d == d * (p / (d as int))) by (nonlinear_arith);
        assert(((p / (d as int)) + 1) * d == d * (p / (d as int)) + d) by (nonlinear_arith);
        assert(p / (d as int) <= p) by (nonlinear_arith)
            requires
                p >= 0,
                d >= 1,
                d * (p / (d as int)) <= p,
                p / (d as int) >= 0,
        ;
    }
    (extent * n) / d
}

/// The position of a dragged item: the offset at the anchor plus the
/// pointer's movement since then. Nothing bounds it; the canvas clips.
pub fn drag_to(start: LiveLayout, anchor_x: i32, anchor_y: i32, x: i32, y: i32) -> (r: (i128, i128))
    ensures
        r.0 == dragged(start.frame(), x - anchor_x, y - anchor_y).x,
        r.1 == dragged(start.frame(), x - anchor_x, y - anchor_y).y,
{
    let dx: i64 = pointer_delta(x, anchor_x);
    let dy: i64 = pointer_delta(y, anchor_y);
    (start.left as i128 + dx as i128, start.top as i128 + dy as i128)
}

/// The rectangle of a resized item: position and size at the anchor, changed
/// as the direction and the pointer's movement since the anchor say, in the
/// order x, y, width, height. Neither extent is ever negative.
pub fn resize_to(
    start: LiveLayout,
    anchor_x: i32,
    anchor_y: i32,
    x: i32,
    y: i32,
    direction: ResizeDirection,
    aspect_locked: bool,
) -> (r: (i128, i128, i128, i128))
    ensures
        (Frame { x: r.0 as int, y: r.1 as int, width: r.2 as int, height: r.3 as int }) == resized(
            start.frame(),
            x - anchor_x,
            y - anchor_y,
            direction,
            aspect_locked,
        ),
        r.2 >= 0,
        r.3 >= 0,
{
    let dx: i128 = pointer_delta(x, anchor_x) as i128;
    let dy: i128 = pointer_delta(y, anchor_y) as i128;
    let mut new_width: i128 = start.width as i128;
    let mut new_height: i128 = start.height as i128;
    let mut new_x: i128 = start.left as i128;
    let mut new_y: i128 = start.top as i128;
    proof {
        ResizeDirection::flags_are_bits(direction);
    }
    if direction.has_top() {
        new_height = start.height as i128 - dy;
        new_y = start.top as i128 + dy;
    }
    if direction.has_bottom() {
        new_height = start.height as i128 + dy;
    }
    if direction.has_left() {
        new_width = start.width as i128 - dx;
        new_x = start.left as i128 + dx;
    }
    if direction.has_right() {
        new_width = start.width as i128 + dx;
    }
    let (free_x, free_width) = mirror_axis(new_x, new_width);
    let (free_y, free_height) = mirror_axis(new_y, new_height);
    if aspect_locked && start.width > 0 && start.height > 0 {
        if direction.has_left() || direction.has_right() {
            let height: i128 = scale_extent(free_width, start.height, start.width);
            proof {
                assert(height <= free_width * start.height <= 0x4_0000_0000 * 0x8000_0000)
                    by (nonlinear_arith)
                    requires
                        0 <= free_width <= 0x4_0000_0000,
                        0 < start.height <= 0x7fff_ffff,
                        height <= free_width * start.height,
                ;
            }
            let top: i128 = if direction.has_top() {
                start.top as i128 + start.height as i128 - height
            } else {
                start.top as i128
            };
            (free_x, top, free_width, height)
        } else {
            let width: i128 = scale_extent(free_height, start.width, start.height);
            (start.left as i128, free_y, width, free_height)
        }
    } else {
        (free_x, free_y, free_width, free_height)
    }
}

} // verus!
