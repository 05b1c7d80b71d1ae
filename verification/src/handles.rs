//! The eight handle regions that lie over an item's border: four strips
//! horizontal the edges and four squares in the corners.

use vstd::prelude::*;
use crate::direction::HandleKind;
use crate::direction::ResizeDirection;

verus! {

/// Thickness of an edge strip and side of a corner square, in pixels.
pub const HANDLE_SIZE: i32 = 10;

/// Stacking order of the edge strips within the item.
pub const EDGE_Z_INDEX: i32 = 2;

/// Stacking order of the corner squares within the item. It is above that of
/// the edges: where a strip and a square overlap, the corner takes the pointer.
pub const CORNER_Z_INDEX: i32 = 3;

/// One handle region, laid out against the item's own box. A region is
/// pinned to the sides that it touches; an extent of `None` spans the item.
#[derive(Clone, Copy, Debug, PartialEq, Eq, Structural)]
pub struct HandleRegion {
    /// The direction in which a press on the region resizes.
    pub direction: ResizeDirection,
    pub kind: HandleKind,
    pub pinned_top: bool,
    pub pinned_bottom: bool,
    pub pinned_left: bool,
    pub pinned_right: bool,
    pub width: Option<i32>,
    pub height: Option<i32>,
    pub z_index: i32,
}

/// The directions in the order in which their handles are rendered: the
/// corners first, then the edges.
pub open spec fn handle_order() -> Seq<ResizeDirection> {
    seq![
        ResizeDirection::TopLeft,
        ResizeDirection::TopRight,
        ResizeDirection::BottomLeft,
        ResizeDirection::BottomRight,
        ResizeDirection::Top,
        ResizeDirection::Left,
        ResizeDirection::Right,
        ResizeDirection::Bottom,
    ]
}

/// The region of the handle of a direction. A corner is a square pinned to
/// its two sides. An edge is a strip pinned to its own side and to both ends
/// of it, as thick as a corner is wide and as long as the item.
pub open spec fn region_of(d: ResizeDirection) -> HandleRegion {
    let corner = d.spec_kind() == HandleKind::Corner;
    let vertical = d.moves_top() || d.moves_bottom();
    let horizontal = d.moves_left() || d.moves_right();
    HandleRegion {
        direction: d,
        kind: d.spec_kind(),
        pinned_top: d.moves_top() || (!corner && horizontal),
        pinned_bottom: d.moves_bottom() || (!corner && horizontal),
        pinned_left: d.moves_left() || (!corner && vertical),
        pinned_right: d.moves_right() || (!corner && vertical),
        width: if horizontal {
            Some(HANDLE_SIZE)
        } else {
            None
        },
        height: if vertical {
            Some(HANDLE_SIZE)
        } else {
            None
        },
        z_index: if corner {
            CORNER_Z_INDEX
        } else {
            EDGE_Z_INDEX
        },
    }
}

/// The region of the handle of a direction.
pub fn handle_region(d: ResizeDirection) -> (r: HandleRegion)
    ensures
        r == region_of(d),
{
    let top = d.has_top();
    let bottom = d.has_bottom();
    let left = d.has_left();
    let right = d.has_right();
    let vertical = top || bottom;
    let horizontal = left || right;
    let corner = vertical && horizontal;
    HandleRegion {
        direction: d,
        kind: d.kind(),
        pinned_top: top || (!corner && horizontal),
        pinned_bottom: bottom || (!corner && horizontal),
        pinned_left: left || (!corner && vertical),
        pinned_right: right || (!corner && vertical),
        width: if horizontal {
            Some(HANDLE_SIZE)
        } else {
            None
        },
        height: if vertical {
            Some(HANDLE_SIZE)
        } else {
            None
        },
        z_index: if corner {
            CORNER_Z_INDEX
        } else {
            EDGE_Z_INDEX
        },
    }
}

/// The eight handle regions of an item in the order in which they are rendered.
pub fn handle_regions() -> (regions: Vec<HandleRegion>)
    ensures
        regions@.len() == 8,
        forall|i: int| 0 <= i < 8 ==> #[trigger] regions@[i] == region_of(handle_order()[i]),
{
    let mut regions: Vec<HandleRegion> = Vec::new();
    regions.push(handle_region(ResizeDirection::TopLeft));
    regions.push(handle_region(ResizeDirection::TopRight));
    regions.push(handle_region(ResizeDirection::BottomLeft));
    regions.push(handle_region(ResizeDirection::BottomRight));
    regions.push(handle_region(ResizeDirection::Top));
    regions.push(handle_region(ResizeDirection::Left));
    regions.push(handle_region(ResizeDirection::Right));
    regions.push(handle_region(ResizeDirection::Bottom));
    regions
}

/// Every direction has its handle among the eight, and each corner square
/// lies above each edge strip.
pub proof fn corners_lie_above_edges(corner: ResizeDirection, edge: ResizeDirection)
    requires
        corner.spec_kind() == HandleKind::Corner,
        edge.spec_kind() == HandleKind::Edge,
    ensures
        region_of(corner).z_index > region_of(edge).z_index,
        exists|i: int| 0 <= i < 8 && handle_order()[i] == corner,
        exists|i: int| 0 <= i < 8 && handle_order()[i] == edge,
{
    assert(handle_order()[0] == ResizeDirection::TopLeft);
    assert(handle_order()[1] == ResizeDirection::TopRight);
    assert(handle_order()[2] == ResizeDirection::BottomLeft);
    assert(handle_order()[3] == ResizeDirection::BottomRight);
    assert(handle_order()[4] == ResizeDirection::Top);
    assert(handle_order()[5] == ResizeDirection::Left);
    assert(handle_order()[6] == ResizeDirection::Right);
    assert(handle_order()[7] == ResizeDirection::Bottom);
}

} // verus!
