use canvas_editor::direction::{HandleKind, ResizeDirection};
use canvas_editor::geometry::{drag_to, pointer_delta, resize_to, ItemGeometry, LiveLayout};
use canvas_editor::handles::{handle_region, handle_regions};

fn layout(left: i32, top: i32, width: i32, height: i32) -> LiveLayout {
    LiveLayout { left, top, width, height }
}

const ALL: [ResizeDirection; 8] = [
    ResizeDirection::Top,
    ResizeDirection::Bottom,
    ResizeDirection::Left,
    ResizeDirection::Right,
    ResizeDirection::TopLeft,
    ResizeDirection::TopRight,
    ResizeDirection::BottomLeft,
    ResizeDirection::BottomRight,
];

#[test]
fn direction_bits_are_edge_flags() {
    assert_eq!(ResizeDirection::Top.bits(), 0b0001);
    assert_eq!(ResizeDirection::Bottom.bits(), 0b0010);
    assert_eq!(ResizeDirection::Left.bits(), 0b0100);
    assert_eq!(ResizeDirection::Right.bits(), 0b1000);
    assert_eq!(ResizeDirection::TopLeft.bits(), 0b0101);
    assert_eq!(ResizeDirection::TopRight.bits(), 0b1001);
    assert_eq!(ResizeDirection::BottomLeft.bits(), 0b0110);
    assert_eq!(ResizeDirection::BottomRight.bits(), 0b1010);
}

#[test]
fn bitand_finds_shared_edges() {
    assert_eq!(ResizeDirection::TopLeft.bitand(ResizeDirection::Top), 0b0001);
    assert_eq!(ResizeDirection::TopLeft.bitand(ResizeDirection::Left), 0b0100);
    assert_eq!(ResizeDirection::TopLeft.bitand(ResizeDirection::BottomRight), 0);
    assert_eq!(ResizeDirection::BottomRight.bitand(ResizeDirection::TopRight), 0b1000);
    assert!(ResizeDirection::TopRight.has_top());
    assert!(ResizeDirection::TopRight.has_right());
    assert!(!ResizeDirection::TopRight.has_left());
    assert!(!ResizeDirection::TopRight.has_bottom());
}

#[test]
fn direction_kinds() {
    assert_eq!(ResizeDirection::Top.kind(), HandleKind::Edge);
    assert_eq!(ResizeDirection::Right.kind(), HandleKind::Edge);
    assert_eq!(ResizeDirection::TopLeft.kind(), HandleKind::Corner);
    assert_eq!(ResizeDirection::BottomRight.kind(), HandleKind::Corner);
}

#[test]
fn handle_names_round_trip() {
    for d in ALL {
        assert_eq!(ResizeDirection::from_handle_name(&d.handle_name()), d);
    }
    assert_eq!(ResizeDirection::BottomLeft.handle_name(), "bottom-left-resizer");
    assert_eq!(ResizeDirection::Top.handle_name(), "top-resizer");
}

#[test]
fn unknown_handle_name_is_top_left() {
    assert_eq!(ResizeDirection::from_handle_name("middle-resizer"), ResizeDirection::TopLeft);
    assert_eq!(ResizeDirection::from_handle_name(""), ResizeDirection::TopLeft);
    assert_eq!(ResizeDirection::from_handle_name("Top-resizer"), ResizeDirection::TopLeft);
}

#[test]
fn pointer_delta_is_exact_at_the_limits() {
    assert_eq!(pointer_delta(5, 3), 2);
    assert_eq!(pointer_delta(i32::MAX, i32::MIN), 4294967295);
    assert_eq!(pointer_delta(i32::MIN, i32::MAX), -4294967295);
}

#[test]
fn drag_adds_pointer_movement_to_offset() {
    assert_eq!(drag_to(layout(10, 20, 100, 100), 300, 400, 325, 390), (35, 10));
    assert_eq!(drag_to(layout(10, 20, 100, 100), 300, 400, 300, 400), (10, 20));
    assert_eq!(
        drag_to(layout(i32::MAX, i32::MIN, 1, 1), i32::MIN, i32::MAX, i32::MAX, i32::MIN),
        (2147483647 + 4294967295, -2147483648 - 4294967295)
    );
}

#[test]
fn resize_bottom_right_grows_size_and_keeps_offset() {
    let r = resize_to(layout(5, 7, 100, 100), 200, 200, 250, 220, ResizeDirection::BottomRight, false);
    assert_eq!(r, (5, 7, 150, 120));
}

#[test]
fn resize_top_left_moves_offset_and_shrinks() {
    let r = resize_to(layout(10, 10, 100, 100), 0, 0, 30, 10, ResizeDirection::TopLeft, false);
    assert_eq!(r, (40, 20, 70, 90));
}

#[test]
fn resize_single_edges() {
    let s = layout(10, 20, 100, 80);
    assert_eq!(resize_to(s, 0, 0, 7, 9, ResizeDirection::Top, false), (10, 29, 100, 71));
    assert_eq!(resize_to(s, 0, 0, 7, 9, ResizeDirection::Bottom, false), (10, 20, 100, 89));
    assert_eq!(resize_to(s, 0, 0, 7, 9, ResizeDirection::Left, false), (17, 20, 93, 80));
    assert_eq!(resize_to(s, 0, 0, 7, 9, ResizeDirection::Right, false), (10, 20, 107, 80));
    assert_eq!(resize_to(s, 0, 0, 7, 9, ResizeDirection::TopRight, false), (10, 29, 107, 71));
    assert_eq!(resize_to(s, 0, 0, 7, 9, ResizeDirection::BottomLeft, false), (17, 20, 93, 89));
}

#[test]
fn right_edge_dragged_past_left_edge_mirrors() {
    let s = layout(500, 40, 250, 250);
    assert_eq!(resize_to(s, 0, 0, -300, 0, ResizeDirection::Right, false), (450, 40, 50, 250));
    assert_eq!(resize_to(s, 0, 0, -400, 0, ResizeDirection::Right, false), (350, 40, 150, 250));
    assert_eq!(resize_to(s, 0, 0, -250, 0, ResizeDirection::Right, false), (500, 40, 0, 250));
}

#[test]
fn top_edge_dragged_past_bottom_edge_mirrors() {
    let s = layout(0, 100, 50, 60);
    assert_eq!(resize_to(s, 0, 0, 0, 100, ResizeDirection::Top, false), (0, 160, 50, 40));
    assert_eq!(resize_to(s, 0, 0, 0, -100, ResizeDirection::Bottom, false), (0, 60, 50, 40));
    assert_eq!(resize_to(s, 0, 0, 80, 0, ResizeDirection::Left, false), (50, 100, 30, 60));
}

#[test]
fn locked_resize_in_each_direction() {
    let s = layout(10, 20, 200, 100);
    assert_eq!(resize_to(s, 0, 0, 40, 10, ResizeDirection::Right, true), (10, 20, 240, 120));
    assert_eq!(resize_to(s, 0, 0, 40, 10, ResizeDirection::Left, true), (50, 20, 160, 80));
    assert_eq!(resize_to(s, 0, 0, 40, 10, ResizeDirection::Top, true), (10, 30, 180, 90));
    assert_eq!(resize_to(s, 0, 0, 40, 10, ResizeDirection::Bottom, true), (10, 20, 220, 110));
    assert_eq!(resize_to(s, 0, 0, 40, 10, ResizeDirection::TopLeft, true), (50, 40, 160, 80));
    assert_eq!(resize_to(s, 0, 0, 40, 10, ResizeDirection::TopRight, true), (10, 0, 240, 120));
    assert_eq!(resize_to(s, 0, 0, 40, 10, ResizeDirection::BottomLeft, true), (50, 20, 160, 80));
    assert_eq!(resize_to(s, 0, 0, 40, 10, ResizeDirection::BottomRight, true), (10, 20, 240, 120));
}

#[test]
fn locked_resize_keeps_ratio_within_a_pixel() {
    let s = layout(0, 0, 300, 200);
    for d in ALL {
        for (dx, dy) in [(17, 5), (-23, 41), (-500, -700), (1, 1), (0, 0)] {
            let (_, _, w, h) = resize_to(s, 0, 0, dx, dy, d, true);
            assert!(w >= 0 && h >= 0);
            let leads_width = d.has_left() || d.has_right();
            if leads_width {
                let off = w * 200 - h * 300;
                assert!(0 <= off && off < 300);
            } else {
                let off = h * 300 - w * 200;
                assert!(0 <= off && off < 200);
            }
        }
    }
}

#[test]
fn locked_resize_rounds_down() {
    assert_eq!(resize_to(layout(0, 0, 3, 2), 0, 0, 2, 0, ResizeDirection::Right, true), (0, 0, 5, 3));
    assert_eq!(resize_to(layout(0, 0, 3, 2), 0, 0, 0, 2, ResizeDirection::Bottom, true), (0, 0, 6, 4));
    assert_eq!(resize_to(layout(0, 0, 2, 3), 0, 0, 0, 2, ResizeDirection::Bottom, true), (0, 0, 3, 5));
}

#[test]
fn locked_resize_mirrors_leading_axis() {
    let s = layout(100, 100, 200, 100);
    assert_eq!(resize_to(s, 0, 0, -300, 0, ResizeDirection::Right, true), (0, 100, 100, 50));
    assert_eq!(resize_to(s, 0, 0, 300, 0, ResizeDirection::TopLeft, true), (300, 150, 100, 50));
}

#[test]
fn locked_resize_without_ratio_is_free() {
    let s = layout(0, 0, 0, 100);
    assert_eq!(resize_to(s, 0, 0, 30, 40, ResizeDirection::BottomRight, true), (0, 0, 30, 140));
    let s = layout(0, 0, 100, 0);
    assert_eq!(resize_to(s, 0, 0, 30, 40, ResizeDirection::BottomRight, true), (0, 0, 130, 40));
}

#[test]
fn locked_resize_at_the_limits() {
    let s = layout(0, 0, 1, i32::MAX);
    let (x, y, w, h) = resize_to(s, i32::MIN, 0, i32::MAX, 0, ResizeDirection::Right, true);
    assert_eq!((x, y), (0, 0));
    assert_eq!(w, 4294967296);
    assert_eq!(h, 4294967296 * 2147483647);
}

#[test]
fn zero_delta_resize_changes_nothing() {
    let s = layout(10, 20, 123, 77);
    for d in ALL {
        assert_eq!(resize_to(s, 9, 9, 9, 9, d, false), (10, 20, 123, 77));
        assert_eq!(resize_to(s, 9, 9, 9, 9, d, true), (10, 20, 123, 77));
    }
}

#[test]
fn new_geometry_is_visible_and_at_rest() {
    let g = ItemGeometry::new(1, 2, 3, 4, true, 9);
    assert_eq!(
        g,
        ItemGeometry {
            x: 1,
            y: 2,
            width: 3,
            height: 4,
            z_index: 1,
            hidden: false,
            aspect_locked: true,
            content_ref: 9
        }
    );
}

#[test]
fn handle_regions_are_eight_corners_first() {
    let regions = handle_regions();
    assert_eq!(regions.len(), 8);
    let order: Vec<ResizeDirection> = regions.iter().map(|r| r.direction).collect();
    assert_eq!(
        order,
        vec![
            ResizeDirection::TopLeft,
            ResizeDirection::TopRight,
            ResizeDirection::BottomLeft,
            ResizeDirection::BottomRight,
            ResizeDirection::Top,
            ResizeDirection::Left,
            ResizeDirection::Right,
            ResizeDirection::Bottom,
        ]
    );
    for r in regions.iter() {
        match r.kind {
            HandleKind::Corner => {
                assert_eq!(r.z_index, 3);
                assert_eq!((r.width, r.height), (Some(10), Some(10)));
            }
            HandleKind::Edge => assert_eq!(r.z_index, 2),
        }
    }
}

#[test]
fn handle_regions_are_pinned_to_their_sides() {
    let top = handle_region(ResizeDirection::Top);
    assert!(top.pinned_top && top.pinned_left && top.pinned_right && !top.pinned_bottom);
    assert_eq!((top.width, top.height), (None, Some(10)));
    let bottom = handle_region(ResizeDirection::Bottom);
    assert!(bottom.pinned_bottom && bottom.pinned_left && bottom.pinned_right && !bottom.pinned_top);
    assert_eq!((bottom.width, bottom.height), (None, Some(10)));
    let left = handle_region(ResizeDirection::Left);
    assert!(left.pinned_top && left.pinned_bottom && left.pinned_left && !left.pinned_right);
    assert_eq!((left.width, left.height), (Some(10), None));
    let right = handle_region(ResizeDirection::Right);
    assert!(right.pinned_top && right.pinned_bottom && right.pinned_right && !right.pinned_left);
    assert_eq!((right.width, right.height), (Some(10), None));
    let br = handle_region(ResizeDirection::BottomRight);
    assert!(br.pinned_bottom && br.pinned_right && !br.pinned_top && !br.pinned_left);
    let tl = handle_region(ResizeDirection::TopLeft);
    assert!(tl.pinned_top && tl.pinned_left && !tl.pinned_bottom && !tl.pinned_right);
}

#[test]
fn direction_names() {
    let names: Vec<String> = ALL.iter().map(|d| d.name()).collect();
    assert_eq!(
        names,
        vec!["Top", "Bottom", "Left", "Right", "TopLeft", "TopRight", "BottomLeft", "BottomRight"]
    );
}
