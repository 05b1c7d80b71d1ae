//! What holds of whole gestures: laws of the transform controller over
//! sequences of events, proved from the transitions of single events.

use vstd::prelude::*;
use crate::controller::Event;
use crate::controller::Key;
use crate::controller::ListenerChange;
use crate::controller::Mode;
use crate::controller::TransformController;
use crate::direction::ResizeDirection;
use vstd::math::max;
use vstd::math::min;
use crate::geometry::dragged;
use crate::geometry::has_ratio;
use crate::geometry::resized;
use crate::geometry::resized_free;
use crate::geometry::width_leads;
use crate::geometry::fits;
use crate::geometry::Frame;
use crate::geometry::LiveLayout;
use crate::geometry::mirrored_extent;
use crate::geometry::raw_height;
use crate::geometry::raw_width;

verus! {

/// The controller after a sequence of events, taken in order.
pub open spec fn after_all(c: TransformController, events: Seq<Event>) -> TransformController
    decreases events.len(),
{
    if events.len() == 0 {
        c
    } else {
        after_all(c.after(events[0]), events.skip(1))
    }
}

/// The pointer movements to the given points, as events.
pub open spec fn moves(points: Seq<(i32, i32)>) -> Seq<Event> {
    Seq::new(points.len(), |i: int| Event::PointerMove { x: points[i].0, y: points[i].1 })
}

/// Every rectangle that a gesture computes can be stored: a layout's offset
/// and extents fit 32 bits, and the pointer's movement is the difference of
/// two 32-bit coordinates. A resized rectangle has no negative extent.
pub proof fn gesture_results_fit(start: LiveLayout, dx: int, dy: int, d: ResizeDirection, locked: bool)
    requires
        -0x1_0000_0000 < dx < 0x1_0000_0000,
        -0x1_0000_0000 < dy < 0x1_0000_0000,
    ensures
        fits(dragged(start.frame(), dx, dy)),
        fits(resized(start.frame(), dx, dy, d, locked)),
        resized(start.frame(), dx, dy, d, locked).width >= 0,
        resized(start.frame(), dx, dy, d, locked).height >= 0,
{
    let s = start.frame();
    if locked && has_ratio(s) {
        ratio_is_kept(s, dx, dy, d);
        let r = resized(s, dx, dy, d, true);
        if width_leads(d) {
            assert(0 <= r.height && r.height * s.width <= r.width * s.height && r.height <= 0x4_0000_0000
                * 0x8000_0000) by (nonlinear_arith)
                requires
                    0 <= r.width <= 0x4_0000_0000,
                    0 < s.height <= 0x7fff_ffff,
                    0 < s.width,
                    0 <= r.width * s.height - r.height * s.width < s.width,
            ;
        } else {
            assert(0 <= r.width && r.width * s.height <= r.height * s.width && r.width <= 0x4_0000_0000
                * 0x8000_0000) by (nonlinear_arith)
                requires
                    0 <= r.height <= 0x4_0000_0000,
                    0 < s.width <= 0x7fff_ffff,
                    0 < s.height,
                    0 <= r.height * s.width - r.width * s.height < s.height,
            ;
        }
    }
}

/// An aspect-locked resize keeps the ratio of width to height that the item
/// had at the anchor, in each of the eight directions: the extent that
/// follows is the leading extent scaled by that ratio and rounded down, so the
/// two ratios differ by less than one pixel of the following extent.
pub proof fn ratio_is_kept(start: Frame, dx: int, dy: int, d: ResizeDirection)
    requires
        has_ratio(start),
    ensures
        ({
            let r = resized(start, dx, dy, d, true);
            &&& r.width >= 0
            &&& r.height >= 0
            &&& width_leads(d) ==> r.width == mirrored_extent(raw_width(start, dx, d)) && 0 <= r.width
                * start.height - r.height * start.width < start.width
            &&& !width_leads(d) ==> r.height == mirrored_extent(raw_height(start, dy, d)) && 0
                <= r.height * start.width - r.width * start.height < start.height
        }),
{
    let r = resized(start, dx, dy, d, true);
    if width_leads(d) {
        let p = r.width * start.height;
        assert(p >= 0) by (nonlinear_arith)
            requires
                p == r.width * start.height,
                r.width >= 0,
                start.height > 0,
        ;
        vstd::arithmetic::div_mod::lemma_fundamental_div_mod(p, start.width);
        vstd::arithmetic::div_mod::lemma_mod_bound(p, start.width);
        vstd::arithmetic::div_mod::lemma_div_pos_is_pos(p, start.width);
        assert(r.height * start.width == start.width * (p / start.width)) by (nonlinear_arith)
            requires
                r.height == p / start.width,
        ;
    } else {
        let p = r.height * start.width;
        assert(p >= 0) by (nonlinear_arith)
            requires
                p == r.height * start.width,
                r.height >= 0,
                start.width > 0,
        ;
        vstd::arithmetic::div_mod::lemma_fundamental_div_mod(p, start.height);
        vstd::arithmetic::div_mod::lemma_mod_bound(p, start.height);
        vstd::arithmetic::div_mod::lemma_div_pos_is_pos(p, start.height);
        assert(r.width * start.height == start.height * (p / start.height)) by (nonlinear_arith)
            requires
                r.width == p / start.height,
        ;
    }
}

/// A free resize changes each extent by the pointer's signed movement along
/// the edges that the direction moves, and mirrors an axis whose extent would
/// be negative: the extent is negated and the offset advanced by it.
pub proof fn free_resize_follows_edges(start: Frame, dx: int, dy: int, d: ResizeDirection)
    ensures
        ({
            let r = resized(start, dx, dy, d, false);
            let w = if d.moves_right() {
                start.width + dx
            } else if d.moves_left() {
                start.width - dx
            } else {
                start.width
            };
            let h = if d.moves_bottom() {
                start.height + dy
            } else if d.moves_top() {
                start.height - dy
            } else {
                start.height
            };
            let x = if d.moves_left() {
                start.x + dx
            } else {
                start.x
            };
            let y = if d.moves_top() {
                start.y + dy
            } else {
                start.y
            };
            &&& r == resized_free(start, dx, dy, d)
            &&& r.width >= 0 && r.height >= 0
            &&& w >= 0 ==> r.width == w && r.x == x
            &&& w < 0 ==> r.width == -w && r.x == x + w
            &&& h >= 0 ==> r.height == h && r.y == y
            &&& h < 0 ==> r.height == -h && r.y == y + h
        }),
{
}

/// Along an axis of which a free resize moves one edge, the rectangle spans
/// from the edge that stays to the edge that follows the pointer, whichever
/// of the two comes first: dragged through the edge that stays, the rectangle
/// flips over it. An axis of which no edge moves is left as it was, if its
/// extent was not negative.
pub proof fn free_resize_spans_fixed_and_moved_edge(start: Frame, dx: int, dy: int, d: ResizeDirection)
    ensures
        ({
            let r = resized_free(start, dx, dy, d);
            let right = start.x + start.width;
            let bottom = start.y + start.height;
            &&& d.moves_right() ==> r.x == min(start.x, right + dx) && r.x + r.width == max(start.x, right + dx)
            &&& d.moves_left() ==> r.x == min(right, start.x + dx) && r.x + r.width == max(right, start.x + dx)
            &&& d.moves_bottom() ==> r.y == min(start.y, bottom + dy) && r.y + r.height == max(start.y, bottom + dy)
            &&& d.moves_top() ==> r.y == min(bottom, start.y + dy) && r.y + r.height == max(bottom, start.y + dy)
            &&& !d.moves_left() && !d.moves_right() && start.width >= 0 ==> r.x == start.x && r.width == start.width
            &&& !d.moves_top() && !d.moves_bottom() && start.height >= 0 ==> r.y == start.y && r.height
                == start.height
        }),
{
}

/// A resize by no movement leaves a rendered rectangle as it is, locked or not.
pub proof fn zero_delta_resize_is_identity(start: Frame, d: ResizeDirection, locked: bool)
    requires
        start.width >= 0,
        start.height >= 0,
    ensures
        resized(start, 0, 0, d, locked) == start,
        dragged(start, 0, 0) == start,
{
    if locked && has_ratio(start) {
        vstd::arithmetic::div_mod::lemma_div_multiples_vanish(start.height, start.width);
        vstd::arithmetic::div_mod::lemma_div_multiples_vanish(start.width, start.height);
        assert(start.width * start.height == start.height * start.width) by (nonlinear_arith);
    }
}

/// While a drag goes on undisturbed, pointer movements leave everything but
/// the position as it is.
proof fn moves_keep_drag(c: TransformController, points: Seq<(i32, i32)>)
    requires
        c.interaction.mode == Mode::Dragging,
        !c.geometry.hidden,
    ensures
        after_all(c, moves(points)).interaction == c.interaction,
        after_all(c, moves(points)).on_edge == c.on_edge,
        after_all(c, moves(points)).on_corner == c.on_corner,
        after_all(c, moves(points)).focused == c.focused,
        after_all(c, moves(points)).resting_z_index == c.resting_z_index,
        after_all(c, moves(points)).geometry.hidden == c.geometry.hidden,
        after_all(c, moves(points)).geometry.width == c.geometry.width,
        after_all(c, moves(points)).geometry.height == c.geometry.height,
        after_all(c, moves(points)).geometry.z_index == c.geometry.z_index,
        after_all(c, moves(points)).geometry.aspect_locked == c.geometry.aspect_locked,
        after_all(c, moves(points)).geometry.content_ref == c.geometry.content_ref,
    decreases points.len(),
{
    if points.len() > 0 {
        let next = c.after(moves(points)[0]);
        assert(moves(points).skip(1) =~= moves(points.skip(1)));
        moves_keep_drag(next, points.skip(1));
    }
}

/// While a resize goes on, pointer movements leave everything but the
/// rectangle as it is.
proof fn moves_keep_resize(c: TransformController, points: Seq<(i32, i32)>)
    requires
        c.interaction.mode is Resizing,
        !c.geometry.hidden,
    ensures
        after_all(c, moves(points)).interaction == c.interaction,
        after_all(c, moves(points)).geometry.hidden == c.geometry.hidden,
        after_all(c, moves(points)).geometry.aspect_locked == c.geometry.aspect_locked,
        after_all(c, moves(points)).geometry.z_index == c.geometry.z_index,
        after_all(c, moves(points)).geometry.content_ref == c.geometry.content_ref,
        after_all(c, moves(points)).resting_z_index == c.resting_z_index,
    decreases points.len(),
{
    if points.len() > 0 {
        let next = c.after(moves(points)[0]);
        assert(moves(points).skip(1) =~= moves(points.skip(1)));
        moves_keep_resize(next, points.skip(1));
    }
}

/// A drag ends where the pointer's whole way from press to release puts it:
/// at the offset that the element had at the press plus the difference of the
/// two pointer positions, whatever movements were reported in between. The
/// size stays, and the item is idle again at its resting stacking order.
pub proof fn drag_release_position(
    c: TransformController,
    layout: LiveLayout,
    press: (i32, i32),
    between: Seq<(i32, i32)>,
    release: (i32, i32),
)
    requires
        c.may_start(0),
        !c.on_edge,
        !c.on_corner,
    ensures
        ({
            let pressed = c.after(Event::BodyPointerDown { button: 0, x: press.0, y: press.1, layout });
            let moved = after_all(pressed, moves(between)).after(Event::PointerMove { x: release.0, y: release.1 });
            let released = moved.after(Event::PointerUp);
            &&& pressed.interaction.mode == Mode::Dragging
            &&& released.geometry.x == layout.left + (release.0 - press.0)
            &&& released.geometry.y == layout.top + (release.1 - press.1)
            &&& released.geometry.width == c.geometry.width
            &&& released.geometry.height == c.geometry.height
            &&& released.geometry.z_index == c.resting_z_index
            &&& released.interaction.mode == Mode::Idle
        }),
{
    let pressed = c.after(Event::BodyPointerDown { button: 0, x: press.0, y: press.1, layout });
    moves_keep_drag(pressed, between);
    gesture_results_fit(layout, release.0 - press.0, release.1 - press.1, ResizeDirection::Top, false);
}

/// A resize ends with the rectangle that the pointer's whole way from press
/// to release gives: the layout that the element had at the press, resized by
/// the difference of the two pointer positions in the handle's direction,
/// whatever movements were reported in between. The document-wide listeners
/// are installed by the press and removed by the release.
pub proof fn resize_release_geometry(
    c: TransformController,
    layout: LiveLayout,
    direction: ResizeDirection,
    press: (i32, i32),
    between: Seq<(i32, i32)>,
    release: (i32, i32),
)
    requires
        c.may_start(0),
    ensures
        ({
            let down = Event::HandlePointerDown { button: 0, x: press.0, y: press.1, layout, direction };
            let pressed = c.after(down);
            let moved = after_all(pressed, moves(between)).after(Event::PointerMove { x: release.0, y: release.1 });
            let released = moved.after(Event::PointerUp);
            &&& pressed.interaction.mode == Mode::Resizing(direction)
            &&& c.effect_of(down).listeners == ListenerChange::Install
            &&& released.geometry.frame() == resized(
                layout.frame(),
                release.0 - press.0,
                release.1 - press.1,
                direction,
                c.geometry.aspect_locked,
            )
            &&& released.geometry.width >= 0
            &&& released.geometry.height >= 0
            &&& released.interaction.mode == Mode::Idle
            &&& moved.effect_of(Event::PointerUp).listeners == ListenerChange::Remove
        }),
{
    let down = Event::HandlePointerDown { button: 0, x: press.0, y: press.1, layout, direction };
    let pressed = c.after(down);
    moves_keep_resize(pressed, between);
    gesture_results_fit(layout, release.0 - press.0, release.1 - press.1, direction, c.geometry.aspect_locked);
}

/// A press followed at once by a release at the same place leaves position
/// and size as they were, on the body as on a handle. So does a gesture whose
/// only movement is to the point of the press, where the stored rectangle is
/// the one that the element is rendered with.
pub proof fn zero_delta_gesture_is_identity(c: TransformController, layout: LiveLayout, at: (i32, i32), direction: ResizeDirection)
    requires
        c.may_start(0),
        !c.on_edge,
        !c.on_corner,
    ensures
        ({
            let body = Event::BodyPointerDown { button: 0, x: at.0, y: at.1, layout };
            let handle = Event::HandlePointerDown { button: 0, x: at.0, y: at.1, layout, direction };
            let still = Event::PointerMove { x: at.0, y: at.1 };
            &&& c.after(body).after(Event::PointerUp).geometry.frame() == c.geometry.frame()
            &&& c.after(handle).after(Event::PointerUp).geometry.frame() == c.geometry.frame()
            &&& layout.frame() == c.geometry.frame() && layout.is_rendered() ==> {
                &&& c.after(body).after(still).after(Event::PointerUp).geometry.frame() == c.geometry.frame()
                &&& c.after(handle).after(still).after(Event::PointerUp).geometry.frame() == c.geometry.frame()
            }
        }),
{
    if layout.is_rendered() {
        zero_delta_resize_is_identity(layout.frame(), direction, c.geometry.aspect_locked);
    }
}

/// Deletion is terminal: no event changes anything of a deleted item, so it
/// stays hidden, keeps its geometry, starts no gesture, and no render pass
/// shows it.
pub proof fn deleted_item_is_inert(c: TransformController, events: Seq<Event>)
    requires
        c.geometry.hidden,
    ensures
        after_all(c, events) == c,
        after_all(c, events).rendered() is None,
    decreases events.len(),
{
    if events.len() > 0 {
        assert(c.after(events[0]) == c);
        deleted_item_is_inert(c, events.skip(1));
    }
}

/// The delete key on a focused, visible item hides it whatever it was doing,
/// and from then on the item is inert.
pub proof fn delete_hides_for_good(c: TransformController, events: Seq<Event>)
    requires
        c.focused,
        !c.geometry.hidden,
    ensures
        ({
            let deleted = c.after(Event::KeyDown(Key::Delete));
            &&& deleted.geometry.hidden
            &&& deleted.interaction.mode == Mode::Idle
            &&& deleted.geometry.frame() == c.geometry.frame()
            &&& !deleted.listening()
            &&& after_all(deleted, events) == deleted
            &&& after_all(deleted, events).rendered() is None
        }),
{
    deleted_item_is_inert(c.after(Event::KeyDown(Key::Delete)), events);
}

/// A press while a gesture is in progress changes nothing and asks for
/// nothing, on the body as on a handle, whatever the button.
pub proof fn press_during_gesture_is_ignored(
    c: TransformController,
    button: i16,
    x: i32,
    y: i32,
    layout: LiveLayout,
    direction: ResizeDirection,
)
    requires
        c.busy(),
    ensures
        c.after(Event::BodyPointerDown { button, x, y, layout }) == c,
        c.after(Event::HandlePointerDown { button, x, y, layout, direction }) == c,
        c.effect_of(Event::BodyPointerDown { button, x, y, layout }).listeners == ListenerChange::Keep,
        c.effect_of(Event::HandlePointerDown { button, x, y, layout, direction }).listeners == ListenerChange::Keep,
{
}

/// No event changes what an item shows, whether it keeps its ratio, or the
/// stacking order that it rests at; and no event brings a deleted item back.
pub proof fn events_keep_identity(c: TransformController, event: Event)
    ensures
        c.after(event).geometry.content_ref == c.geometry.content_ref,
        c.after(event).geometry.aspect_locked == c.geometry.aspect_locked,
        c.after(event).resting_z_index == c.resting_z_index,
        c.geometry.hidden ==> c.after(event).geometry.hidden,
{
}

/// Every event keeps a deleted item idle, and the document-wide listeners
/// are asked for exactly on entering a resize and given up exactly on leaving
/// one, by whatever event it is left. A release always ends the gesture.
pub proof fn listeners_follow_resize(c: TransformController, event: Event)
    requires
        c.wf(),
    ensures
        c.after(event).wf(),
        c.effect_of(event).listeners == ListenerChange::Install <==> !c.listening() && c.after(event).listening(),
        c.effect_of(event).listeners == ListenerChange::Remove <==> c.listening() && !c.after(event).listening(),
        c.after(Event::PointerUp).interaction.mode == Mode::Idle,
{
}

} // verus!
