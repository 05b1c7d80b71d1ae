use canvas_editor::controller::{
    Effect, Event, FocusChange, InteractionState, Key, ListenerChange, Mode, RenderedItem, TransformController,
};
use canvas_editor::direction::{HandleKind, ResizeDirection};
use canvas_editor::geometry::{ItemGeometry, LiveLayout};
use canvas_editor::placement::MouseMoveProps;

fn item(aspect_locked: bool) -> TransformController {
    TransformController::new(ItemGeometry::new(10, 20, 100, 50, aspect_locked, 0))
}

fn layout(left: i32, top: i32, width: i32, height: i32) -> LiveLayout {
    LiveLayout { left, top, width, height }
}

const QUIET: Effect = Effect { focus: FocusChange::Keep, listeners: ListenerChange::Keep };

#[test]
fn new_controller_is_at_rest() {
    let c = item(false);
    assert_eq!(c.interaction.mode, Mode::Idle);
    assert_eq!(c.resting_z_index, 1);
    assert!(!c.focused && !c.on_edge && !c.on_corner);
    assert!(!c.is_busy());
    assert!(!c.is_listening());
    assert_eq!(c.geometry.z_index, 1);
}

#[test]
fn controller_from_props_uses_defaults() {
    let c = TransformController::from_props(
        MouseMoveProps { width: None, height: None, start_x: None, start_y: None },
        false,
        3,
    );
    assert_eq!(c.geometry, ItemGeometry::new(0, 0, 250, 250, false, 3));
    let c = TransformController::from_props(
        MouseMoveProps { width: Some(40), height: None, start_x: Some(-5), start_y: Some(6) },
        true,
        4,
    );
    assert_eq!(c.geometry, ItemGeometry::new(-5, 6, 40, 250, true, 4));
}

#[test]
fn drag_ends_at_offset_plus_pointer_travel() {
    let mut c = item(false);
    let e = c.body_pointer_down(0, 300, 300, layout(10, 20, 100, 50));
    assert_eq!(e, QUIET);
    assert_eq!(c.interaction.mode, Mode::Dragging);
    assert_eq!(c.geometry.z_index, 1000);
    c.pointer_move(310, 290);
    assert_eq!((c.geometry.x, c.geometry.y), (20, 10));
    c.pointer_move(1000, -50);
    c.pointer_move(345, 317);
    c.pointer_up();
    assert_eq!((c.geometry.x, c.geometry.y), (55, 37));
    assert_eq!((c.geometry.width, c.geometry.height), (100, 50));
    assert_eq!(c.interaction.mode, Mode::Idle);
    assert_eq!(c.geometry.z_index, 1);
}

#[test]
fn drag_does_not_depend_on_move_granularity() {
    let mut coarse = item(false);
    coarse.body_pointer_down(0, 0, 0, layout(10, 20, 100, 50));
    coarse.pointer_move(64, -32);
    coarse.pointer_up();
    let mut fine = item(false);
    fine.body_pointer_down(0, 0, 0, layout(10, 20, 100, 50));
    for i in 1..=32 {
        fine.pointer_move(2 * i, -i);
    }
    fine.pointer_up();
    assert_eq!(coarse, fine);
    assert_eq!((fine.geometry.x, fine.geometry.y), (74, -12));
}

#[test]
fn drag_starts_from_the_live_layout() {
    let mut c = item(false);
    c.body_pointer_down(0, 5, 5, layout(-40, 70, 100, 50));
    c.pointer_move(6, 7);
    assert_eq!((c.geometry.x, c.geometry.y), (-39, 72));
}

#[test]
fn other_buttons_start_nothing() {
    for button in [1, 2, 3, -1] {
        let mut c = item(false);
        let before = c;
        assert_eq!(c.body_pointer_down(button, 1, 2, layout(0, 0, 5, 5)), QUIET);
        assert_eq!(c, before);
        assert_eq!(c.handle_pointer_down(button, 1, 2, layout(0, 0, 5, 5), ResizeDirection::Top), QUIET);
        assert_eq!(c, before);
    }
}

#[test]
fn body_press_on_an_edge_handle_starts_nothing() {
    let mut c = item(false);
    c.handle_enter(HandleKind::Edge);
    assert!(c.on_edge);
    let before = c;
    c.body_pointer_down(0, 1, 2, layout(0, 0, 5, 5));
    assert_eq!(c, before);
    c.handle_leave(HandleKind::Edge);
    assert!(!c.on_edge);
    c.body_pointer_down(0, 1, 2, layout(0, 0, 5, 5));
    assert_eq!(c.interaction.mode, Mode::Dragging);
}

#[test]
fn hovering_a_handle_suppresses_drag_moves() {
    let mut c = item(false);
    c.body_pointer_down(0, 0, 0, layout(10, 20, 100, 50));
    c.handle_enter(HandleKind::Corner);
    assert!(c.on_corner);
    c.pointer_move(50, 50);
    assert_eq!((c.geometry.x, c.geometry.y), (10, 20));
    c.handle_leave(HandleKind::Corner);
    c.handle_enter(HandleKind::Edge);
    c.pointer_move(50, 50);
    assert_eq!((c.geometry.x, c.geometry.y), (10, 20));
    c.handle_leave(HandleKind::Edge);
    c.pointer_move(50, 50);
    assert_eq!((c.geometry.x, c.geometry.y), (60, 70));
}

#[test]
fn resize_gesture_installs_and_removes_listeners() {
    let mut c = item(false);
    let e = c.handle_pointer_down(0, 200, 200, layout(0, 0, 100, 100), ResizeDirection::BottomRight);
    assert_eq!(e, Effect { focus: FocusChange::Keep, listeners: ListenerChange::Install });
    assert_eq!(c.interaction.mode, Mode::Resizing(ResizeDirection::BottomRight));
    assert!(c.is_listening());
    assert_eq!(c.geometry.z_index, 1);
    assert_eq!(c.pointer_move(250, 220), QUIET);
    let e = c.pointer_up();
    assert_eq!(e, Effect { focus: FocusChange::Keep, listeners: ListenerChange::Remove });
    assert!(!c.is_listening());
    assert_eq!((c.geometry.x, c.geometry.y, c.geometry.width, c.geometry.height), (0, 0, 150, 120));
    assert_eq!(c.pointer_up(), QUIET);
}

#[test]
fn resize_top_left_gesture() {
    let mut c = item(false);
    c.handle_pointer_down(0, 0, 0, layout(10, 10, 100, 100), ResizeDirection::TopLeft);
    c.pointer_move(5, 5);
    c.pointer_move(30, 10);
    c.pointer_up();
    assert_eq!((c.geometry.x, c.geometry.y, c.geometry.width, c.geometry.height), (40, 20, 70, 90));
}

#[test]
fn resize_of_locked_item_keeps_ratio() {
    let mut c = item(true);
    c.handle_pointer_down(0, 0, 0, layout(10, 20, 100, 50), ResizeDirection::Right);
    c.pointer_move(60, 999);
    c.pointer_up();
    assert_eq!((c.geometry.x, c.geometry.y, c.geometry.width, c.geometry.height), (10, 20, 160, 80));
    c.handle_pointer_down(0, 0, 0, layout(10, 20, 160, 80), ResizeDirection::Bottom);
    c.pointer_move(999, -40);
    c.pointer_up();
    assert_eq!((c.geometry.x, c.geometry.y, c.geometry.width, c.geometry.height), (10, 20, 80, 40));
}

#[test]
fn resize_goes_on_while_the_pointer_is_outside() {
    let mut c = item(false);
    c.handle_pointer_down(0, 0, 0, layout(0, 0, 100, 100), ResizeDirection::Right);
    assert_eq!(c.pointer_leave(), Effect { focus: FocusChange::Drop, listeners: ListenerChange::Keep });
    assert_eq!(c.interaction.mode, Mode::Resizing(ResizeDirection::Right));
    c.handle_enter(HandleKind::Edge);
    c.pointer_move(25, 0);
    assert_eq!(c.geometry.width, 125);
}

#[test]
fn entering_ends_a_leftover_resize() {
    let mut c = item(false);
    c.handle_pointer_down(0, 0, 0, layout(0, 0, 100, 100), ResizeDirection::Right);
    c.pointer_move(25, 0);
    assert_eq!(c.pointer_enter(), Effect { focus: FocusChange::Take, listeners: ListenerChange::Remove });
    assert_eq!(c.interaction.mode, Mode::Idle);
    assert!(!c.is_listening());
    assert_eq!(c.geometry.width, 125);
    c.pointer_move(50, 0);
    assert_eq!(c.geometry.width, 125);
}

#[test]
fn events_keep_what_the_item_is() {
    let mut c = TransformController::new(ItemGeometry::new(1, 2, 30, 40, true, 17));
    let events = [
        Event::PointerEnter,
        Event::BodyPointerDown { button: 0, x: 1, y: 1, layout: layout(1, 2, 30, 40) },
        Event::PointerMove { x: 9, y: 9 },
        Event::PointerUp,
        Event::HandlePointerDown { button: 0, x: 1, y: 1, layout: layout(9, 10, 30, 40), direction: ResizeDirection::Top },
        Event::PointerMove { x: 9, y: 9 },
        Event::PointerLeave,
        Event::PointerUp,
        Event::PointerEnter,
        Event::KeyDown(Key::Delete),
        Event::PointerEnter,
    ];
    let mut hidden = false;
    for e in events {
        c.handle(e);
        assert_eq!(c.geometry.content_ref, 17);
        assert!(c.geometry.aspect_locked);
        assert_eq!(c.resting_z_index, 1);
        assert!(c.geometry.hidden || !hidden);
        hidden = c.geometry.hidden;
    }
    assert!(hidden);
}

#[test]
fn zero_delta_gestures_change_nothing() {
    let mut c = item(true);
    let before = c.geometry;
    c.body_pointer_down(0, 7, 7, layout(10, 20, 100, 50));
    c.pointer_up();
    assert_eq!(c.geometry, before);
    c.body_pointer_down(0, 7, 7, layout(10, 20, 100, 50));
    c.pointer_move(7, 7);
    c.pointer_up();
    assert_eq!(c.geometry, before);
    for d in [ResizeDirection::Top, ResizeDirection::BottomLeft, ResizeDirection::Right] {
        c.handle_pointer_down(0, 7, 7, layout(10, 20, 100, 50), d);
        c.pointer_move(7, 7);
        c.pointer_up();
        assert_eq!(c.geometry, before);
    }
}

#[test]
fn press_during_a_gesture_is_ignored() {
    let mut c = item(false);
    c.body_pointer_down(0, 1, 2, layout(10, 20, 100, 50));
    let dragging = c;
    assert_eq!(c.body_pointer_down(0, 50, 60, layout(0, 0, 1, 1)), QUIET);
    assert_eq!(c, dragging);
    assert_eq!(c.handle_pointer_down(0, 50, 60, layout(0, 0, 1, 1), ResizeDirection::Left), QUIET);
    assert_eq!(c, dragging);
    c.pointer_up();
    c.handle_pointer_down(0, 1, 2, layout(10, 20, 100, 50), ResizeDirection::Top);
    let resizing = c;
    assert_eq!(c.body_pointer_down(0, 50, 60, layout(0, 0, 1, 1)), QUIET);
    assert_eq!(c, resizing);
    assert_eq!(c.handle_pointer_down(0, 50, 60, layout(0, 0, 1, 1), ResizeDirection::Left), QUIET);
    assert_eq!(c, resizing);
}

#[test]
fn enter_and_leave_move_the_focus_and_end_a_drag() {
    let mut c = item(false);
    assert_eq!(c.pointer_enter(), Effect { focus: FocusChange::Take, listeners: ListenerChange::Keep });
    assert!(c.focused);
    c.body_pointer_down(0, 0, 0, layout(10, 20, 100, 50));
    assert_eq!(c.pointer_leave(), Effect { focus: FocusChange::Drop, listeners: ListenerChange::Keep });
    assert!(!c.focused);
    assert_eq!(c.interaction.mode, Mode::Idle);
    assert_eq!(c.geometry.z_index, 1);
    c.body_pointer_down(0, 0, 0, layout(10, 20, 100, 50));
    c.pointer_enter();
    assert_eq!(c.interaction.mode, Mode::Idle);
    assert_eq!(c.geometry.z_index, 1);
}

#[test]
fn key_names() {
    assert_eq!(Key::from_name("Delete"), Key::Delete);
    assert_eq!(Key::from_name("delete"), Key::Other);
    assert_eq!(Key::from_name("Backspace"), Key::Other);
    assert_eq!(Key::from_name(""), Key::Other);
}

#[test]
fn delete_needs_focus() {
    let mut c = item(false);
    assert_eq!(c.key_down(Key::Delete), QUIET);
    assert!(!c.geometry.hidden);
    c.pointer_enter();
    assert_eq!(c.key_down(Key::Other), QUIET);
    assert!(!c.geometry.hidden);
    assert_eq!(c.key_down(Key::Delete), QUIET);
    assert!(c.geometry.hidden);
    assert_eq!(c.render(), None);
}

#[test]
fn delete_during_a_resize_removes_the_listeners() {
    let mut c = item(false);
    c.pointer_enter();
    c.handle_pointer_down(0, 0, 0, layout(10, 20, 100, 50), ResizeDirection::Top);
    let e = c.key_down(Key::Delete);
    assert_eq!(e, Effect { focus: FocusChange::Keep, listeners: ListenerChange::Remove });
    assert!(c.geometry.hidden);
    assert_eq!(c.interaction.mode, Mode::Idle);
}

#[test]
fn deletion_is_terminal() {
    let mut c = item(false);
    c.pointer_enter();
    c.key_down(Key::Delete);
    let deleted = c;
    let events = [
        Event::BodyPointerDown { button: 0, x: 1, y: 1, layout: layout(0, 0, 10, 10) },
        Event::PointerMove { x: 50, y: 50 },
        Event::PointerUp,
        Event::HandlePointerDown {
            button: 0,
            x: 1,
            y: 1,
            layout: layout(0, 0, 10, 10),
            direction: ResizeDirection::BottomRight,
        },
        Event::PointerMove { x: 90, y: 90 },
        Event::PointerUp,
        Event::PointerLeave,
        Event::PointerEnter,
        Event::HandleEnter(HandleKind::Edge),
        Event::HandleLeave(HandleKind::Corner),
        Event::KeyDown(Key::Delete),
        Event::KeyDown(Key::Other),
    ];
    for e in events {
        assert_eq!(c.handle(e), QUIET);
        assert_eq!(c, deleted);
        assert_eq!(c.render(), None);
    }
}

#[test]
fn handle_dispatches_each_event() {
    let mut by_event = item(false);
    let mut by_call = item(false);
    let l = layout(10, 20, 100, 50);
    assert_eq!(by_event.handle(Event::PointerEnter), by_call.pointer_enter());
    assert_eq!(
        by_event.handle(Event::HandlePointerDown { button: 0, x: 3, y: 4, layout: l, direction: ResizeDirection::Left }),
        by_call.handle_pointer_down(0, 3, 4, l, ResizeDirection::Left)
    );
    assert_eq!(by_event.handle(Event::PointerMove { x: 13, y: 4 }), by_call.pointer_move(13, 4));
    assert_eq!(by_event.handle(Event::PointerUp), by_call.pointer_up());
    assert_eq!(by_event, by_call);
    assert_eq!(
        by_event.handle(Event::BodyPointerDown { button: 0, x: 3, y: 4, layout: l }),
        by_call.body_pointer_down(0, 3, 4, l)
    );
    assert_eq!(by_event.handle(Event::HandleEnter(HandleKind::Edge)), by_call.handle_enter(HandleKind::Edge));
    assert_eq!(by_event.handle(Event::HandleLeave(HandleKind::Edge)), by_call.handle_leave(HandleKind::Edge));
    assert_eq!(by_event.handle(Event::PointerLeave), by_call.pointer_leave());
    assert_eq!(by_event.handle(Event::KeyDown(Key::Delete)), by_call.key_down(Key::Delete));
    assert_eq!(by_event, by_call);
    assert_eq!((by_event.geometry.x, by_event.geometry.width), (20, 90));
}

#[test]
fn render_shows_the_rectangle() {
    let mut c = item(false);
    assert_eq!(c.render(), Some(RenderedItem { left: 10, top: 20, width: 100, height: 50, z_index: 1 }));
    c.body_pointer_down(0, 0, 0, layout(10, 20, 100, 50));
    c.pointer_move(1, 1);
    assert_eq!(c.render(), Some(RenderedItem { left: 11, top: 21, width: 100, height: 50, z_index: 1000 }));
}

#[test]
fn resting_z_index_is_restored_not_assumed() {
    let mut g = ItemGeometry::new(0, 0, 10, 10, false, 0);
    g.z_index = 7;
    let mut c = TransformController::new(g);
    assert_eq!(c.resting_z_index, 7);
    c.body_pointer_down(0, 0, 0, layout(0, 0, 10, 10));
    assert_eq!(c.geometry.z_index, 1000);
    c.pointer_up();
    assert_eq!(c.geometry.z_index, 7);
    assert_eq!(
        c.interaction,
        InteractionState { mode: Mode::Idle, anchor_x: 0, anchor_y: 0, geometry_at_anchor: layout(0, 0, 10, 10) }
    );
}
