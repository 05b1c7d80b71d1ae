//! The transform controller: one item's geometry and the state machine that
//! pointer and keyboard events drive.
//!
//! The controller decides; the application performs. Each event is handed in
//! as plain values, among them the layout that the application has just read
//! from the rendered element, and each answer names what the application has
//! to do to the host document: move the input focus, install or remove the
//! document-wide listeners that follow a resize outside the handle.

use vstd::prelude::*;
use crate::direction::HandleKind;
use crate::direction::ResizeDirection;
use crate::geometry::dragged;
use crate::geometry::drag_to;
use crate::geometry::resize_to;
use crate::geometry::resized;
use crate::geometry::ItemGeometry;
use crate::geometry::LiveLayout;
use crate::geometry::FOREGROUND_Z_INDEX;

verus! {

/// The number that the host document gives the primary pointer button.
pub const PRIMARY_BUTTON: i16 = 0;

/// What the controller is doing with the pointer. The variants exclude each
/// other: an item is never dragged and resized at once.
#[derive(Clone, Copy, Debug, PartialEq, Eq, Structural)]
pub enum Mode {
    Idle,
    Dragging,
    Resizing(ResizeDirection),
}

/// What a gesture remembers of its start. The values are read only while the
/// mode is not idle.
#[derive(Clone, Copy, Debug, PartialEq, Eq, Structural)]
pub struct InteractionState {
    pub mode: Mode,
    /// Pointer position at the start of the gesture.
    pub anchor_x: i32,
    pub anchor_y: i32,
    /// Layout of the rendered element at the start of the gesture. Every
    /// pointer movement is measured from it, so nothing accumulates.
    pub geometry_at_anchor: LiveLayout,
}

/// A key as far as the controller tells keys apart.
#[derive(Clone, Copy, Debug, PartialEq, Eq, Structural)]
pub enum Key {
    Delete,
    Other,
}

/// One event of the host document, routed to the item that it targets.
#[derive(Clone, Copy, Debug, PartialEq, Eq, Structural)]
pub enum Event {
    /// A button went down over the item's body, outside every handle.
    BodyPointerDown { button: i16, x: i32, y: i32, layout: LiveLayout },
    /// A button went down over the handle of the given direction.
    HandlePointerDown { button: i16, x: i32, y: i32, layout: LiveLayout, direction: ResizeDirection },
    /// The pointer moved, over the item or, during a resize, anywhere in the document.
    PointerMove { x: i32, y: i32 },
    /// The button was released, over the item or, during a resize, anywhere in the document.
    PointerUp,
    /// The pointer entered the item.
    PointerEnter,
    /// The pointer left the item.
    PointerLeave,
    /// The pointer entered a handle of the given family.
    HandleEnter(HandleKind),
    /// The pointer left a handle of the given family.
    HandleLeave(HandleKind),
    /// A key went down while the host document had the item focused.
    KeyDown(Key),
}

/// What the application does to the input focus after an event.
#[derive(Clone, Copy, Debug, PartialEq, Eq, Structural)]
pub enum FocusChange {
    Keep,
    /// Give the item the input focus.
    Take,
    /// Remove the input focus from the item.
    Drop,
}

/// What the application does to the document-wide listeners after an event.
#[derive(Clone, Copy, Debug, PartialEq, Eq, Structural)]
pub enum ListenerChange {
    Keep,
    /// Install the document-wide move and release listeners.
    Install,
    /// Remove them.
    Remove,
}

/// What the application has to perform after an event.
#[derive(Clone, Copy, Debug, PartialEq, Eq, Structural)]
pub struct Effect {
    pub focus: FocusChange,
    pub listeners: ListenerChange,
}

/// What a render pass shows of a visible item.
#[derive(Clone, Copy, Debug, PartialEq, Eq, Structural)]
pub struct RenderedItem {
    pub left: i128,
    pub top: i128,
    pub width: i128,
    pub height: i128,
    pub z_index: i32,
}

/// One item's live geometry with the state of its gesture, focus and hover.
#[derive(Clone, Copy, Debug, PartialEq, Eq, Structural)]
pub struct TransformController {
    pub geometry: ItemGeometry,
    pub interaction: InteractionState,
    /// The stacking order that the item returns to when a gesture ends.
    pub resting_z_index: i32,
    /// Whether the item has the input focus.
    pub focused: bool,
    /// Whether the pointer is over an edge handle.
    pub on_edge: bool,
    /// Whether the pointer is over a corner handle.
    pub on_corner: bool,
}

impl Key {
    /// The key that a name of the host document stands for.
    pub open spec fn of_name(name: Seq<char>) -> Key {
        if name == "Delete"@ {
            Key::Delete
        } else {
            Key::Other
        }
    }

    /// Tells the delete key from every other by the name that the host
    /// document gives it.
    pub fn from_name(name: &str) -> (k: Key)
        ensures
            k == Self::of_name(name@),
    {
        if name.to_owned() == "Delete".to_owned() {
            Key::Delete
        } else {
            Key::Other
        }
    }
}

impl Effect {
    /// Nothing to perform.
    pub open spec fn none() -> Effect {
        Effect { focus: FocusChange::Keep, listeners: ListenerChange::Keep }
    }
}

impl TransformController {
    /// A gesture is in progress.
    pub open spec fn busy(self) -> bool {
        self.interaction.mode != Mode::Idle
    }

    /// The document-wide listeners are installed: exactly during a resize.
    pub open spec fn listening(self) -> bool {
        self.interaction.mode is Resizing
    }

    /// A deleted item is idle.
    pub open spec fn wf(self) -> bool {
        self.geometry.hidden ==> self.interaction.mode == Mode::Idle
    }

    /// A button press may start a gesture: the primary button, on a visible
    /// item that is idle.
    pub open spec fn may_start(self, button: i16) -> bool {
        button == PRIMARY_BUTTON && !self.geometry.hidden && !self.busy()
    }

    /// The controller with its mode set back to idle and its stacking order
    /// back to the resting value.
    pub open spec fn at_rest(self) -> TransformController {
        TransformController {
            geometry: ItemGeometry { z_index: self.resting_z_index, ..self.geometry },
            interaction: InteractionState { mode: Mode::Idle, ..self.interaction },
            ..self
        }
    }

    /// The controller with its stacking order back to the resting value and a
    /// drag, if one is in progress, ended. A resize goes on.
    pub open spec fn drag_ended(self) -> TransformController {
        if self.interaction.mode == Mode::Dragging {
            self.at_rest()
        } else {
            TransformController {
                geometry: ItemGeometry { z_index: self.resting_z_index, ..self.geometry },
                ..self
            }
        }
    }

    /// State after a button press over the body. A drag starts where
    /// `may_start` holds and the pointer is on no edge handle: the anchor and
    /// the layout are captured and the item comes to the foreground. Every other
    /// press changes nothing.
    pub open spec fn after_body_pointer_down(self, button: i16, x: i32, y: i32, layout: LiveLayout) -> TransformController {
        if self.may_start(button) && !self.on_edge {
            TransformController {
                geometry: ItemGeometry { z_index: FOREGROUND_Z_INDEX, ..self.geometry },
                interaction: InteractionState {
                    mode: Mode::Dragging,
                    anchor_x: x,
                    anchor_y: y,
                    geometry_at_anchor: layout,
                },
                ..self
            }
        } else {
            self
        }
    }

    /// State after a button press over a handle. A resize in the handle's
    /// direction starts where `may_start` holds: the anchor and the layout are
    /// captured. Every other press changes nothing.
    pub open spec fn after_handle_pointer_down(
        self,
        button: i16,
        x: i32,
        y: i32,
        layout: LiveLayout,
        direction: ResizeDirection,
    ) -> TransformController {
        if self.may_start(button) {
            TransformController {
                interaction: InteractionState {
                    mode: Mode::Resizing(direction),
                    anchor_x: x,
                    anchor_y: y,
                    geometry_at_anchor: layout,
                },
                ..self
            }
        } else {
            self
        }
    }

    /// State after a pointer movement. A drag moves the item by the pointer's
    /// distance from the anchor, unless the pointer is over a handle; a resize
    /// recomputes the rectangle from the layout at the anchor; an idle or
    /// deleted item stays as it is.
    pub open spec fn after_pointer_move(self, x: i32, y: i32) -> TransformController {
        if self.geometry.hidden {
            self
        } else {
            let start = self.interaction.geometry_at_anchor.frame();
            let dx = x - self.interaction.anchor_x;
            let dy = y - self.interaction.anchor_y;
            match self.interaction.mode {
                Mode::Idle => self,
                Mode::Dragging => if self.on_edge || self.on_corner {
                    self
                } else {
                    TransformController {
                        geometry: ItemGeometry {
                            x: dragged(start, dx, dy).x as i128,
                            y: dragged(start, dx, dy).y as i128,
                            ..self.geometry
                        },
                        ..self
                    }
                },
                Mode::Resizing(direction) => TransformController {
                    geometry: self.geometry.with_frame(
                        resized(start, dx, dy, direction, self.geometry.aspect_locked),
                    ),
                    ..self
                },
            }
        }
    }

    /// State after a release: the gesture ends and the item returns to its
    /// resting stacking order.
    pub open spec fn after_pointer_up(self) -> TransformController {
        if self.geometry.hidden {
            self
        } else {
            self.at_rest()
        }
    }

    /// State after the pointer entered the item: the item is focused, and a
    /// gesture left over from before, drag or resize, is ended.
    pub open spec fn after_pointer_enter(self) -> TransformController {
        if self.geometry.hidden {
            self
        } else {
            TransformController { focused: true, ..self.at_rest() }
        }
    }

    /// State after the pointer left the item: the focus is gone, a drag is
    /// ended, and a resize goes on, followed through the document.
    pub open spec fn after_pointer_leave(self) -> TransformController {
        if self.geometry.hidden {
            self
        } else {
            TransformController { focused: false, ..self.drag_ended() }
        }
    }

    /// State after the pointer entered (`over`) or left a handle of the given
    /// family: that family's hover flag says so.
    pub open spec fn after_handle_hover(self, kind: HandleKind, over: bool) -> TransformController {
        if self.geometry.hidden {
            self
        } else {
            match kind {
                HandleKind::Edge => TransformController { on_edge: over, ..self },
                HandleKind::Corner => TransformController { on_corner: over, ..self },
            }
        }
    }

    /// A key press deletes the item: the delete key, on a focused item that
    /// is still visible.
    pub open spec fn deletes(self, key: Key) -> bool {
        key == Key::Delete && self.focused && !self.geometry.hidden
    }

    /// State after a key press. Where it deletes, the gesture ends and the
    /// item is hidden for good.
    pub open spec fn after_key_down(self, key: Key) -> TransformController {
        if self.deletes(key) {
            TransformController {
                geometry: ItemGeometry { hidden: true, ..self.at_rest().geometry },
                ..self.at_rest()
            }
        } else {
            self
        }
    }

    /// State after any event.
    pub open spec fn after(self, event: Event) -> TransformController {
        match event {
            Event::BodyPointerDown { button, x, y, layout } => self.after_body_pointer_down(button, x, y, layout),
            Event::HandlePointerDown { button, x, y, layout, direction } => self.after_handle_pointer_down(
                button,
                x,
                y,
                layout,
                direction,
            ),
            Event::PointerMove { x, y } => self.after_pointer_move(x, y),
            Event::PointerUp => self.after_pointer_up(),
            Event::PointerEnter => self.after_pointer_enter(),
            Event::PointerLeave => self.after_pointer_leave(),
            Event::HandleEnter(kind) => self.after_handle_hover(kind, true),
            Event::HandleLeave(kind) => self.after_handle_hover(kind, false),
            Event::KeyDown(key) => self.after_key_down(key),
        }
    }

    /// What the application does to the document-wide listeners when the
    /// controller goes from `self` to `next`: install on entering a resize,
    /// remove on leaving one, whichever way it is left.
    pub open spec fn listeners_to(self, next: TransformController) -> ListenerChange {
        if !self.listening() && next.listening() {
            ListenerChange::Install
        } else if self.listening() && !next.listening() {
            ListenerChange::Remove
        } else {
            ListenerChange::Keep
        }
    }

    /// What the application does to the input focus after an event: take it
    /// when the pointer enters a visible item, drop it when the pointer leaves.
    pub open spec fn focus_on(self, event: Event) -> FocusChange {
        if self.geometry.hidden {
            FocusChange::Keep
        } else {
            match event {
                Event::PointerEnter => FocusChange::Take,
                Event::PointerLeave => FocusChange::Drop,
                _ => FocusChange::Keep,
            }
        }
    }

    /// What the application has to perform after an event.
    pub open spec fn effect_of(self, event: Event) -> Effect {
        Effect { focus: self.focus_on(event), listeners: self.listeners_to(self.after(event)) }
    }

    /// What a render pass shows: nothing of a deleted item, and else the
    /// rectangle with its stacking order.
    pub open spec fn rendered(self) -> Option<RenderedItem> {
        if self.geometry.hidden {
            None
        } else {
            Some(
                RenderedItem {
                    left: self.geometry.x,
                    top: self.geometry.y,
                    width: self.geometry.width,
                    height: self.geometry.height,
                    z_index: self.geometry.z_index,
                },
            )
        }
    }

    /// The controller of an item before its first event: idle, without
    /// focus, the pointer over no handle. The geometry's stacking order is the
    /// one that the item returns to after each gesture.
    pub open spec fn at_start(geometry: ItemGeometry) -> TransformController {
        TransformController {
            geometry,
            interaction: InteractionState {
                mode: Mode::Idle,
                anchor_x: 0,
                anchor_y: 0,
                geometry_at_anchor: LiveLayout { left: 0, top: 0, width: 0, height: 0 },
            },
            resting_z_index: geometry.z_index,
            focused: false,
            on_edge: false,
            on_corner: false,
        }
    }

    /// A controller at rest for an item with the given geometry.
    pub fn new(geometry: ItemGeometry) -> (c: TransformController)
        ensures
            c == Self::at_start(geometry),
            c.wf(),
    {
        TransformController {
            geometry,
            interaction: InteractionState {
                mode: Mode::Idle,
                anchor_x: 0,
                anchor_y: 0,
                geometry_at_anchor: LiveLayout { left: 0, top: 0, width: 0, height: 0 },
            },
            resting_z_index: geometry.z_index,
            focused: false,
            on_edge: false,
            on_corner: false,
        }
    }

    /// Whether a gesture is in progress.
    pub fn is_busy(&self) -> (b: bool)
        ensures
            b == self.busy(),
    {
        match self.interaction.mode {
            Mode::Idle => false,
            _ => true,
        }
    }

    /// Whether the document-wide listeners are installed.
    pub fn is_listening(&self) -> (b: bool)
        ensures
            b == self.listening(),
    {
        match self.interaction.mode {
            Mode::Resizing(_) => true,
            _ => false,
        }
    }

    fn rest(&mut self)
        ensures
            *final(self) == old(self).at_rest(),
    {
        self.interaction.mode = Mode::Idle;
        self.geometry.z_index = self.resting_z_index;
    }

    fn end_drag(&mut self)
        ensures
            *final(self) == old(self).drag_ended(),
    {
        match self.interaction.mode {
            Mode::Dragging => {
                self.interaction.mode = Mode::Idle;
            },
            _ => {},
        }
        self.geometry.z_index = self.resting_z_index;
    }

    /// A button went down over the item's body. `layout` is the element's
    /// layout as the host document has it now.
    pub fn body_pointer_down(&mut self, button: i16, x: i32, y: i32, layout: LiveLayout) -> (effect: Effect)
        ensures
            *final(self) == old(self).after_body_pointer_down(button, x, y, layout),
            effect == Effect::none(),
            old(self).wf() ==> final(self).wf(),
    {
        if button == PRIMARY_BUTTON && !self.geometry.hidden && !self.is_busy() && !self.on_edge {
            self.interaction.mode = Mode::Dragging;
            self.interaction.anchor_x = x;
            self.interaction.anchor_y = y;
            self.interaction.geometry_at_anchor = layout;
            self.geometry.z_index = FOREGROUND_Z_INDEX;
        }
        Effect { focus: FocusChange::Keep, listeners: ListenerChange::Keep }
    }

    /// A button went down over the handle of `direction`. `layout` is the
    /// element's layout as the host document has it now. The answer asks for
    /// the document-wide listeners exactly when a resize starts.
    pub fn handle_pointer_down(
        &mut self,
        button: i16,
        x: i32,
        y: i32,
        layout: LiveLayout,
        direction: ResizeDirection,
    ) -> (effect: Effect)
        ensures
            *final(self) == old(self).after_handle_pointer_down(button, x, y, layout, direction),
            effect.focus == FocusChange::Keep,
            effect.listeners == old(self).listeners_to(*final(self)),
            effect.listeners == if old(self).may_start(button) {
                ListenerChange::Install
            } else {
                ListenerChange::Keep
            },
            old(self).wf() ==> final(self).wf(),
    {
        if button == PRIMARY_BUTTON && !self.geometry.hidden && !self.is_busy() {
            self.interaction.mode = Mode::Resizing(direction);
            self.interaction.anchor_x = x;
            self.interaction.anchor_y = y;
            self.interaction.geometry_at_anchor = layout;
            Effect { focus: FocusChange::Keep, listeners: ListenerChange::Install }
        } else {
            Effect { focus: FocusChange::Keep, listeners: ListenerChange::Keep }
        }
    }

    /// The pointer moved to `(x, y)`.
    pub fn pointer_move(&mut self, x: i32, y: i32) -> (effect: Effect)
        ensures
            *final(self) == old(self).after_pointer_move(x, y),
            effect == Effect::none(),
            old(self).wf() ==> final(self).wf(),
            final(self).geometry.hidden == old(self).geometry.hidden,
            final(self).interaction == old(self).interaction,
            old(self).interaction.mode is Resizing && !old(self).geometry.hidden ==> final(self).geometry.width >= 0
                && final(self).geometry.height >= 0,
    {
        if !self.geometry.hidden {
            let start = self.interaction.geometry_at_anchor;
            match self.interaction.mode {
                Mode::Idle => {},
                Mode::Dragging => {
                    if !self.on_edge && !self.on_corner {
                        let (left, top) = drag_to(start, self.interaction.anchor_x, self.interaction.anchor_y, x, y);
                        self.geometry.x = left;
                        self.geometry.y = top;
                    }
                },
                Mode::Resizing(direction) => {
                    let (left, top, width, height) = resize_to(
                        start,
                        self.interaction.anchor_x,
                        self.interaction.anchor_y,
                        x,
                        y,
                        direction,
                        self.geometry.aspect_locked,
                    );
                    self.geometry.x = left;
                    self.geometry.y = top;
                    self.geometry.width = width;
                    self.geometry.height = height;
                },
            }
        }
        Effect { focus: FocusChange::Keep, listeners: ListenerChange::Keep }
    }

    /// The button was released. The answer asks for the removal of the
    /// document-wide listeners exactly when a resize ends.
    pub fn pointer_up(&mut self) -> (effect: Effect)
        ensures
            *final(self) == old(self).after_pointer_up(),
            effect.focus == FocusChange::Keep,
            effect.listeners == old(self).listeners_to(*final(self)),
            old(self).wf() ==> !final(self).busy(),
            old(self).wf() ==> final(self).wf(),
    {
        if self.geometry.hidden {
            Effect { focus: FocusChange::Keep, listeners: ListenerChange::Keep }
        } else {
            let listening = self.is_listening();
            self.rest();
            Effect {
                focus: FocusChange::Keep,
                listeners: if listening {
                    ListenerChange::Remove
                } else {
                    ListenerChange::Keep
                },
            }
        }
    }

    /// The pointer entered the item. The answer gives the item the focus,
    /// and asks for the removal of the document-wide listeners if a resize was
    /// left over.
    pub fn pointer_enter(&mut self) -> (effect: Effect)
        ensures
            *final(self) == old(self).after_pointer_enter(),
            effect.focus == if old(self).geometry.hidden {
                FocusChange::Keep
            } else {
                FocusChange::Take
            },
            effect.listeners == old(self).listeners_to(*final(self)),
            old(self).wf() ==> !final(self).busy(),
            old(self).wf() ==> final(self).wf(),
    {
        if self.geometry.hidden {
            Effect { focus: FocusChange::Keep, listeners: ListenerChange::Keep }
        } else {
            let listening = self.is_listening();
            self.rest();
            self.focused = true;
            Effect {
                focus: FocusChange::Take,
                listeners: if listening {
                    ListenerChange::Remove
                } else {
                    ListenerChange::Keep
                },
            }
        }
    }

    /// The pointer left the item.
    pub fn pointer_leave(&mut self) -> (effect: Effect)
        ensures
            *final(self) == old(self).after_pointer_leave(),
            effect == (Effect {
                focus: if old(self).geometry.hidden {
                    FocusChange::Keep
                } else {
                    FocusChange::Drop
                },
                listeners: ListenerChange::Keep,
            }),
            old(self).wf() ==> final(self).wf(),
    {
        if self.geometry.hidden {
            Effect { focus: FocusChange::Keep, listeners: ListenerChange::Keep }
        } else {
            self.end_drag();
            self.focused = false;
            Effect { focus: FocusChange::Drop, listeners: ListenerChange::Keep }
        }
    }

    /// The pointer entered a handle of the given family.
    pub fn handle_enter(&mut self, kind: HandleKind) -> (effect: Effect)
        ensures
            *final(self) == old(self).after_handle_hover(kind, true),
            effect == Effect::none(),
            old(self).wf() ==> final(self).wf(),
    {
        self.hover(kind, true);
        Effect { focus: FocusChange::Keep, listeners: ListenerChange::Keep }
    }

    /// The pointer left a handle of the given family.
    pub fn handle_leave(&mut self, kind: HandleKind) -> (effect: Effect)
        ensures
            *final(self) == old(self).after_handle_hover(kind, false),
            effect == Effect::none(),
            old(self).wf() ==> final(self).wf(),
    {
        self.hover(kind, false);
        Effect { focus: FocusChange::Keep, listeners: ListenerChange::Keep }
    }

    fn hover(&mut self, kind: HandleKind, over: bool)
        ensures
            *final(self) == old(self).after_handle_hover(kind, over),
    {
        if !self.geometry.hidden {
            match kind {
                HandleKind::Edge => {
                    self.on_edge = over;
                },
                HandleKind::Corner => {
                    self.on_corner = over;
                },
            }
        }
    }

    /// A key went down. The delete key on a focused, visible item hides it
    /// for good and ends whatever gesture was in progress; the answer then
    /// asks for the removal of the document-wide listeners if a resize was.
    pub fn key_down(&mut self, key: Key) -> (effect: Effect)
        ensures
            *final(self) == old(self).after_key_down(key),
            effect.focus == FocusChange::Keep,
            effect.listeners == old(self).listeners_to(*final(self)),
            final(self).geometry.hidden == (old(self).geometry.hidden || old(self).deletes(key)),
            old(self).wf() ==> final(self).wf(),
    {
        let deletes = match key {
            Key::Delete => self.focused && !self.geometry.hidden,
            Key::Other => false,
        };
        if deletes {
            let listening = self.is_listening();
            self.rest();
            self.geometry.hidden = true;
            Effect {
                focus: FocusChange::Keep,
                listeners: if listening {
                    ListenerChange::Remove
                } else {
                    ListenerChange::Keep
                },
            }
        } else {
            Effect { focus: FocusChange::Keep, listeners: ListenerChange::Keep }
        }
    }

    /// Takes one event: the state moves as `after` says, and the answer is
    /// what the application has to perform.
    pub fn handle(&mut self, event: Event) -> (effect: Effect)
        ensures
            *final(self) == old(self).after(event),
            effect == old(self).effect_of(event),
            old(self).wf() ==> final(self).wf(),
    {
        match event {
            Event::BodyPointerDown { button, x, y, layout } => self.body_pointer_down(button, x, y, layout),
            Event::HandlePointerDown { button, x, y, layout, direction } => self.handle_pointer_down(
                button,
                x,
                y,
                layout,
                direction,
            ),
            Event::PointerMove { x, y } => self.pointer_move(x, y),
            Event::PointerUp => self.pointer_up(),
            Event::PointerEnter => self.pointer_enter(),
            Event::PointerLeave => self.pointer_leave(),
            Event::HandleEnter(kind) => self.handle_enter(kind),
            Event::HandleLeave(kind) => self.handle_leave(kind),
            Event::KeyDown(key) => self.key_down(key),
        }
    }

    /// What a render pass shows of the item: nothing once it is deleted.
    pub fn render(&self) -> (r: Option<RenderedItem>)
        ensures
            r == self.rendered(),
            r is None == self.geometry.hidden,
    {
        if self.geometry.hidden {
            None
        } else {
            Some(
                RenderedItem {
                    left: self.geometry.x,
                    top: self.geometry.y,
                    width: self.geometry.width,
                    height: self.geometry.height,
                    z_index: self.geometry.z_index,
                },
            )
        }
    }
}

} // verus!
