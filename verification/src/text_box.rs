//! The text of a text item while the user looks at it and edits it.

use vstd::prelude::*;
use crate::text_details::TextDetails;

verus! {

/// The text that an item shows, and whether the pointer is over it.
#[derive(Debug)]
pub struct TextBox {
    /// The text as the user has left it.
    pub text: String,
    /// Whether the pointer is over the text.
    pub selected: bool,
    /// Whether the details allow editing.
    pub editable: bool,
    /// Whether the item is movable. A movable text is edited whenever it is
    /// selected; a static one only where its details allow it.
    pub movable: bool,
}

impl TextBox {
    /// Whether the editing widget is shown in place of the plain text.
    pub open spec fn editing(&self) -> bool {
        self.selected && (self.movable || self.editable)
    }

    /// The box of a text item as it is first shown: its details' text, not selected.
    pub fn new(details: &TextDetails, movable: bool) -> (b: TextBox)
        ensures
            b.text@ == details.text@,
            !b.selected,
            b.editable == details.editable,
            b.movable == movable,
    {
        TextBox { text: details.text.clone(), selected: false, editable: details.editable, movable }
    }

    /// The pointer entered the text.
    pub fn pointer_enter(&mut self)
        ensures
            final(self).selected,
            final(self).text == old(self).text,
            final(self).editable == old(self).editable,
            final(self).movable == old(self).movable,
    {
        self.selected = true;
    }

    /// The pointer left the text.
    pub fn pointer_leave(&mut self)
        ensures
            !final(self).selected,
            final(self).text == old(self).text,
            final(self).editable == old(self).editable,
            final(self).movable == old(self).movable,
    {
        self.selected = false;
    }

    /// The user changed the text in the editing widget.
    pub fn input(&mut self, value: String)
        ensures
            final(self).text == value,
            final(self).selected == old(self).selected,
            final(self).editable == old(self).editable,
            final(self).movable == old(self).movable,
    {
        self.text = value;
    }

    /// Whether the editing widget is shown in place of the plain text.
    pub fn shows_editor(&self) -> (r: bool)
        ensures
            r == self.editing(),
    {
        self.selected && (self.movable || self.editable)
    }
}

} // verus!
