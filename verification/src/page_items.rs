//! One placement record: what to show, where, how large, and whether the
//! user may move it.

use vstd::prelude::*;
use crate::file_details::FileDetails;
use crate::file_details::FileDetailsView;
use crate::text_details::TextDetails;
use crate::text_details::TextDetailsView;

verus! {

/// One item of the canvas as the item source gives it.
#[derive(Debug, PartialEq, Eq)]
pub struct PageItems {
    pub text: Option<TextDetails>,
    pub file: Option<FileDetails>,
    pub x: i32,
    pub y: i32,
    pub width: Option<i32>,
    pub height: Option<i32>,
    /// Whether the item gets a transform controller or is rendered in place.
    pub movable: bool,
}

/// A `PageItems` as plain values.
pub ghost struct PageItemsView {
    pub text: Option<TextDetailsView>,
    pub file: Option<FileDetailsView>,
    pub x: i32,
    pub y: i32,
    pub width: Option<i32>,
    pub height: Option<i32>,
    pub movable: bool,
}

/// The view of an optional text.
pub open spec fn text_view(text: Option<TextDetails>) -> Option<TextDetailsView> {
    match text {
        Some(t) => Some(t@),
        None => None,
    }
}

/// The view of an optional file.
pub open spec fn file_view(file: Option<FileDetails>) -> Option<FileDetailsView> {
    match file {
        Some(f) => Some(f@),
        None => None,
    }
}

impl View for PageItems {
    type V = PageItemsView;

    open spec fn view(&self) -> PageItemsView {
        PageItemsView {
            text: text_view(self.text),
            file: file_view(self.file),
            x: self.x,
            y: self.y,
            width: self.width,
            height: self.height,
            movable: self.movable,
        }
    }
}

impl Clone for PageItems {
    fn clone(&self) -> (r: Self)
        ensures
            r@ == self@,
    {
        let text = match &self.text {
            Some(t) => Some(t.clone()),
            None => None,
        };
        let file = match &self.file {
            Some(f) => Some(f.clone()),
            None => None,
        };
        PageItems {
            text,
            file,
            x: self.x,
            y: self.y,
            width: self.width,
            height: self.height,
            movable: self.movable,
        }
    }
}

impl PageItemsView {
    /// The record of which nothing is given: no content, at the origin, no
    /// size, movable.
    pub open spec fn defaults() -> PageItemsView {
        PageItemsView { text: None, file: None, x: 0, y: 0, width: None, height: None, movable: true }
    }
}

/// Builds a `PageItems` field by field; what is not set keeps its default.
#[derive(Debug)]
pub struct PageItemsBuilder {
    item: PageItems,
}

impl View for PageItemsBuilder {
    type V = PageItemsView;

    closed spec fn view(&self) -> PageItemsView {
        self.item@
    }
}

impl Default for PageItemsBuilder {
    /// A builder with every field at its default.
    fn default() -> (b: Self)
        ensures
            b@ == PageItemsView::defaults(),
    {
        PageItemsBuilder {
            item: PageItems { text: None, file: None, x: 0, y: 0, width: None, height: None, movable: true },
        }
    }
}

impl PageItemsBuilder {
    pub fn text(self, value: Option<TextDetails>) -> (b: Self)
        ensures
            b@ == (PageItemsView { text: text_view(value), ..self@ }),
    {
        let mut item = self.item;
        item.text = value;
        PageItemsBuilder { item }
    }

    pub fn file(self, value: Option<FileDetails>) -> (b: Self)
        ensures
            b@ == (PageItemsView { file: file_view(value), ..self@ }),
    {
        let mut item = self.item;
        item.file = value;
        PageItemsBuilder { item }
    }

    pub fn x(self, value: i32) -> (b: Self)
        ensures
            b@ == (PageItemsView { x: value, ..self@ }),
    {
        let mut item = self.item;
        item.x = value;
        PageItemsBuilder { item }
    }

    pub fn y(self, value: i32) -> (b: Self)
        ensures
            b@ == (PageItemsView { y: value, ..self@ }),
    {
        let mut item = self.item;
        item.y = value;
        PageItemsBuilder { item }
    }

    pub fn width(self, value: Option<i32>) -> (b: Self)
        ensures
            b@ == (PageItemsView { width: value, ..self@ }),
    {
        let mut item = self.item;
        item.width = value;
        PageItemsBuilder { item }
    }

    pub fn height(self, value: Option<i32>) -> (b: Self)
        ensures
            b@ == (PageItemsView { height: value, ..self@ }),
    {
        let mut item = self.item;
        item.height = value;
        PageItemsBuilder { item }
    }

    pub fn movable(self, value: bool) -> (b: Self)
        ensures
            b@ == (PageItemsView { movable: value, ..self@ }),
    {
        let mut item = self.item;
        item.movable = value;
        PageItemsBuilder { item }
    }

    /// The record as built so far.
    pub fn build(self) -> (item: PageItems)
        ensures
            item@ == self@,
    {
        self.item
    }
}

} // verus!
