//! Building records from the values that a script of the page hands in, with
//! a default for each value left out.

use vstd::prelude::*;
use crate::codec::image_size;
use crate::codec::probe_blob;
use crate::file_details::FileDetails;
use crate::file_details::FileDetailsView;
use crate::page_items::file_view;
use crate::page_items::text_view;
use crate::page_items::PageItems;
use crate::page_items::PageItemsBuilder;
use crate::page_items::PageItemsView;
use crate::text_details::TextDetails;
use crate::text_details::TextDetailsBuilder;
use crate::text_details::TextDetailsView;

verus! {

/// Why a record cannot be built: it must have a text or a file, and not both.
#[derive(Clone, Copy, Debug, PartialEq, Eq, Structural)]
pub enum BuildItemError {
    /// Neither a text nor a file was given.
    NoContent,
    /// A text and a file were given.
    TwoContents,
}

impl BuildItemError {
    /// The error in words.
    pub open spec fn spec_message(self) -> Seq<char> {
        match self {
            BuildItemError::NoContent => "Both text and file are None"@,
            BuildItemError::TwoContents => "Both text and file are defined"@,
        }
    }

    /// The error in words.
    pub fn message(&self) -> (m: String)
        ensures
            m@ == self.spec_message(),
    {
        match self {
            BuildItemError::NoContent => "Both text and file are None".to_owned(),
            BuildItemError::TwoContents => "Both text and file are defined".to_owned(),
        }
    }
}

/// The view of an optional string.
pub open spec fn string_view(s: Option<String>) -> Option<Seq<char>> {
    match s {
        Some(s) => Some(s@),
        None => None,
    }
}

/// The value of an option, or a default where there is none.
pub open spec fn given_or<T>(value: Option<T>, default: T) -> T {
    match value {
        Some(v) => v,
        None => default,
    }
}

/// The record that `js_build_item` builds of its arguments.
pub open spec fn built_item(
    text: Option<TextDetailsView>,
    file: Option<FileDetailsView>,
    x: Option<i32>,
    y: Option<i32>,
    width: Option<i32>,
    height: Option<i32>,
    movable: Option<bool>,
) -> PageItemsView {
    PageItemsView {
        text,
        file,
        x: given_or(x, 0),
        y: given_or(y, 0),
        width,
        height,
        movable: given_or(movable, true),
    }
}

/// The details that `js_build_text` builds of its arguments.
pub open spec fn built_text(
    text: Option<Seq<char>>,
    font_size: Option<u16>,
    font_family: Option<Seq<char>>,
    font_color: Option<Seq<char>>,
    background_color: Option<Seq<char>>,
    editable: Option<bool>,
) -> TextDetailsView {
    let d = TextDetailsView::defaults();
    TextDetailsView {
        text: given_or(text, d.text),
        font_size: given_or(font_size, d.font_size),
        font_family: given_or(font_family, d.font_family),
        font_color: given_or(font_color, d.font_color),
        background_color: given_or(background_color, d.background_color),
        editable: given_or(editable, d.editable),
    }
}

/// Builds a record with exactly one content. A position left out is the
/// origin, and a record is movable unless told otherwise.
pub fn js_build_item(
    text: Option<TextDetails>,
    file: Option<FileDetails>,
    x: Option<i32>,
    y: Option<i32>,
    width: Option<i32>,
    height: Option<i32>,
    movable: Option<bool>,
) -> (r: Result<PageItems, BuildItemError>)
    ensures
        text is None && file is None ==> r == Err::<PageItems, BuildItemError>(BuildItemError::NoContent),
        text is Some && file is Some ==> r == Err::<PageItems, BuildItemError>(BuildItemError::TwoContents),
        (text is Some) != (file is Some) ==> r is Ok && r->Ok_0@ == built_item(
            text_view(text),
            file_view(file),
            x,
            y,
            width,
            height,
            movable,
        ),
{
    if text.is_none() && file.is_none() {
        return Err(BuildItemError::NoContent);
    } else if text.is_some() && file.is_some() {
        return Err(BuildItemError::TwoContents);
    }
    let x = match x {
        Some(v) => v,
        None => 0,
    };
    let y = match y {
        Some(v) => v,
        None => 0,
    };
    let movable = match movable {
        Some(v) => v,
        None => true,
    };
    Ok(PageItemsBuilder::default().text(text).file(file).x(x).y(y).width(width).height(height).movable(movable).build())
}

/// Builds the details of a text; what is left out takes its default.
pub fn js_build_text(
    text: Option<String>,
    font_size: Option<u16>,
    font_family: Option<String>,
    font_color: Option<String>,
    background_color: Option<String>,
    editable: Option<bool>,
) -> (r: TextDetails)
    ensures
        r@ == built_text(
            string_view(text),
            font_size,
            string_view(font_family),
            string_view(font_color),
            string_view(background_color),
            editable,
        ),
{
    let mut builder = TextDetailsBuilder::default();
    match text {
        Some(v) => {
            builder = builder.text(v);
        },
        None => {},
    }
    match font_size {
        Some(v) => {
            builder = builder.font_size(v);
        },
        None => {},
    }
    match font_family {
        Some(v) => {
            builder = builder.font_family(v);
        },
        None => {},
    }
    match font_color {
        Some(v) => {
            builder = builder.font_color(v);
        },
        None => {},
    }
    match background_color {
        Some(v) => {
            builder = builder.background_color(v);
        },
        None => {},
    }
    match editable {
        Some(v) => {
            builder = builder.editable(v);
        },
        None => {},
    }
    builder.build()
}

/// Builds an image file of its name, type and data. The size is read from
/// the data; data that gives none gets 100 by 100.
pub fn js_build_file(name: String, file_type: String, data: Vec<u8>) -> (r: FileDetails)
    ensures
        r@ == (FileDetailsView {
            name: name@,
            file_type: file_type@,
            data: data@,
            width: image_size(data@).0,
            height: image_size(data@).1,
        }),
{
    let probe = probe_blob(data.as_slice());
    FileDetails::probed(name, file_type, data, probe)
}

} // verus!
