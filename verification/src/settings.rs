//! The item list and the canvas size as the query of the page gives them.
//!
//! The query holds one list of values for each option. An item's kind,
//! position, size and `movable` flag stand at the item's own index; what only
//! text items have, and the shared `value` list, is indexed for a text item by
//! the number of text items before it, and what only images have, again with
//! `value`, by the number of images before it.

use vstd::prelude::*;
use crate::decimal::decimal_i32;
use crate::decimal::decimal_u16;
use crate::codec::decode_or_empty;
use crate::codec::decoded_or_empty;
use crate::codec::image_size;
use crate::decimal::parse_bool;
use crate::decimal::parse_i32;
use crate::decimal::parse_u16;
use crate::codec::probe_blob;
use crate::decimal::written_bool;
use crate::file_details::FileDetails;
use crate::file_details::FileDetailsView;
use crate::page_items::PageItems;
use crate::page_items::PageItemsView;
use crate::text_details::TextDetails;
use crate::text_details::TextDetailsView;

verus! {

/// Width and height that the configuration asks of the canvas, if any.
#[derive(Clone, Copy, Debug, PartialEq, Eq, Structural)]
pub struct CanvasSettings {
    pub width: Option<i32>,
    pub height: Option<i32>,
}

impl Default for CanvasSettings {
    /// Settings that ask for nothing.
    fn default() -> (s: Self)
        ensures
            s == (CanvasSettings { width: None, height: None }),
    {
        CanvasSettings { width: None, height: None }
    }
}

/// The values of the query, one list for each option.
#[derive(Debug)]
pub struct QueryParams {
    /// `type`: `text` or `image`; one entry for each item.
    pub types: Vec<String>,
    /// `value`: the text of a text item, the base64 data of an image.
    pub values: Vec<String>,
    pub x: Vec<String>,
    pub y: Vec<String>,
    pub width: Vec<String>,
    pub height: Vec<String>,
    pub movable: Vec<String>,
    pub editable: Vec<String>,
    pub font_size: Vec<String>,
    pub font_family: Vec<String>,
    pub font_color: Vec<String>,
    pub background_color: Vec<String>,
    pub name: Vec<String>,
}

/// The value of an option, or a default where there is none.
pub open spec fn or_default<T>(value: Option<T>, default: T) -> T {
    match value {
        Some(v) => v,
        None => default,
    }
}

/// The text at an index of a list, if the list is that long.
pub open spec fn text_param(values: Seq<String>, i: int) -> Option<Seq<char>> {
    if 0 <= i < values.len() {
        Some(values[i]@)
    } else {
        None
    }
}

/// The 32-bit integer at an index of a list, if there is one and it reads as such.
pub open spec fn i32_param(values: Seq<String>, i: int) -> Option<i32> {
    if 0 <= i < values.len() {
        decimal_i32(values[i]@)
    } else {
        None
    }
}

/// The 16-bit integer at an index of a list, if there is one and it reads as such.
pub open spec fn u16_param(values: Seq<String>, i: int) -> Option<u16> {
    if 0 <= i < values.len() {
        decimal_u16(values[i]@)
    } else {
        None
    }
}

/// The flag at an index of a list, if there is one and it reads as such.
pub open spec fn bool_param(values: Seq<String>, i: int) -> Option<bool> {
    if 0 <= i < values.len() {
        written_bool(values[i]@)
    } else {
        None
    }
}

/// How many of the first `i` kinds are the given one.
pub open spec fn count_before(types: Seq<String>, kind: Seq<char>, i: int) -> int
    decreases i,
{
    if i <= 0 {
        0
    } else {
        count_before(types, kind, i - 1) + if types[i - 1]@ == kind {
            1int
        } else {
            0int
        }
    }
}

impl QueryParams {
    /// The details of the text item that `k` text items precede. What the
    /// query leaves out or what does not read takes the default of a text
    /// item, but for `editable`, which is off unless the query turns it on.
    pub open spec fn text_at(self, k: int) -> TextDetailsView {
        let d = TextDetailsView::defaults();
        TextDetailsView {
            text: or_default(text_param(self.values@, k), d.text),
            font_size: or_default(u16_param(self.font_size@, k), d.font_size),
            font_family: or_default(text_param(self.font_family@, k), d.font_family),
            font_color: or_default(text_param(self.font_color@, k), d.font_color),
            background_color: or_default(text_param(self.background_color@, k), d.background_color),
            editable: or_default(bool_param(self.editable@, k), false),
        }
    }

    /// The file of the image that `k` images precede: its data is the decoded
    /// value, and its size is read from the data.
    pub open spec fn file_at(self, k: int) -> FileDetailsView {
        let data = decoded_or_empty(or_default(text_param(self.values@, k), Seq::empty()));
        FileDetailsView {
            name: or_default(text_param(self.name@, k), Seq::empty()),
            file_type: "image/png"@,
            data,
            width: image_size(data).0,
            height: image_size(data).1,
        }
    }

    /// The item at index `i` of the query. An item of another kind than
    /// `text` and `image` has no content.
    pub open spec fn item_at(self, i: int) -> PageItemsView {
        let kind = self.types@[i]@;
        PageItemsView {
            text: if kind == "text"@ {
                Some(self.text_at(count_before(self.types@, "text"@, i)))
            } else {
                None
            },
            file: if kind == "image"@ {
                Some(self.file_at(count_before(self.types@, "image"@, i)))
            } else {
                None
            },
            x: or_default(i32_param(self.x@, i), 0),
            y: or_default(i32_param(self.y@, i), 0),
            width: i32_param(self.width@, i),
            height: i32_param(self.height@, i),
            movable: or_default(bool_param(self.movable@, i), false),
        }
    }
}

fn text_of(values: &Vec<String>, i: usize) -> (r: Option<String>)
    ensures
        match r {
            Some(s) => text_param(values@, i as int) == Some(s@),
            None => text_param(values@, i as int) is None,
        },
{
    if i < values.len() {
        Some(values[i].clone())
    } else {
        None
    }
}

fn i32_of(values: &Vec<String>, i: usize) -> (r: Option<i32>)
    ensures
        r == i32_param(values@, i as int),
{
    if i < values.len() {
        parse_i32(values[i].as_str())
    } else {
        None
    }
}

fn u16_of(values: &Vec<String>, i: usize) -> (r: Option<u16>)
    ensures
        r == u16_param(values@, i as int),
{
    if i < values.len() {
        parse_u16(values[i].as_str())
    } else {
        None
    }
}

fn bool_of(values: &Vec<String>, i: usize) -> (r: Option<bool>)
    ensures
        r == bool_param(values@, i as int),
{
    if i < values.len() {
        parse_bool(values[i].as_str())
    } else {
        None
    }
}

fn text_or(value: Option<String>, default: &str) -> (r: String)
    ensures
        r@ == or_default(
            match value {
                Some(s) => Some(s@),
                None => None,
            },
            default@,
        ),
{
    match value {
        Some(s) => s,
        None => default.to_owned(),
    }
}

fn text_item(params: &QueryParams, k: usize) -> (text: TextDetails)
    ensures
        text@ == params.text_at(k as int),
{
    let font_size = match u16_of(&params.font_size, k) {
        Some(v) => v,
        None => 8,
    };
    let editable = match bool_of(&params.editable, k) {
        Some(v) => v,
        None => false,
    };
    let empty = String::new();
    TextDetails {
        text: text_or(text_of(&params.values, k), empty.as_str()),
        font_size,
        font_family: text_or(text_of(&params.font_family, k), "Arial"),
        font_color: text_or(text_of(&params.font_color, k), "black"),
        background_color: text_or(text_of(&params.background_color, k), "white"),
        editable,
    }
}

fn image_item(params: &QueryParams, k: usize) -> (file: FileDetails)
    ensures
        file@ == params.file_at(k as int),
{
    let empty = String::new();
    let value = text_or(text_of(&params.values, k), empty.as_str());
    let name = text_or(text_of(&params.name, k), empty.as_str());
    let data = decode_or_empty(value.as_str());
    let probe = probe_blob(data.as_slice());
    FileDetails::probed(name, "image/png".to_owned(), data, probe)
}

/// The items that the query describes, in its order: as many as it names
/// kinds, each as `item_at` says.
pub fn parse_query(params: &QueryParams) -> (items: Vec<PageItems>)
    ensures
        items.len() == params.types.len(),
        forall|i: int| 0 <= i < items.len() ==> (#[trigger] items[i])@ == params.item_at(i),
{
    let mut items: Vec<PageItems> = Vec::new();
    let mut i: usize = 0;
    let mut text_i: usize = 0;
    let mut image_i: usize = 0;
    let text_kind = "text".to_owned();
    let image_kind = "image".to_owned();
    while i < params.types.len()
        invariant
            i <= params.types.len(),
            items.len() == i,
            text_kind@ == "text"@,
            image_kind@ == "image"@,
            text_i == count_before(params.types@, "text"@, i as int),
            image_i == count_before(params.types@, "image"@, i as int),
            text_i <= i,
            image_i <= i,
            forall|j: int| 0 <= j < i ==> (#[trigger] items[j])@ == params.item_at(j),
        decreases params.types.len() - i,
    {
        let x = match i32_of(&params.x, i) {
            Some(v) => v,
            None => 0,
        };
        let y = match i32_of(&params.y, i) {
            Some(v) => v,
            None => 0,
        };
        let width = i32_of(&params.width, i);
        let height = i32_of(&params.height, i);
        let movable = match bool_of(&params.movable, i) {
            Some(v) => v,
            None => false,
        };
        let mut text: Option<TextDetails> = None;
        let mut file: Option<FileDetails> = None;
        proof {
            reveal_strlit("text");
            reveal_strlit("image");
            assert("text"@.len() != "image"@.len());
        }
        if params.types[i] == text_kind {
            text = Some(text_item(params, text_i));
            text_i += 1;
        } else if params.types[i] == image_kind {
            file = Some(image_item(params, image_i));
            image_i += 1;
        }
        let item = PageItems { text, file, x, y, width, height, movable };
        assert(item@ == params.item_at(i as int));
        items.push(item);
        i += 1;
    }
    items
}

/// The canvas size that the query asks for: the first value of each of the
/// two options, where there is one and it reads as a 32-bit integer.
pub fn parse_settings_query(width_values: &Vec<String>, height_values: &Vec<String>) -> (settings: CanvasSettings)
    ensures
        settings.width == i32_param(width_values@, 0),
        settings.height == i32_param(height_values@, 0),
{
    CanvasSettings { width: i32_of(width_values, 0), height: i32_of(height_values, 0) }
}

} // verus!
