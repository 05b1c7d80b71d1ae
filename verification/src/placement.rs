//! From a placement record to what stands on the canvas: the size that an
//! item starts with, its transform controller if it is movable, its fixed
//! rectangle if it is not.

use vstd::prelude::*;
use vstd::string::StringExecFns;
use crate::codec::base64_encoded;
use crate::codec::encode_base64;
use crate::controller::RenderedItem;
use crate::controller::TransformController;
use crate::file_details::FileDetails;
use crate::geometry::ItemGeometry;
use crate::geometry::DEFAULT_EXTENT;
use crate::geometry::RESTING_Z_INDEX;
use crate::page_items::PageItems;

verus! {

/// Width and height of a static text for which the record gives none.
pub const STATIC_TEXT_EXTENT: i32 = 100;

/// What a movable item is created with. Each value may be left out.
#[derive(Clone, Copy, Debug, PartialEq, Eq, Structural)]
pub struct MouseMoveProps {
    pub width: Option<i32>,
    pub height: Option<i32>,
    pub start_x: Option<i32>,
    pub start_y: Option<i32>,
}

/// What a record shows.
#[derive(Clone, Copy, Debug, PartialEq, Eq, Structural)]
pub enum ItemKind {
    Image,
    Text,
    /// Neither a file nor a text: nothing is rendered.
    Empty,
}

/// What a record becomes on the canvas.
#[derive(Clone, Copy, Debug, PartialEq, Eq, Structural)]
pub enum Placed {
    /// An item that the user moves and resizes.
    Movable(TransformController),
    /// An item rendered in place, without interaction.
    Static(RenderedItem),
    /// Nothing.
    Absent,
}

/// The value of an option, or a default where there is none.
pub open spec fn value_or(value: Option<i32>, default: i32) -> i32 {
    match value {
        Some(v) => v,
        None => default,
    }
}

/// A caller supplies an extent by giving one other than zero.
pub open spec fn supplied(extent: Option<i32>) -> bool {
    extent is Some && extent->0 != 0
}

/// An extent scaled by the ratio of two positive extents and rounded toward zero.
pub open spec fn scaled(extent: int, numerator: int, denominator: int) -> int
    recommends
        numerator > 0,
        denominator > 0,
{
    if extent >= 0 {
        (extent * numerator) / denominator
    } else {
        -((-extent * numerator) / denominator)
    }
}

/// The size that an image item starts with. With neither extent supplied it
/// is the image's natural size. With one supplied, the other keeps the
/// natural ratio of the image; an image whose natural size has no ratio, one
/// extent being zero or less, gets the default extent there. With both
/// supplied it is what was supplied.
pub open spec fn image_item_size(width: Option<i32>, height: Option<i32>, natural_width: i32, natural_height: i32) -> (
    int,
    int,
) {
    let has_ratio = natural_width > 0 && natural_height > 0;
    if !supplied(width) && !supplied(height) {
        (natural_width as int, natural_height as int)
    } else if !supplied(width) {
        (
            if has_ratio {
                scaled(height->0 as int, natural_width as int, natural_height as int)
            } else {
                DEFAULT_EXTENT as int
            },
            height->0 as int,
        )
    } else if !supplied(height) {
        (
            width->0 as int,
            if has_ratio {
                scaled(width->0 as int, natural_height as int, natural_width as int)
            } else {
                DEFAULT_EXTENT as int
            },
        )
    } else {
        (width->0 as int, height->0 as int)
    }
}

/// The geometry that a movable item starts with: the given size, or the
/// default extent where none is given, at the given position, or at the origin.
pub open spec fn initial_geometry(props: MouseMoveProps, aspect_locked: bool, content_ref: usize) -> ItemGeometry {
    ItemGeometry {
        x: value_or(props.start_x, 0) as i128,
        y: value_or(props.start_y, 0) as i128,
        width: value_or(props.width, DEFAULT_EXTENT) as i128,
        height: value_or(props.height, DEFAULT_EXTENT) as i128,
        z_index: RESTING_Z_INDEX,
        hidden: false,
        aspect_locked,
        content_ref,
    }
}

/// What a record shows: its file if it has one, else its text.
pub open spec fn kind_of(item: PageItems) -> ItemKind {
    if item.file is Some {
        ItemKind::Image
    } else if item.text is Some {
        ItemKind::Text
    } else {
        ItemKind::Empty
    }
}

/// The geometry that a record's item starts with. An image takes its size
/// from `image_item_size` and keeps its ratio when resized; a text takes the
/// record's size, or the default extent, and resizes freely.
pub open spec fn item_geometry(item: PageItems, content_ref: usize) -> ItemGeometry
    recommends
        kind_of(item) != ItemKind::Empty,
{
    if item.file is Some {
        let size = image_item_size(item.width, item.height, item.file->0.width, item.file->0.height);
        ItemGeometry {
            x: item.x as i128,
            y: item.y as i128,
            width: size.0 as i128,
            height: size.1 as i128,
            z_index: RESTING_Z_INDEX,
            hidden: false,
            aspect_locked: true,
            content_ref,
        }
    } else {
        initial_geometry(
            MouseMoveProps { width: item.width, height: item.height, start_x: Some(item.x), start_y: Some(item.y) },
            false,
            content_ref,
        )
    }
}

/// The rectangle of a record that is rendered in place: the record's
/// position and size, 100 by 100 where it gives no size.
pub open spec fn static_rectangle(item: PageItems) -> RenderedItem {
    RenderedItem {
        left: item.x as i128,
        top: item.y as i128,
        width: value_or(item.width, STATIC_TEXT_EXTENT) as i128,
        height: value_or(item.height, STATIC_TEXT_EXTENT) as i128,
        z_index: RESTING_Z_INDEX,
    }
}

/// The address under which the host document shows an image's data.
pub open spec fn data_url(file_type: Seq<char>, data: Seq<u8>) -> Seq<char> {
    "data:"@ + file_type + ";base64,"@ + base64_encoded(data)
}

fn scale(extent: i32, numerator: i32, denominator: i32) -> (r: i128)
    requires
        numerator > 0,
        denominator > 0,
    ensures
        r == scaled(extent as int, numerator as int, denominator as int),
{
    let e: i128 = extent as i128;
    let n: i128 = numerator as i128;
    let d: i128 = denominator as i128;
    if e >= 0 {
        assert(0 <= e * n <= 0x8000_0000 * 0x8000_0000) by (nonlinear_arith)
            requires
                0 <= e <= 0x7fff_ffff,
                0 < n <= 0x7fff_ffff,
        ;
        (e * n) / d
    } else {
        assert(0 <= (-e) * n <= 0x8000_0000 * 0x8000_0000) by (nonlinear_arith)
            requires
                0 < -e <= 0x8000_0000,
                0 < n <= 0x7fff_ffff,
        ;
        let q: i128 = ((-e) * n) / d;
        assert(0 <= q <= (-e) * n) by {
            vstd::arithmetic::div_mod::lemma_div_pos_is_pos((-e) * n, d as int);
            vstd::arithmetic::div_mod::lemma_div_is_ordered_by_denominator((-e) * n, 1, d as int);
        }
        -q
    }
}

fn extent_or(value: Option<i32>, default: i32) -> (r: i32)
    ensures
        r == value_or(value, default),
{
    match value {
        Some(v) => v,
        None => default,
    }
}

fn is_supplied(extent: Option<i32>) -> (r: bool)
    ensures
        r == supplied(extent),
{
    match extent {
        Some(v) => v != 0,
        None => false,
    }
}

/// The size that an image item starts with, width first.
pub fn image_size_for(width: Option<i32>, height: Option<i32>, natural_width: i32, natural_height: i32) -> (r: (
    i128,
    i128,
))
    ensures
        r.0 == image_item_size(width, height, natural_width, natural_height).0,
        r.1 == image_item_size(width, height, natural_width, natural_height).1,
{
    let has_ratio = natural_width > 0 && natural_height > 0;
    let w: i32 = extent_or(width, 0);
    let h: i32 = extent_or(height, 0);
    if !is_supplied(width) && !is_supplied(height) {
        (natural_width as i128, natural_height as i128)
    } else if !is_supplied(width) {
        if has_ratio {
            (scale(h, natural_width, natural_height), h as i128)
        } else {
            (DEFAULT_EXTENT as i128, h as i128)
        }
    } else if !is_supplied(height) {
        if has_ratio {
            (w as i128, scale(w, natural_height, natural_width))
        } else {
            (w as i128, DEFAULT_EXTENT as i128)
        }
    } else {
        (w as i128, h as i128)
    }
}

/// What a record shows.
pub fn item_kind(item: &PageItems) -> (k: ItemKind)
    ensures
        k == kind_of(*item),
{
    if item.file.is_some() {
        ItemKind::Image
    } else if item.text.is_some() {
        ItemKind::Text
    } else {
        ItemKind::Empty
    }
}

impl TransformController {
    /// The controller of a movable item created with `props`, at rest.
    pub fn from_props(props: MouseMoveProps, aspect_locked: bool, content_ref: usize) -> (c: TransformController)
        ensures
            c == Self::at_start(initial_geometry(props, aspect_locked, content_ref)),
            c.wf(),
    {
        TransformController::new(
            ItemGeometry::new(
                extent_or(props.start_x, 0) as i128,
                extent_or(props.start_y, 0) as i128,
                extent_or(props.width, DEFAULT_EXTENT) as i128,
                extent_or(props.height, DEFAULT_EXTENT) as i128,
                aspect_locked,
                content_ref,
            ),
        )
    }
}

/// Places a record on the canvas. A movable record with content gets a
/// controller at rest with the geometry of `item_geometry`; one that is not
/// movable is rendered in place; one without content is not rendered at all.
pub fn place(item: &PageItems, content_ref: usize) -> (p: Placed)
    ensures
        kind_of(*item) == ItemKind::Empty ==> p == Placed::Absent,
        kind_of(*item) != ItemKind::Empty && !item.movable ==> p == Placed::Static(static_rectangle(*item)),
        kind_of(*item) != ItemKind::Empty && item.movable ==> p == Placed::Movable(
            TransformController::at_start(item_geometry(*item, content_ref)),
        ),
{
    match item_kind(item) {
        ItemKind::Empty => Placed::Absent,
        _ => {
            if !item.movable {
                Placed::Static(
                    RenderedItem {
                        left: item.x as i128,
                        top: item.y as i128,
                        width: extent_or(item.width, STATIC_TEXT_EXTENT) as i128,
                        height: extent_or(item.height, STATIC_TEXT_EXTENT) as i128,
                        z_index: RESTING_Z_INDEX,
                    },
                )
            } else {
                match &item.file {
                    Some(file) => {
                        let (width, height) = image_size_for(item.width, item.height, file.width, file.height);
                        Placed::Movable(
                            TransformController::new(
                                ItemGeometry::new(item.x as i128, item.y as i128, width, height, true, content_ref),
                            ),
                        )
                    },
                    None => Placed::Movable(
                        TransformController::from_props(
                            MouseMoveProps {
                                width: item.width,
                                height: item.height,
                                start_x: Some(item.x),
                                start_y: Some(item.y),
                            },
                            false,
                            content_ref,
                        ),
                    ),
                }
            }
        },
    }
}

/// The address of an image of the given type whose data is already encoded.
pub fn data_url_of(file_type: &str, encoded: &str) -> (url: String)
    ensures
        url@ == "data:"@ + file_type@ + ";base64,"@ + encoded@,
{
    "data:".to_owned().concat(file_type).concat(";base64,").concat(encoded)
}

/// The address under which the host document shows the image: its type and
/// its data in base64. Data too long for its encoding to have a length is
/// left out.
pub fn image_data_url(file: &FileDetails) -> (url: String)
    requires
        (file.data@.len() / 3 + 1) * 4 <= usize::MAX,
    ensures
        url@ == data_url(file.file_type@, file.data@),
{
    let encoded = encode_base64(file.data.as_slice());
    data_url_of(file.file_type.as_str(), encoded.as_str())
}

} // verus!
