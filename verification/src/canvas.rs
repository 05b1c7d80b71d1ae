//! The canvas surface: the clipping viewport that hosts the items and sets
//! the origin of their coordinates. It takes no part in any gesture.

use vstd::prelude::*;
use crate::settings::CanvasSettings;

verus! {

/// Width and height of a canvas for which the configuration gives none.
pub const DEFAULT_CANVAS_EXTENT: i32 = 800;

/// What a canvas is created with.
#[derive(Clone, Copy, Debug, PartialEq, Eq, Structural)]
pub struct CanvasProps {
    pub width: Option<i32>,
    pub height: Option<i32>,
}

/// The size of the canvas. What lies outside it is clipped.
#[derive(Clone, Copy, Debug, PartialEq, Eq, Structural)]
pub struct CanvasSurface {
    pub width: i32,
    pub height: i32,
}

impl CanvasProps {
    /// The properties that the settings ask for.
    pub fn from_settings(settings: CanvasSettings) -> (props: CanvasProps)
        ensures
            props == (CanvasProps { width: settings.width, height: settings.height }),
    {
        CanvasProps { width: settings.width, height: settings.height }
    }
}

impl CanvasSurface {
    /// The surface of the given properties: 800 wide and 800 high where they
    /// say nothing.
    pub open spec fn of(props: CanvasProps) -> CanvasSurface {
        CanvasSurface {
            width: match props.width {
                Some(w) => w,
                None => DEFAULT_CANVAS_EXTENT,
            },
            height: match props.height {
                Some(h) => h,
                None => DEFAULT_CANVAS_EXTENT,
            },
        }
    }

    /// The surface of the given properties.
    pub fn new(props: CanvasProps) -> (surface: CanvasSurface)
        ensures
            surface == Self::of(props),
    {
        CanvasSurface {
            width: match props.width {
                Some(w) => w,
                None => DEFAULT_CANVAS_EXTENT,
            },
            height: match props.height {
                Some(h) => h,
                None => DEFAULT_CANVAS_EXTENT,
            },
        }
    }
}

} // verus!
