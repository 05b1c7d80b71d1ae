//! A freeform canvas editor's core: the direct-manipulation controller that
//! turns pointer and keyboard events into an item's position, size, stacking
//! order, focus and visibility, together with the item records it is fed from.

pub mod direction;
pub mod geometry;
pub mod controller;
pub mod gestures;
pub mod file_details;
pub mod page_items;
pub mod text_details;
pub mod codec;
pub mod decimal;
pub mod settings;
pub mod placement;
pub mod app;
pub mod canvas;
pub mod js_funcs;
pub mod text_box;
pub mod handles;
