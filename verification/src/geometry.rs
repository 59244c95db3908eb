//! Physical sizes, positions and rectangles, in device pixels.

use vstd::prelude::*;

verus! {

/// A rectangle as the platform reports it: position and size in pixels.
#[derive(Clone, Copy, Debug, PartialEq, Eq, Default, Structural)]
pub struct Rect {
    pub top: i32,
    pub left: i32,
    pub width: i32,
    pub height: i32,
}

/// A size in physical pixels.
#[derive(Clone, Copy, Debug, PartialEq, Eq, Default, Structural)]
pub struct PhysicalSize {
    pub width: u32,
    pub height: u32,
}

/// A position in physical pixels.
#[derive(Clone, Copy, Debug, PartialEq, Eq, Default, Structural)]
pub struct PhysicalPosition {
    pub x: i32,
    pub y: i32,
}

} // verus!
