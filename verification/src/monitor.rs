//! The single display of an OpenHarmony device and its video mode.

use vstd::prelude::*;

use crate::geometry::{PhysicalPosition, PhysicalSize, Rect};

verus! {

/// The bit depth reported for every video mode (RGBA, 8 bits each).
pub const VIDEO_MODE_BIT_DEPTH: u16 = 32;

/// The display, as read from the platform when asked: the display manager's
/// size in physical pixels (`0` when the query failed), the main window's
/// content rectangle and the refresh rate.
#[derive(Clone, Copy, Debug, PartialEq, Eq, Structural)]
pub struct MonitorHandle {
    pub display_width: u32,
    pub display_height: u32,
    pub content_rect: Rect,
    pub refresh_rate: u16,
}

/// A video mode of the display.
#[derive(Clone, Copy, Debug, PartialEq, Eq, Hash)]
pub struct VideoMode {
    pub size: (u32, u32),
    pub bit_depth: u16,
    pub refresh_rate: u16,
}

impl MonitorHandle {
    /// The size of the display: the display manager's, else (when it
    /// reported a zero side) the content rectangle's.
    pub open spec fn spec_size(self) -> PhysicalSize {
        if self.display_width > 0 && self.display_height > 0 {
            PhysicalSize { width: self.display_width, height: self.display_height }
        } else {
            PhysicalSize { width: self.content_rect.width as u32, height: self.content_rect.height as u32 }
        }
    }

    /// The display's name.
    pub fn name(&self) -> (n: Option<String>)
        ensures
            n matches Some(s) && s@ == "OpenHarmony Device"@,
    {
        Some("OpenHarmony Device".to_owned())
    }

    /// The display's size in physical pixels.
    pub fn size(&self) -> (s: PhysicalSize)
        ensures
            s == self.spec_size(),
    {
        if self.display_width > 0 && self.display_height > 0 {
            PhysicalSize { width: self.display_width, height: self.display_height }
        } else {
            PhysicalSize { width: self.content_rect.width as u32, height: self.content_rect.height as u32 }
        }
    }

    /// The display's position: the origin.
    pub fn position(&self) -> (p: PhysicalPosition)
        ensures
            p == (PhysicalPosition { x: 0, y: 0 }),
    {
        PhysicalPosition { x: 0, y: 0 }
    }

    /// The display's one video mode: its size, 32 bits and its refresh rate.
    pub fn video_modes(&self) -> (v: Vec<VideoMode>)
        ensures
            v@ == seq![
                VideoMode {
                    size: (self.spec_size().width, self.spec_size().height),
                    bit_depth: VIDEO_MODE_BIT_DEPTH,
                    refresh_rate: self.refresh_rate,
                },
            ],
    {
        let s = self.size();
        let mut v: Vec<VideoMode> = Vec::new();
        v.push(VideoMode { size: (s.width, s.height), bit_depth: VIDEO_MODE_BIT_DEPTH, refresh_rate: self.refresh_rate });
        proof {
            assert(v@ =~= seq![
                VideoMode {
                    size: (self.spec_size().width, self.spec_size().height),
                    bit_depth: VIDEO_MODE_BIT_DEPTH,
                    refresh_rate: self.refresh_rate,
                },
            ]);
        }
        v
    }
}

impl VideoMode {
    /// The mode's size.
    pub fn size(&self) -> (s: PhysicalSize)
        ensures
            s == (PhysicalSize { width: self.size.0, height: self.size.1 }),
    {
        PhysicalSize { width: self.size.0, height: self.size.1 }
    }

    /// The mode's bit depth.
    pub fn bit_depth(&self) -> (b: u16)
        ensures
            b == self.bit_depth,
    {
        self.bit_depth
    }

    /// The mode's refresh rate.
    pub fn refresh_rate(&self) -> (r: u16)
        ensures
            r == self.refresh_rate,
    {
        self.refresh_rate
    }
}

/// The encoding of `+inf` as a double.
pub const F64_INFINITY: u64 = 0x7FF0_0000_0000_0000;

/// The encoding of `-0.0` as a double.
pub const F64_NEG_ZERO: u64 = 0x8000_0000_0000_0000;

/// Whether a double's encoding compares greater than `0.0`: a positive
/// encoding up to `+inf` (NaNs compare false).
pub open spec fn f64_gt_zero(b: u64) -> bool {
    0 < b && b <= F64_INFINITY
}

/// Whether a double's encoding compares greater than or equal to `0.0`:
/// `-0.0`, or a non-negative encoding up to `+inf`.
pub open spec fn f64_ge_zero(b: u64) -> bool {
    b <= F64_INFINITY || b == F64_NEG_ZERO
}

/// The encoding of a double that compares `>= 0.0`, with `-0.0` taken as
/// `+0.0`; for such values and a positive bound, `x < bound` holds exactly
/// when this encoding is below the bound's.
pub open spec fn f64_magnitude(b: u64) -> u64 {
    if b == F64_NEG_ZERO {
        0
    } else {
        b
    }
}

/// Whether a point (doubles, encoded) lies on a display of the given size
/// (the size converted to doubles, encoded): the display has a positive
/// size, and the point is in `[0, width) x [0, height)`.
pub open spec fn on_display(x: u64, y: u64, width: u64, height: u64) -> bool {
    &&& f64_gt_zero(width)
    &&& f64_gt_zero(height)
    &&& f64_ge_zero(x)
    &&& f64_ge_zero(y)
    &&& f64_magnitude(x) < width
    &&& f64_magnitude(y) < height
}

/// Whether a point lies on the display (all four values are encoded
/// doubles). The device has one display, so a point on it selects it and a
/// point elsewhere selects none.
pub fn point_on_display(x: u64, y: u64, width: u64, height: u64) -> (r: bool)
    ensures
        r == on_display(x, y, width, height),
{
    let mx = if x == F64_NEG_ZERO {
        0
    } else {
        x
    };
    let my = if y == F64_NEG_ZERO {
        0
    } else {
        y
    };
    0 < width && width <= F64_INFINITY && 0 < height && height <= F64_INFINITY && (x <= F64_INFINITY
        || x == F64_NEG_ZERO) && (y <= F64_INFINITY || y == F64_NEG_ZERO) && mx < width && my < height
}

} // verus!
