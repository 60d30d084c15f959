//! Window rectangles, frame margins, and the non-client region codes.
use vstd::prelude::*;

verus! {

/// Title bar height in physical pixels; matches the content layer's drag bar.
pub const TITLEBAR_HEIGHT: i32 = 32;

/// Resize border thickness in physical pixels; matches the content layer's
/// invisible resize handles.
pub const RESIZE_BORDER: i32 = 8;

/// Hit-test reply: plain client area.
pub const HTCLIENT: isize = 1;
/// Hit-test reply: caption (drag region).
pub const HTCAPTION: isize = 2;
/// Hit-test reply: left edge.
pub const HTLEFT: isize = 10;
/// Hit-test reply: right edge.
pub const HTRIGHT: isize = 11;
/// Hit-test reply: top edge.
pub const HTTOP: isize = 12;
/// Hit-test reply: top-left corner.
pub const HTTOPLEFT: isize = 13;
/// Hit-test reply: top-right corner.
pub const HTTOPRIGHT: isize = 14;
/// Hit-test reply: bottom edge.
pub const HTBOTTOM: isize = 15;
/// Hit-test reply: bottom-left corner.
pub const HTBOTTOMLEFT: isize = 16;
/// Hit-test reply: bottom-right corner.
pub const HTBOTTOMRIGHT: isize = 17;

/// A window rectangle in screen coordinates.
#[allow(non_camel_case_types)]
#[derive(Clone, Copy, Debug, PartialEq, Eq, Structural)]
pub struct RECT {
    pub left: i32,
    pub top: i32,
    pub right: i32,
    pub bottom: i32,
}

/// Margins by which the compositor frame is extended into the client area.
#[allow(non_camel_case_types)]
#[derive(Clone, Copy, Debug, PartialEq, Eq, Structural)]
pub struct MARGINS {
    pub cx_left_width: i32,
    pub cx_right_width: i32,
    pub cy_top_height: i32,
    pub cy_bottom_height: i32,
}

/// One of the eight directions in which a window can be resized.
#[derive(Clone, Copy, Debug, PartialEq, Eq, Structural)]
pub enum ResizeDirection {
    Top,
    Bottom,
    Left,
    Right,
    TopLeft,
    TopRight,
    BottomLeft,
    BottomRight,
}

/// The classification of a point of the window for the non-client protocol.
#[derive(Clone, Copy, Debug, PartialEq, Eq, Structural)]
pub enum HitRegion {
    Client,
    Caption,
    Resize(ResizeDirection),
}

impl ResizeDirection {
    pub open spec fn spec_code(self) -> isize {
        match self {
            ResizeDirection::Top => HTTOP,
            ResizeDirection::Bottom => HTBOTTOM,
            ResizeDirection::Left => HTLEFT,
            ResizeDirection::Right => HTRIGHT,
            ResizeDirection::TopLeft => HTTOPLEFT,
            ResizeDirection::TopRight => HTTOPRIGHT,
            ResizeDirection::BottomLeft => HTBOTTOMLEFT,
            ResizeDirection::BottomRight => HTBOTTOMRIGHT,
        }
    }

    /// The hit-test code that names this direction.
    #[verifier::when_used_as_spec(spec_code)]
    pub fn code(self) -> (r: isize)
        ensures
            r == self.spec_code(),
    {
        match self {
            ResizeDirection::Top => HTTOP,
            ResizeDirection::Bottom => HTBOTTOM,
            ResizeDirection::Left => HTLEFT,
            ResizeDirection::Right => HTRIGHT,
            ResizeDirection::TopLeft => HTTOPLEFT,
            ResizeDirection::TopRight => HTTOPRIGHT,
            ResizeDirection::BottomLeft => HTBOTTOMLEFT,
            ResizeDirection::BottomRight => HTBOTTOMRIGHT,
        }
    }
}

impl HitRegion {
    pub open spec fn spec_code(self) -> isize {
        match self {
            HitRegion::Client => HTCLIENT,
            HitRegion::Caption => HTCAPTION,
            HitRegion::Resize(d) => d.spec_code(),
        }
    }

    /// The value replied to a non-client hit-test query for this region.
    #[verifier::when_used_as_spec(spec_code)]
    pub fn code(self) -> (r: isize)
        ensures
            r == self.spec_code(),
    {
        match self {
            HitRegion::Client => HTCLIENT,
            HitRegion::Caption => HTCAPTION,
            HitRegion::Resize(d) => d.code(),
        }
    }
}

/// The compositor margins that extend the frame over the whole client
/// rectangle: every side is the "whole window" sentinel.
pub fn frame_margins() -> (m: MARGINS)
    ensures
        m.cx_left_width == -1,
        m.cx_right_width == -1,
        m.cy_top_height == -1,
        m.cy_bottom_height == -1,
{
    MARGINS { cx_left_width: -1, cx_right_width: -1, cy_top_height: -1, cy_bottom_height: -1 }
}

} // verus!
