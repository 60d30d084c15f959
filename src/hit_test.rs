//! Classification of a screen point into a non-client region.
use vstd::prelude::*;
use crate::geometry::{HitRegion, ResizeDirection, RECT};

verus! {

/// Signed distance from the cursor to the left edge.
pub open spec fn dist_left(x: int, rect: RECT) -> int {
    x - rect.left
}

/// Signed distance from the cursor to the right edge.
pub open spec fn dist_right(x: int, rect: RECT) -> int {
    rect.right - x
}

/// Signed distance from the cursor to the top edge.
pub open spec fn dist_top(y: int, rect: RECT) -> int {
    y - rect.top
}

/// Signed distance from the cursor to the bottom edge.
pub open spec fn dist_bottom(y: int, rect: RECT) -> int {
    rect.bottom - y
}

/// The region of point `(x, y)`: corners first, then edges, then the
/// caption band, then client area. Boundaries are inclusive.
pub open spec fn hit_region_of(x: int, y: int, rect: RECT, titlebar: int, border: int) -> HitRegion {
    let l = dist_left(x, rect);
    let r = dist_right(x, rect);
    let t = dist_top(y, rect);
    let b = dist_bottom(y, rect);
    if t <= border && l <= border {
        HitRegion::Resize(ResizeDirection::TopLeft)
    } else if t <= border && r <= border {
        HitRegion::Resize(ResizeDirection::TopRight)
    } else if b <= border && l <= border {
        HitRegion::Resize(ResizeDirection::BottomLeft)
    } else if b <= border && r <= border {
        HitRegion::Resize(ResizeDirection::BottomRight)
    } else if t <= border {
        HitRegion::Resize(ResizeDirection::Top)
    } else if b <= border {
        HitRegion::Resize(ResizeDirection::Bottom)
    } else if l <= border {
        HitRegion::Resize(ResizeDirection::Left)
    } else if r <= border {
        HitRegion::Resize(ResizeDirection::Right)
    } else if t <= titlebar {
        HitRegion::Caption
    } else {
        HitRegion::Client
    }
}

/// Classifies the cursor point against the window rectangle, the title bar
/// height and the resize border thickness.
pub fn resolve_hit(
    cursor_x: i32,
    cursor_y: i32,
    rect: RECT,
    titlebar_height: i32,
    resize_border: i32,
) -> (r: HitRegion)
    ensures
        r == hit_region_of(
            cursor_x as int,
            cursor_y as int,
            rect,
            titlebar_height as int,
            resize_border as int,
        ),
{
    let left: i64 = cursor_x as i64 - rect.left as i64;
    let right: i64 = rect.right as i64 - cursor_x as i64;
    let top: i64 = cursor_y as i64 - rect.top as i64;
    let bottom: i64 = rect.bottom as i64 - cursor_y as i64;
    let border: i64 = resize_border as i64;

    if top <= border && left <= border {
        HitRegion::Resize(ResizeDirection::TopLeft)
    } else if top <= border && right <= border {
        HitRegion::Resize(ResizeDirection::TopRight)
    } else if bottom <= border && left <= border {
        HitRegion::Resize(ResizeDirection::BottomLeft)
    } else if bottom <= border && right <= border {
        HitRegion::Resize(ResizeDirection::BottomRight)
    } else if top <= border {
        HitRegion::Resize(ResizeDirection::Top)
    } else if bottom <= border {
        HitRegion::Resize(ResizeDirection::Bottom)
    } else if left <= border {
        HitRegion::Resize(ResizeDirection::Left)
    } else if right <= border {
        HitRegion::Resize(ResizeDirection::Right)
    } else if top <= titlebar_height as i64 {
        HitRegion::Caption
    } else {
        HitRegion::Client
    }
}

/// A point farther than the border from every edge and lower than the title
/// bar is client area.
pub proof fn lemma_interior_is_client(x: int, y: int, rect: RECT, titlebar: int, border: int)
    requires
        dist_left(x, rect) > border,
        dist_right(x, rect) > border,
        dist_top(y, rect) > border,
        dist_bottom(y, rect) > border,
        dist_top(y, rect) > titlebar,
    ensures
        hit_region_of(x, y, rect, titlebar, border) == HitRegion::Client,
{
}

/// A point within the border of exactly one edge resizes along that edge
/// alone.
pub proof fn lemma_single_edge(x: int, y: int, rect: RECT, titlebar: int, border: int)
    ensures
        ({
            let l = dist_left(x, rect) <= border;
            let r = dist_right(x, rect) <= border;
            let t = dist_top(y, rect) <= border;
            let b = dist_bottom(y, rect) <= border;
            let got = hit_region_of(x, y, rect, titlebar, border);
            &&& (t && !b && !l && !r ==> got == HitRegion::Resize(ResizeDirection::Top))
            &&& (b && !t && !l && !r ==> got == HitRegion::Resize(ResizeDirection::Bottom))
            &&& (l && !t && !b && !r ==> got == HitRegion::Resize(ResizeDirection::Left))
            &&& (r && !t && !b && !l ==> got == HitRegion::Resize(ResizeDirection::Right))
        }),
{
}

/// A point within the border of two adjacent edges always gets a corner,
/// never a single-axis direction. It gets the corner of those two edges
/// unless it is also within the border of an opposite edge (a window
/// narrower or shorter than twice the border), where the top-left,
/// top-right, bottom-left order decides.
pub proof fn lemma_corner_precedence(x: int, y: int, rect: RECT, titlebar: int, border: int)
    ensures
        ({
            let l = dist_left(x, rect) <= border;
            let r = dist_right(x, rect) <= border;
            let t = dist_top(y, rect) <= border;
            let b = dist_bottom(y, rect) <= border;
            let got = hit_region_of(x, y, rect, titlebar, border);
            &&& ((t && l) || (t && r) || (b && l) || (b && r)) ==> is_corner(got)
            &&& (t && l ==> got == HitRegion::Resize(ResizeDirection::TopLeft))
            &&& (t && r && !l ==> got == HitRegion::Resize(ResizeDirection::TopRight))
            &&& (b && l && !t ==> got == HitRegion::Resize(ResizeDirection::BottomLeft))
            &&& (b && r && !t && !l ==> got == HitRegion::Resize(ResizeDirection::BottomRight))
        }),
{
}

/// A point within the title bar height of the top and farther than the border
/// from every edge is the caption.
pub proof fn lemma_titlebar_is_caption(x: int, y: int, rect: RECT, titlebar: int, border: int)
    requires
        dist_top(y, rect) <= titlebar,
        dist_left(x, rect) > border,
        dist_right(x, rect) > border,
        dist_top(y, rect) > border,
        dist_bottom(y, rect) > border,
    ensures
        hit_region_of(x, y, rect, titlebar, border) == HitRegion::Caption,
{
}

/// The region is one of the four diagonal resize directions.
pub open spec fn is_corner(h: HitRegion) -> bool {
    match h {
        HitRegion::Resize(ResizeDirection::TopLeft) => true,
        HitRegion::Resize(ResizeDirection::TopRight) => true,
        HitRegion::Resize(ResizeDirection::BottomLeft) => true,
        HitRegion::Resize(ResizeDirection::BottomRight) => true,
        _ => false,
    }
}

} // verus!
