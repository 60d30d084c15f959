//! Interception of the window's messages: which ones get a reply of their
//! own, which go to the hit-test resolver, and where the rest are forwarded.
use vstd::prelude::*;
use crate::geometry::{RECT, RESIZE_BORDER, TITLEBAR_HEIGHT};
use crate::hit_test::{hit_region_of, resolve_hit};

verus! {

/// Resize notification.
pub const WM_SIZE: u32 = 0x0005;
/// Background erase request.
pub const WM_ERASEBKGND: u32 = 0x0014;
/// Query for the client rectangle of a window rectangle.
pub const WM_NCCALCSIZE: u32 = 0x0083;
/// Non-client hit-test query.
pub const WM_NCHITTEST: u32 = 0x0084;
/// Primary button pressed in the non-client area; sent to start a native
/// drag or resize loop.
pub const WM_NCLBUTTONDOWN: u32 = 0x00A1;

/// A 16-bit word read as a signed value.
pub open spec fn signed_word(w: int) -> int {
    if w >= 0x8000 {
        w - 0x10000
    } else {
        w
    }
}

/// Horizontal cursor coordinate packed in the low word of a message
/// parameter.
pub open spec fn cursor_x_of(lparam: isize) -> int {
    signed_word((lparam & 0xFFFF) as int)
}

/// Vertical cursor coordinate packed in the second word of a message
/// parameter.
pub open spec fn cursor_y_of(lparam: isize) -> int {
    signed_word(((lparam >> 16) & 0xFFFF) as int)
}

/// Reads a signed 16-bit word.
fn word_as_signed(w: isize) -> (r: i32)
    requires
        0 <= w <= 0xFFFF,
    ensures
        r as int == signed_word(w as int),
{
    let v = w as i32;
    if v >= 0x8000 {
        v - 0x10000
    } else {
        v
    }
}

/// Unpacks the signed screen coordinates of the cursor from a hit-test
/// message parameter.
pub fn cursor_from_lparam(lparam: isize) -> (r: (i32, i32))
    ensures
        r.0 as int == cursor_x_of(lparam),
        r.1 as int == cursor_y_of(lparam),
{
    let lo = lparam & 0xFFFF;
    let hi = (lparam >> 16) & 0xFFFF;
    assert(0 <= lo <= 0xFFFF) by (bit_vector)
        requires
            lo == lparam & 0xFFFF,
    ;
    assert(0 <= hi <= 0xFFFF) by (bit_vector)
        requires
            hi == (lparam >> 16) & 0xFFFF,
    ;
    (word_as_signed(lo), word_as_signed(hi))
}

/// The reply to a non-client hit-test query whose parameter is `lparam`, for
/// a window whose current on-screen rectangle is `rect`.
pub fn hit_test_reply(lparam: isize, rect: RECT) -> (r: isize)
    ensures
        r == hit_region_of(
            cursor_x_of(lparam),
            cursor_y_of(lparam),
            rect,
            TITLEBAR_HEIGHT as int,
            RESIZE_BORDER as int,
        ).spec_code(),
{
    let (x, y) = cursor_from_lparam(lparam);
    resolve_hit(x, y, rect, TITLEBAR_HEIGHT, RESIZE_BORDER).code()
}

/// What the intercepting handler does with one message.
#[derive(Clone, Copy, Debug, PartialEq, Eq, Structural)]
pub enum Route {
    /// Reply with this value; the message goes no further.
    Reply(isize),
    /// Reply with the hit-test classification of the cursor.
    HitTest,
    /// Forward unchanged to the handler that was installed before.
    CallOriginal(isize),
    /// Forward unchanged to the platform's default handler.
    CallDefault,
}

/// Routing of a message: a client-rectangle query with a nonzero `wparam`
/// gets 0 (the whole window is client area), a background erase gets 1
/// (already painted by the class brush), a hit-test query goes to the
/// resolver, and every other message, the resize notification among them,
/// is forwarded to `original` or, where none was captured (0), to the
/// default handler.
pub open spec fn route_of(msg: u32, wparam: usize, original: isize) -> Route {
    if msg == WM_NCCALCSIZE && wparam != 0 {
        Route::Reply(0)
    } else if msg == WM_ERASEBKGND {
        Route::Reply(1)
    } else if msg == WM_NCHITTEST {
        Route::HitTest
    } else if original != 0 {
        Route::CallOriginal(original)
    } else {
        Route::CallDefault
    }
}

/// Decides how the intercepting handler treats message `msg`, given the
/// stored previous handler `original` (0 when none was captured).
pub fn route_message(msg: u32, wparam: usize, original: isize) -> (r: Route)
    ensures
        r == route_of(msg, wparam, original),
        msg == WM_SIZE ==> (r == Route::CallOriginal(original) || r == Route::CallDefault),
{
    if msg == WM_NCCALCSIZE && wparam != 0 {
        Route::Reply(0)
    } else if msg == WM_ERASEBKGND {
        Route::Reply(1)
    } else if msg == WM_NCHITTEST {
        Route::HitTest
    } else if original != 0 {
        Route::CallOriginal(original)
    } else {
        Route::CallDefault
    }
}

} // verus!
