//! Frame composition: the window style, compositor margins, background brush
//! and frame-change flags applied once after window creation.
use vstd::prelude::*;
use crate::geometry::{frame_margins, MARGINS};

verus! {

/// Style bits of the caption (title bar and its border).
pub const WS_CAPTION: isize = 0x00C0_0000;
/// Style bit of the sizing frame, kept so the system still offers native
/// resizing, snapping and the drop shadow.
pub const WS_THICKFRAME: isize = 0x0004_0000;
/// Style bit that keeps children out of the parent's painting.
pub const WS_CLIPCHILDREN: isize = 0x0200_0000;

/// Repositioning flag: the frame has changed and must be recomputed.
pub const SWP_FRAMECHANGED: u32 = 0x0020;
/// Repositioning flag: keep the position.
pub const SWP_NOMOVE: u32 = 0x0002;
/// Repositioning flag: keep the size.
pub const SWP_NOSIZE: u32 = 0x0001;
/// Repositioning flag: keep the z-order.
pub const SWP_NOZORDER: u32 = 0x0004;

/// Base background colour of the content layer, as red, green and blue.
pub const BACKGROUND_RED: u8 = 30;
/// Green component of the base background colour.
pub const BACKGROUND_GREEN: u8 = 31;
/// Blue component of the base background colour.
pub const BACKGROUND_BLUE: u8 = 34;

/// The style with the caption removed and the sizing frame and child
/// clipping set.
pub open spec fn frameless_style_of(style: isize) -> isize {
    (style & !WS_CAPTION) | WS_THICKFRAME | WS_CLIPCHILDREN
}

/// Turns a window style into the frameless one: caption bits cleared, sizing
/// frame and child clipping set, every other bit kept.
pub fn frameless_style(style: isize) -> (r: isize)
    ensures
        r == frameless_style_of(style),
        r & WS_CAPTION == 0,
        r & WS_THICKFRAME == WS_THICKFRAME,
        r & WS_CLIPCHILDREN == WS_CLIPCHILDREN,
{
    let r = (style & !WS_CAPTION) | WS_THICKFRAME | WS_CLIPCHILDREN;
    assert(r & 0x00C0_0000isize == 0) by (bit_vector)
        requires
            r == (style & !0x00C0_0000isize) | 0x0004_0000isize | 0x0200_0000isize,
    ;
    assert(r & 0x0004_0000isize == 0x0004_0000isize) by (bit_vector)
        requires
            r == (style & !0x00C0_0000isize) | 0x0004_0000isize | 0x0200_0000isize,
    ;
    assert(r & 0x0200_0000isize == 0x0200_0000isize) by (bit_vector)
        requires
            r == (style & !0x00C0_0000isize) | 0x0004_0000isize | 0x0200_0000isize,
    ;
    r
}

/// Applying the style change twice gives the same style bits as applying it
/// once.
pub proof fn lemma_frameless_style_idempotent(style: isize)
    ensures
        frameless_style_of(frameless_style_of(style)) == frameless_style_of(style),
{
    let once = frameless_style_of(style);
    assert(((once & !0x00C0_0000isize) | 0x0004_0000isize | 0x0200_0000isize) == once) by (bit_vector)
        requires
            once == (style & !0x00C0_0000isize) | 0x0004_0000isize | 0x0200_0000isize,
    ;
}

/// The colour value (red in the low byte, then green, then blue) of a colour
/// given by its components.
pub open spec fn colorref_of(red: u8, green: u8, blue: u8) -> int {
    red as int + 256 * green as int + 65536 * blue as int
}

/// Packs colour components into a colour value with red in the low byte.
pub fn colorref(red: u8, green: u8, blue: u8) -> (r: u32)
    ensures
        r as int == colorref_of(red, green, blue),
{
    red as u32 + 256 * green as u32 + 65536 * blue as u32
}

/// Everything the frame composition step applies to a new window.
#[derive(Clone, Copy, Debug, PartialEq, Eq, Structural)]
pub struct FrameSetup {
    /// The new window style.
    pub style: isize,
    /// The margins by which the compositor frame is extended.
    pub margins: MARGINS,
    /// The colour of the class background brush.
    pub background: u32,
    /// The flags of the repositioning call that recomputes the frame.
    pub position_flags: u32,
}

/// Computes the frame composition for a window whose current style is
/// `current_style`: frameless style, compositor frame over the whole window,
/// the content layer's background colour, and a frame recomputation that
/// neither moves, resizes nor reorders the window.
pub fn frame_setup(current_style: isize) -> (r: FrameSetup)
    ensures
        r.style == frameless_style_of(current_style),
        r.margins.cx_left_width == -1,
        r.margins.cx_right_width == -1,
        r.margins.cy_top_height == -1,
        r.margins.cy_bottom_height == -1,
        r.background as int == colorref_of(BACKGROUND_RED, BACKGROUND_GREEN, BACKGROUND_BLUE),
        r.background == 0x0022_1F1Eu32,
        r.position_flags == SWP_FRAMECHANGED | SWP_NOMOVE | SWP_NOSIZE | SWP_NOZORDER,
        r.position_flags == 0x27u32,
{
    let flags = SWP_FRAMECHANGED | SWP_NOMOVE | SWP_NOSIZE | SWP_NOZORDER;
    assert(0x0020u32 | 0x0002u32 | 0x0001u32 | 0x0004u32 == 0x27u32) by (bit_vector);
    FrameSetup {
        style: frameless_style(current_style),
        margins: frame_margins(),
        background: colorref(BACKGROUND_RED, BACKGROUND_GREEN, BACKGROUND_BLUE),
        position_flags: flags,
    }
}

} // verus!
