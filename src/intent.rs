//! The lifecycle intents that the content layer sends as text messages.
use vstd::prelude::*;
use crate::geometry::ResizeDirection;

verus! {

/// A request from the content layer to the window-owning thread.
#[derive(Clone, Copy, Debug, PartialEq, Eq, Structural)]
pub enum Intent {
    Minimize,
    /// Toggle between maximized and normal.
    Maximize,
    Close,
    /// Start a native resize loop in the given direction.
    StartResize(ResizeDirection),
}

/// The direction named by the text after the `resize-` prefix.
pub open spec fn direction_of(s: Seq<char>) -> Option<ResizeDirection> {
    if s == "top"@ {
        Some(ResizeDirection::Top)
    } else if s == "bottom"@ {
        Some(ResizeDirection::Bottom)
    } else if s == "left"@ {
        Some(ResizeDirection::Left)
    } else if s == "right"@ {
        Some(ResizeDirection::Right)
    } else if s == "topleft"@ {
        Some(ResizeDirection::TopLeft)
    } else if s == "topright"@ {
        Some(ResizeDirection::TopRight)
    } else if s == "bottomleft"@ {
        Some(ResizeDirection::BottomLeft)
    } else if s == "bottomright"@ {
        Some(ResizeDirection::BottomRight)
    } else {
        None
    }
}

/// The intent of a message text: `minimize`, `maximize`, `close`, or
/// `resize-` followed by one of the eight direction names. Any other text
/// names no intent.
pub open spec fn intent_of(s: Seq<char>) -> Option<Intent> {
    let p = "resize-"@;
    if s == "minimize"@ {
        Some(Intent::Minimize)
    } else if s == "maximize"@ {
        Some(Intent::Maximize)
    } else if s == "close"@ {
        Some(Intent::Close)
    } else if s.len() >= p.len() && s.subrange(0, p.len() as int) == p {
        match direction_of(s.subrange(p.len() as int, s.len() as int)) {
            Some(d) => Some(Intent::StartResize(d)),
            None => None,
        }
    } else {
        None
    }
}

/// Whether `lit` occurs in `s` at character position `start`.
fn occurs_at(s: &str, start: usize, lit: &str) -> (r: bool)
    requires
        start <= s@.len(),
    ensures
        r == (start + lit@.len() <= s@.len() && s@.subrange(
            start as int,
            start + lit@.len(),
        ) == lit@),
{
    let n = s.unicode_len();
    let m = lit.unicode_len();
    if m > n - start {
        return false;
    }
    let mut i: usize = 0;
    while i < m
        invariant
            start + m <= n,
            n == s@.len(),
            m == lit@.len(),
            i <= m,
            forall|k: int| 0 <= k < i ==> s@[start + k] == lit@[k],
        decreases m - i,
    {
        if s.get_char(start + i) != lit.get_char(i) {
            assert(s@.subrange(start as int, start + m)[i as int] != lit@[i as int]);
            return false;
        }
        i = i + 1;
    }
    assert(s@.subrange(start as int, start + m) =~= lit@);
    true
}

/// Whether the text of `s` from character position `start` on is `lit`.
fn rest_is(s: &str, start: usize, lit: &str) -> (r: bool)
    requires
        start <= s@.len(),
    ensures
        r == (s@.subrange(start as int, s@.len() as int) == lit@),
{
    let n = s.unicode_len();
    let m = lit.unicode_len();
    if n - start != m {
        proof {
            assert(s@.subrange(start as int, s@.len() as int).len() != lit@.len());
        }
        return false;
    }
    let r = occurs_at(s, start, lit);
    proof {
        assert(start + lit@.len() == s@.len());
    }
    r
}

/// The direction named by the text of `s` from character position `start`.
fn parse_direction(s: &str, start: usize) -> (r: Option<ResizeDirection>)
    requires
        start <= s@.len(),
    ensures
        r == direction_of(s@.subrange(start as int, s@.len() as int)),
{
    if rest_is(s, start, "top") {
        Some(ResizeDirection::Top)
    } else if rest_is(s, start, "bottom") {
        Some(ResizeDirection::Bottom)
    } else if rest_is(s, start, "left") {
        Some(ResizeDirection::Left)
    } else if rest_is(s, start, "right") {
        Some(ResizeDirection::Right)
    } else if rest_is(s, start, "topleft") {
        Some(ResizeDirection::TopLeft)
    } else if rest_is(s, start, "topright") {
        Some(ResizeDirection::TopRight)
    } else if rest_is(s, start, "bottomleft") {
        Some(ResizeDirection::BottomLeft)
    } else if rest_is(s, start, "bottomright") {
        Some(ResizeDirection::BottomRight)
    } else {
        None
    }
}

/// Reads a message of the content layer. Unknown texts and unknown resize
/// directions give `None`: such a message is dropped.
pub fn parse_intent(msg: &str) -> (r: Option<Intent>)
    ensures
        r == intent_of(msg@),
{
    proof {
        assert(msg@.subrange(0, msg@.len() as int) =~= msg@);
    }
    if rest_is(msg, 0, "minimize") {
        Some(Intent::Minimize)
    } else if rest_is(msg, 0, "maximize") {
        Some(Intent::Maximize)
    } else if rest_is(msg, 0, "close") {
        Some(Intent::Close)
    } else {
        let prefix = "resize-";
        if occurs_at(msg, 0, prefix) {
            let start = prefix.unicode_len();
            match parse_direction(msg, start) {
                Some(d) => Some(Intent::StartResize(d)),
                None => None,
            }
        } else {
            None
        }
    }
}

} // verus!
