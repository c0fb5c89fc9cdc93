use vstd::prelude::*;

verus! {

/// A rectangle in absolute screen-pixel coordinates.
///
/// `right >= left` and `bottom >= top` are expected but not enforced by this
/// layer: a malformed rectangle is forwarded unchanged, the window manager
/// being authoritative about what it accepts.
#[derive(Clone, Copy, Debug, PartialEq, Eq, Structural)]
pub struct Rect {
    pub top: i32,
    pub left: i32,
    pub right: i32,
    pub bottom: i32,
}

/// Per-edge offsets of the invisible drop-shadow border the desktop theme
/// draws around a window frame. The inset varies by window, theme and DPI,
/// so it is queried fresh for every placement and never cached.
#[derive(Clone, Copy, Debug, PartialEq, Eq, Structural)]
pub struct ShadowInset {
    pub top: i32,
    pub left: i32,
    pub right: i32,
    pub bottom: i32,
}

/// Whether adding the matching inset edge to each requested edge stays
/// within the machine range of a screen coordinate.
pub open spec fn rect_fits(r: Rect, s: ShadowInset) -> bool {
    &&& i32::MIN <= r.top + s.top <= i32::MAX
    &&& i32::MIN <= r.left + s.left <= i32::MAX
    &&& i32::MIN <= r.right + s.right <= i32::MAX
    &&& i32::MIN <= r.bottom + s.bottom <= i32::MAX
}

/// The rectangle actually submitted to the window manager: every requested
/// edge corrected by the matching shadow-inset edge.
pub open spec fn adjusted_rect(r: Rect, s: ShadowInset) -> Rect {
    Rect {
        top: (r.top + s.top) as i32,
        left: (r.left + s.left) as i32,
        right: (r.right + s.right) as i32,
        bottom: (r.bottom + s.bottom) as i32,
    }
}

/// Correct a requested rectangle for the window's current shadow inset by
/// adding the corresponding inset to each of the four edges.
pub fn adjust_rect(r: &Rect, s: &ShadowInset) -> (out: Rect)
    requires
        rect_fits(*r, *s),
    ensures
        out == adjusted_rect(*r, *s),
{
    Rect {
        top: r.top + s.top,
        left: r.left + s.left,
        right: r.right + s.right,
        bottom: r.bottom + s.bottom,
    }
}

} // verus!
