use vstd::prelude::*;

verus! {

/// A pointer position in physical pixels.
#[derive(Clone, Copy, PartialEq, Eq, Structural, Debug)]
pub struct Pos {
    pub x: i32,
    pub y: i32,
}

/// The screen rectangle the GUI is told about: origin at (0, 0), extending
/// `width` by `height` physical pixels.
#[derive(Clone, Copy, PartialEq, Eq, Structural, Debug)]
pub struct ScreenRect {
    pub width: i32,
    pub height: i32,
}

impl ScreenRect {
    /// A usable screen rectangle spans at least one pixel on each axis.
    pub open spec fn wf(self) -> bool {
        self.width >= 1 && self.height >= 1
    }
}

/// `v` forced into `[lo, hi]`.
pub open spec fn spec_clamp(v: int, lo: int, hi: int) -> int {
    if v < lo {
        lo
    } else if v > hi {
        hi
    } else {
        v
    }
}

/// Where a raw pointer coordinate ends up: clamped to the screen rectangle,
/// inclusive of the minimum edge and one pixel inside the maximum edge.
pub open spec fn clamped_pos(r: ScreenRect, x: int, y: int) -> Pos {
    Pos {
        x: spec_clamp(x, 0, r.width - 1) as i32,
        y: spec_clamp(y, 0, r.height - 1) as i32,
    }
}

pub fn clamp_i32(v: i32, lo: i32, hi: i32) -> (r: i32)
    requires
        lo <= hi,
    ensures
        r == spec_clamp(v as int, lo as int, hi as int),
{
    if v < lo {
        lo
    } else if v > hi {
        hi
    } else {
        v
    }
}

/// Clamp a raw pointer coordinate pair to a screen rectangle.
pub fn clamp_pos(r: ScreenRect, x: i32, y: i32) -> (p: Pos)
    requires
        r.wf(),
    ensures
        p == clamped_pos(r, x as int, y as int),
{
    Pos { x: clamp_i32(x, 0, r.width - 1), y: clamp_i32(y, 0, r.height - 1) }
}

/// Law: however far outside the screen the raw coordinates lie, the clamped
/// pointer position stays within `[0, width - 1]` by `[0, height - 1]`.
pub proof fn lemma_pointer_clamped_in_bounds(r: ScreenRect, x: int, y: int)
    requires
        r.wf(),
    ensures
        0 <= clamped_pos(r, x, y).x < r.width,
        0 <= clamped_pos(r, x, y).y < r.height,
{
}

} // verus!
