//! DPI-independent integer geometry shared by the taskbar widget and popups.

use vstd::prelude::*;

verus! {

/// An integer pixel rectangle; `right` and `bottom` are exclusive edges.
#[derive(Clone, Copy, Debug, PartialEq, Eq, Structural)]
pub struct Rect {
    pub left: i32,
    pub top: i32,
    pub right: i32,
    pub bottom: i32,
}

impl Rect {
    pub open spec fn spec_width(self) -> int {
        self.right - self.left
    }

    pub open spec fn spec_height(self) -> int {
        self.bottom - self.top
    }

    /// `self` lies entirely within `other`.
    pub open spec fn spec_is_inside(self, other: Rect) -> bool {
        &&& self.left >= other.left
        &&& self.top >= other.top
        &&& self.right <= other.right
        &&& self.bottom <= other.bottom
    }

    /// The interiors of `self` and `other` overlap.
    pub open spec fn spec_intersects(self, other: Rect) -> bool {
        &&& self.left < other.right
        &&& self.right > other.left
        &&& self.top < other.bottom
        &&& self.bottom > other.top
    }

    /// Builds a rectangle from its four edges.
    pub fn new(left: i32, top: i32, right: i32, bottom: i32) -> (r: Self)
        ensures
            r == (Rect { left, top, right, bottom }),
    {
        Rect { left, top, right, bottom }
    }

    /// Width of the rectangle.
    pub fn width(self) -> (w: i32)
        requires
            i32::MIN <= self.spec_width() <= i32::MAX,
        ensures
            w == self.spec_width(),
    {
        self.right - self.left
    }

    /// Height of the rectangle.
    pub fn height(self) -> (h: i32)
        requires
            i32::MIN <= self.spec_height() <= i32::MAX,
        ensures
            h == self.spec_height(),
    {
        self.bottom - self.top
    }

    /// Whether `self` lies entirely within `other`.
    pub fn is_inside(self, other: Self) -> (b: bool)
        ensures
            b == self.spec_is_inside(other),
    {
        self.left >= other.left && self.top >= other.top && self.right <= other.right
            && self.bottom <= other.bottom
    }

    /// Whether the interiors of `self` and `other` overlap.
    pub fn intersects(self, other: Self) -> (b: bool)
        ensures
            b == self.spec_intersects(other),
    {
        self.left < other.right && self.right > other.left && self.top < other.bottom
            && self.bottom > other.top
    }
}

/// `numerator / denominator` rounded half away from zero.
pub open spec fn round_half_away(numerator: int, denominator: int) -> int
    recommends
        denominator > 0,
{
    if numerator < 0 {
        -((-numerator + denominator / 2) / denominator)
    } else {
        (numerator + denominator / 2) / denominator
    }
}

/// `value * numerator / denominator` rounded half away from zero.
pub open spec fn scaled(value: int, numerator: int, denominator: int) -> int {
    round_half_away(value * numerator, denominator)
}

/// The mathematical physical size of a 96-DPI logical value at `dpi`
/// (a DPI of 0 counts as 1).
pub open spec fn physical(value: int, dpi: int) -> int {
    scaled(value, if dpi < 1 { 1 } else { dpi }, 96)
}

/// Rounds a 96-DPI logical coordinate to the physical coordinate at `dpi`.
///
/// The result is the rounded value truncated to `i32`, exactly as the
/// conversion through `i64` does.
pub fn logical_to_physical(value: i32, dpi: u32) -> (r: i32)
    ensures
        r == #[verifier::truncate] (physical(value as int, dpi as int) as i32),
{
    let numerator = if dpi < 1 { 1 } else { dpi };
    scale_round(value, numerator, 96)
}

fn scale_round(value: i32, numerator: u32, denominator: u32) -> (r: i32)
    requires
        denominator > 0,
    ensures
        r == #[verifier::truncate] (scaled(value as int, numerator as int, denominator as int) as i32),
{
    let v = value as i64;
    let n = numerator as i64;
    assert(-0x8000_0000 * 0xffff_ffff <= v * n <= 0x7fff_ffff * 0xffff_ffff)
        by (nonlinear_arith)
        requires
            -0x8000_0000 <= v < 0x8000_0000,
            0 <= n < 0x1_0000_0000,
    ;
    let product: i64 = v * n;
    let adjustment: i64 = (denominator as i64) / 2;
    let d = denominator as i64;
    let q: i64 = if product < 0 {
        -((adjustment - product) / d)
    } else {
        (product + adjustment) / d
    };
    #[verifier::truncate]
    (q as i32)
}

} // verus!
