use vstd::arithmetic::div_mod::{lemma_div_is_ordered, lemma_div_multiples_vanish, lemma_div_pos_is_pos};
use vstd::arithmetic::mul::{lemma_mul_inequality, lemma_mul_nonnegative};
use vstd::prelude::*;

verus! {

/// An axis-aligned rectangle in integer pixel coordinates.
#[derive(Clone, Copy, Debug, PartialEq, Eq, Structural)]
pub struct Rect {
    pub x: i32,
    pub y: i32,
    pub width: i32,
    pub height: i32,
}

impl Rect {
    pub fn new(x: i32, y: i32, width: i32, height: i32) -> (r: Rect)
        ensures
            r == (Rect { x, y, width, height }),
    {
        Rect { x: x, y: y, width: width, height: height }
    }

    /// The rectangle with every coordinate zero.
    pub open spec fn zero() -> Rect {
        Rect { x: 0, y: 0, width: 0, height: 0 }
    }

    /// Neither extent is negative and both far edges are representable, so
    /// that every subdivision of the rectangle is representable too.
    pub open spec fn bounded(self) -> bool {
        &&& 0 <= self.width
        &&& 0 <= self.height
        &&& self.x + self.width <= i32::MAX
        &&& self.y + self.height <= i32::MAX
    }
}

impl Default for Rect {
    fn default() -> (r: Rect)
        ensures
            r == Rect::zero(),
    {
        Rect { x: 0, y: 0, width: 0, height: 0 }
    }
}

/// The fraction `num / den` of an extent given to the first side of a split.
#[derive(Clone, Copy, Debug, PartialEq, Eq, Structural)]
pub struct Ratio {
    pub num: u32,
    pub den: u32,
}

impl Ratio {
    /// A fraction between zero and one, inclusive.
    pub open spec fn wf(self) -> bool {
        0 < self.den && self.num <= self.den
    }

    pub open spec fn spec_half() -> Ratio {
        Ratio { num: 1, den: 2 }
    }

    pub open spec fn spec_one() -> Ratio {
        Ratio { num: 1, den: 1 }
    }

    pub open spec fn spec_zero() -> Ratio {
        Ratio { num: 0, den: 1 }
    }

    pub fn new(num: u32, den: u32) -> (r: Ratio)
        requires
            0 < den,
            num <= den,
        ensures
            r == (Ratio { num, den }),
            r.wf(),
    {
        Ratio { num: num, den: den }
    }

    pub fn half() -> (r: Ratio)
        ensures
            r == Ratio::spec_half(),
    {
        Ratio { num: 1, den: 2 }
    }

    pub fn one() -> (r: Ratio)
        ensures
            r == Ratio::spec_one(),
    {
        Ratio { num: 1, den: 1 }
    }

    pub fn zero() -> (r: Ratio)
        ensures
            r == Ratio::spec_zero(),
    {
        Ratio { num: 0, den: 1 }
    }
}

/// The share of `len` that `ratio` gives to the first side, rounded down.
pub open spec fn part_of(len: int, ratio: Ratio) -> int {
    len * ratio.num / ratio.den as int
}

/// The top and bottom parts of `r`; the bottom takes what the top leaves.
pub open spec fn horizontal_parts(r: Rect, ratio: Ratio) -> (Rect, Rect) {
    let h = part_of(r.height as int, ratio);
    (
        Rect { x: r.x, y: r.y, width: r.width, height: h as i32 },
        Rect { x: r.x, y: (r.y + h) as i32, width: r.width, height: (r.height - h) as i32 },
    )
}

/// The left and right parts of `r`; the right takes what the left leaves.
pub open spec fn vertical_parts(r: Rect, ratio: Ratio) -> (Rect, Rect) {
    let w = part_of(r.width as int, ratio);
    (
        Rect { x: r.x, y: r.y, width: w as i32, height: r.height },
        Rect { x: (r.x + w) as i32, y: r.y, width: (r.width - w) as i32, height: r.height },
    )
}

/// A share of a non-negative extent lies between zero and the whole extent.
pub proof fn lemma_part_bounds(len: int, ratio: Ratio)
    requires
        0 <= len,
        ratio.wf(),
    ensures
        0 <= part_of(len, ratio) <= len,
{
    let d = ratio.den as int;
    let n = ratio.num as int;
    lemma_mul_nonnegative(len, n);
    lemma_div_pos_is_pos(len * n, d);
    lemma_mul_inequality(n, d, len);
    assert(len * n <= d * len) by (nonlinear_arith)
        requires
            n * len <= d * len,
    ;
    lemma_div_is_ordered(len * n, d * len, d);
    lemma_div_multiples_vanish(len, d);
}

/// Both parts of a bounded rectangle are bounded, and they share out its
/// extent exactly.
pub proof fn lemma_parts_bounded(r: Rect, ratio: Ratio)
    requires
        r.bounded(),
        ratio.wf(),
    ensures
        horizontal_parts(r, ratio).0.bounded(),
        horizontal_parts(r, ratio).1.bounded(),
        vertical_parts(r, ratio).0.bounded(),
        vertical_parts(r, ratio).1.bounded(),
{
    lemma_part_bounds(r.height as int, ratio);
    lemma_part_bounds(r.width as int, ratio);
}

} // verus!
