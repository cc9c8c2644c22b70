//! Fixed-point numbers, affine matrices, media boxes and the page-to-pixel sizing.
use vstd::prelude::*;

verus! {

/// One whole unit in the fixed-point representation used throughout.
pub const UNIT: i64 = 1000;

/// `v` saturated into the range of `i64`.
pub open spec fn sat(v: int) -> int {
    if v < i64::MIN {
        i64::MIN as int
    } else if v > i64::MAX {
        i64::MAX as int
    } else {
        v
    }
}

/// `round(v / d)`, halves rounded up, for an even `d > 0`.
pub open spec fn round_div(v: int, d: int) -> int {
    (v + d / 2) / d
}

/// A negative numerator rounds to zero or below.
pub proof fn lemma_round_div_negative(v: int, d: int)
    requires
        v < 0,
        d > 0,
    ensures
        round_div(v, d) <= 0,
{
    assert((v + d / 2) / d <= 0) by (nonlinear_arith)
        requires
            v < 0,
            d > 0,
    ;
}

/// Half of `v`, rounded toward zero.
pub open spec fn half(v: int) -> int {
    if v >= 0 {
        v / 2
    } else {
        -((-v) / 2)
    }
}

pub fn sat_i64(v: i128) -> (r: i64)
    ensures
        r as int == sat(v as int),
{
    if v < i64::MIN as i128 {
        i64::MIN
    } else if v > i64::MAX as i128 {
        i64::MAX
    } else {
        v as i64
    }
}

/// Exact `round(v / d)` of a non-negative `v`.
pub fn round_div_exec(v: i128, d: i128) -> (r: i128)
    requires
        0 < d <= 0x1_0000_0000,
        0 <= v <= 0x4000_0000_0000_0000_0000_0000_0000_0000,
    ensures
        r as int == round_div(v as int, d as int),
        0 <= r <= v + 1,
{
    let n = v + d / 2;
    assert((n as int) / (d as int) <= n) by (nonlinear_arith)
        requires
            n >= 0,
            d > 0,
    ;
    assert((n as int) / (d as int) <= v + 1) by (nonlinear_arith)
        requires
            n == v + d / 2,
            v >= 0,
            d > 0,
    ;
    n / d
}

pub fn half_exec(v: i128) -> (r: i128)
    requires
        v > i128::MIN,
    ensures
        r as int == half(v as int),
{
    if v >= 0 {
        v / 2
    } else {
        -((-v) / 2)
    }
}

/// An affine transform `[a b c d e f]`: `(x, y)` goes to `(a·x + c·y + e, b·x + d·y + f)`.
/// Every entry counts thousandths.
#[derive(Clone, Copy, Debug, PartialEq, Eq, Structural)]
pub struct Matrix {
    pub a: i64,
    pub b: i64,
    pub c: i64,
    pub d: i64,
    pub e: i64,
    pub f: i64,
}

pub open spec fn identity() -> Matrix {
    Matrix { a: UNIT, b: 0, c: 0, d: UNIT, e: 0, f: 0 }
}

pub fn identity_matrix() -> (m: Matrix)
    ensures
        m == identity(),
{
    Matrix { a: UNIT, b: 0, c: 0, d: UNIT, e: 0, f: 0 }
}

/// A page's boundary rectangle in page space (origin bottom-left, y up).
#[derive(Clone, Copy, Debug, PartialEq, Eq, Structural)]
pub struct MediaBox {
    pub left: i64,
    pub bottom: i64,
    pub right: i64,
    pub top: i64,
}

impl MediaBox {
    /// `right − left`, saturated.
    pub open spec fn width(self) -> int {
        sat(self.right - self.left)
    }

    /// `top − bottom`, saturated.
    pub open spec fn height(self) -> int {
        sat(self.top - self.bottom)
    }
}

/// The page's width and height.
pub fn page_extent(b: &MediaBox) -> (r: (i64, i64))
    ensures
        r.0 as int == b.width(),
        r.1 as int == b.height(),
{
    (sat_i64(b.right as i128 - b.left as i128), sat_i64(b.top as i128 - b.bottom as i128))
}

/// `v` clamped into the range of `u32`.
pub open spec fn clamp_u32(v: int) -> int {
    if v < 0 {
        0
    } else if v > u32::MAX {
        u32::MAX as int
    } else {
        v
    }
}

/// Whole pixels covered by `extent` at `zoom`: `round(extent · zoom)`, clamped.
pub open spec fn pixel_size(extent: int, zoom: int) -> int {
    clamp_u32(round_div(extent * zoom, UNIT * UNIT))
}

pub fn pixel_size_exec(extent: i64, zoom: i64) -> (r: u32)
    ensures
        r as int == pixel_size(extent as int, zoom as int),
{
    assert(-0x4000_0000_0000_0000_0000_0000_0000_0000 <= (extent as int) * (zoom as int)
        <= 0x4000_0000_0000_0000_0000_0000_0000_0000) by (nonlinear_arith)
        requires
            i64::MIN <= extent <= i64::MAX,
            i64::MIN <= zoom <= i64::MAX,
    ;
    let p = extent as i128 * zoom as i128;
    if p < 0 {
        proof {
            lemma_round_div_negative(p as int, UNIT * UNIT);
        }
        return 0;
    }
    let q = round_div_exec(p, 1000000);
    if q > u32::MAX as i128 {
        u32::MAX
    } else {
        q as u32
    }
}

} // verus!
