//! Fixed-point geometry: positions and velocities are counted in sub-pixel
//! steps, `UNIT` of them to a pixel.
use vstd::prelude::*;

verus! {

/// Sub-pixel steps per pixel.
pub const UNIT: i64 = 1000;

/// Saturates a mathematical integer into the `i64` range.
pub open spec fn sat(v: int) -> int {
    if v > i64::MAX {
        i64::MAX as int
    } else if v < i64::MIN {
        i64::MIN as int
    } else {
        v
    }
}

/// Division that rounds toward zero, as Rust's `/` does.
pub open spec fn trunc_div(a: int, d: int) -> int {
    if a >= 0 {
        a / d
    } else {
        -((-a) / d)
    }
}

/// A vector in sub-pixel steps.
#[derive(Clone, Copy, Debug, PartialEq, Eq, Structural)]
pub struct Vec2 {
    pub x: i64,
    pub y: i64,
}

/// A pixel coordinate; y grows upward.
#[derive(Clone, Copy, Debug, PartialEq, Eq, Structural)]
pub struct IVec2 {
    pub x: i64,
    pub y: i64,
}

/// A non-negative pixel coordinate or extent.
#[derive(Clone, Copy, Debug, PartialEq, Eq, Structural)]
pub struct UVec2 {
    pub x: u32,
    pub y: u32,
}

pub open spec fn add_spec(a: Vec2, b: Vec2) -> Vec2 {
    Vec2 { x: sat(a.x + b.x) as i64, y: sat(a.y + b.y) as i64 }
}

/// `v` times `num / den`, each coordinate rounded toward zero.
pub open spec fn scale_spec(v: Vec2, num: i64, den: i64) -> Vec2 {
    Vec2 {
        x: sat(trunc_div(v.x * num, den as int)) as i64,
        y: sat(trunc_div(v.y * num, den as int)) as i64,
    }
}

/// The pixel that holds a point: each coordinate divided by `UNIT`, rounded
/// toward zero.
pub open spec fn to_pixel_spec(v: Vec2) -> IVec2 {
    IVec2 { x: trunc_div(v.x as int, UNIT as int) as i64, y: trunc_div(v.y as int, UNIT as int) as i64 }
}

/// The point at the corner of a pixel.
pub open spec fn from_pixel_spec(p: UVec2) -> Vec2 {
    Vec2 { x: (p.x * UNIT) as i64, y: (p.y * UNIT) as i64 }
}

pub(crate) fn sat_i128(v: i128) -> (r: i64)
    ensures
        r == sat(v as int),
{
    if v > i64::MAX as i128 {
        i64::MAX
    } else if v < i64::MIN as i128 {
        i64::MIN
    } else {
        v as i64
    }
}

pub(crate) fn trunc_div_i128(a: i128, d: i128) -> (r: i128)
    requires
        d > 0,
        a > i128::MIN,
    ensures
        r == trunc_div(a as int, d as int),
{
    if a >= 0 {
        a / d
    } else {
        -((-a) / d)
    }
}

proof fn lemma_trunc_div_bound(a: int, d: int)
    requires
        d >= 1,
    ensures
        -a <= trunc_div(a, d) <= a || a <= trunc_div(a, d) <= -a,
        a >= 0 ==> 0 <= trunc_div(a, d) <= a,
        a < 0 ==> a <= trunc_div(a, d) <= 0,
{
    if a >= 0 {
        assert(a / d <= a) by (nonlinear_arith)
            requires a >= 0, d >= 1;
        assert(a / d >= 0) by (nonlinear_arith)
            requires a >= 0, d >= 1;
    } else {
        assert((-a) / d <= -a) by (nonlinear_arith)
            requires -a > 0, d >= 1;
        assert((-a) / d >= 0) by (nonlinear_arith)
            requires -a > 0, d >= 1;
    }
}

impl Vec2 {
    pub fn zero() -> (r: Vec2)
        ensures
            r == (Vec2 { x: 0, y: 0 }),
    {
        Vec2 { x: 0, y: 0 }
    }

    pub fn new(x: i64, y: i64) -> (r: Vec2)
        ensures
            r == (Vec2 { x, y }),
    {
        Vec2 { x, y }
    }

    /// Saturating sum.
    pub fn add(self, o: Vec2) -> (r: Vec2)
        ensures
            r == add_spec(self, o),
    {
        Vec2 { x: sat_i128(self.x as i128 + o.x as i128), y: sat_i128(self.y as i128 + o.y as i128) }
    }

    /// Multiplies by `num / den`, rounding toward zero.
    pub fn scale(self, num: i64, den: i64) -> (r: Vec2)
        requires
            0 <= num <= den,
            den > 0,
        ensures
            r == scale_spec(self, num, den),
    {
        proof {
            assert(-0x8000_0000_0000_0000 * num <= self.x * num <= 0x7fff_ffff_ffff_ffff * num)
                by (nonlinear_arith)
                requires num >= 0, -0x8000_0000_0000_0000 <= self.x <= 0x7fff_ffff_ffff_ffff;
            assert(-0x8000_0000_0000_0000 * num <= self.y * num <= 0x7fff_ffff_ffff_ffff * num)
                by (nonlinear_arith)
                requires num >= 0, -0x8000_0000_0000_0000 <= self.y <= 0x7fff_ffff_ffff_ffff;
        }
        let px = self.x as i128 * num as i128;
        let py = self.y as i128 * num as i128;
        Vec2 { x: sat_i128(trunc_div_i128(px, den as i128)), y: sat_i128(trunc_div_i128(py, den as i128)) }
    }

    /// The pixel that holds this point.
    pub fn to_pixel(self) -> (r: IVec2)
        ensures
            r == to_pixel_spec(self),
    {
        proof {
            lemma_trunc_div_bound(self.x as int, UNIT as int);
            lemma_trunc_div_bound(self.y as int, UNIT as int);
        }
        IVec2 {
            x: trunc_div_i128(self.x as i128, UNIT as i128) as i64,
            y: trunc_div_i128(self.y as i128, UNIT as i128) as i64,
        }
    }

    /// The point at the lower-left corner of pixel `p`.
    pub fn from_pixel(p: UVec2) -> (r: Vec2)
        ensures
            r == from_pixel_spec(p),
    {
        Vec2 { x: p.x as i64 * UNIT, y: p.y as i64 * UNIT }
    }
}

} // verus!
