use vstd::prelude::*;

verus! {

/// One logical pixel in the fixed-point unit of pointer coordinates.
pub const FIXED_ONE: i64 = 256;

/// A position in whole logical pixels.
#[derive(Clone, Copy, Debug, PartialEq, Eq, Structural)]
pub struct Point {
    pub x: i32,
    pub y: i32,
}

/// A width and a height in logical pixels.
#[derive(Clone, Copy, Debug, PartialEq, Eq, Structural)]
pub struct Size {
    pub w: i32,
    pub h: i32,
}

/// A rectangle: its top-left corner and its size.
#[derive(Clone, Copy, Debug, PartialEq, Eq, Structural)]
pub struct Rect {
    pub loc: Point,
    pub size: Size,
}

/// A pointer position in 1/256 of a logical pixel.
#[derive(Clone, Copy, Debug, PartialEq, Eq, Structural)]
pub struct PointerPos {
    pub x: i32,
    pub y: i32,
}

/// The minimum and maximum size a client asked for; 0 means "not set".
#[derive(Clone, Copy, Debug, PartialEq, Eq, Structural)]
pub struct SizeConstraints {
    pub min: Size,
    pub max: Size,
}

/// `v` brought into the range of `i32`, as a saturating cast does.
pub open spec fn clamp_i32(v: int) -> int {
    if v < i32::MIN as int {
        i32::MIN as int
    } else if v > i32::MAX as int {
        i32::MAX as int
    } else {
        v
    }
}

/// Division by a positive `d` that truncates toward zero.
pub open spec fn trunc_div(n: int, d: int) -> int {
    if n >= 0 {
        n / d
    } else {
        -((-n) / d)
    }
}

/// `n / 256` rounded to the nearest integer, halves away from zero.
pub open spec fn round_fixed(n: int) -> int {
    if n >= 0 {
        (n + 128) / 256
    } else {
        -((-n + 128) / 256)
    }
}

/// `round_fixed(n)` is a nearest integer to `n / 256`, and of two equally
/// near the one further from zero.
pub proof fn lemma_round_fixed_nearest(n: int)
    ensures
        256 * round_fixed(n) - 128 <= n <= 256 * round_fixed(n) + 128,
        n == 256 * round_fixed(n) - 128 ==> n > 0,
        n == 256 * round_fixed(n) + 128 ==> n < 0,
{
    if n >= 0 {
        let r = (n + 128) / 256;
        assert(256 * r <= n + 128 < 256 * r + 256) by (nonlinear_arith)
            requires
                r == (n + 128) / 256,
                n >= 0,
        ;
    } else {
        let r = (-n + 128) / 256;
        assert(256 * r <= -n + 128 < 256 * r + 256) by (nonlinear_arith)
            requires
                r == (-n + 128) / 256,
                n < 0,
        ;
    }
}

pub fn saturate_i32(v: i64) -> (r: i32)
    ensures
        r as int == clamp_i32(v as int),
{
    if v < i32::MIN as i64 {
        i32::MIN
    } else if v > i32::MAX as i64 {
        i32::MAX
    } else {
        v as i32
    }
}

/// `n / 256`, truncated toward zero.
pub fn fixed_trunc(n: i64) -> (r: i64)
    requires
        n > i64::MIN,
    ensures
        r as int == trunc_div(n as int, 256),
{
    if n >= 0 {
        n / FIXED_ONE
    } else {
        -((-n) / FIXED_ONE)
    }
}

/// `n / 256`, rounded to the nearest integer with halves away from zero.
pub fn fixed_round(n: i64) -> (r: i64)
    requires
        -0x1000_0000_0000 <= n <= 0x1000_0000_0000,
    ensures
        r as int == round_fixed(n as int),
{
    if n >= 0 {
        (n + 128) / FIXED_ONE
    } else {
        -((-n + 128) / FIXED_ONE)
    }
}

} // verus!
