//! Sizes, positions and DPI scaling.
//!
//! The window system reports sizes and positions in physical (framebuffer)
//! pixels; the GUI engine works in logical pixels. The two are related by the
//! window's DPI scale factor, modelled here as a percentage: a scale of
//! `150` means one logical pixel covers 1.5 physical pixels. Conversions
//! divide or multiply by the scale and round to the nearest integer.

use vstd::prelude::*;

verus! {

/// Smallest DPI scale the model admits, as a percentage.
pub const MIN_SCALE_PCT: u32 = 1;

/// Largest DPI scale the model admits, as a percentage.
pub const MAX_SCALE_PCT: u32 = 100_000;

/// A size in physical (framebuffer) pixels.
#[derive(Clone, Copy, Debug, PartialEq, Eq, Structural)]
pub struct PhysicalSize {
    pub width: u32,
    pub height: u32,
}

/// A size in logical (DPI-scaled) pixels.
#[derive(Clone, Copy, Debug, PartialEq, Eq, Structural)]
pub struct LogicalSize {
    pub width: u64,
    pub height: u64,
}

/// A position in physical (framebuffer) pixels.
#[derive(Clone, Copy, Debug, PartialEq, Eq, Structural)]
pub struct PhysicalPosition {
    pub x: i32,
    pub y: i32,
}

/// A position in logical (DPI-scaled) pixels.
#[derive(Clone, Copy, Debug, PartialEq, Eq, Structural)]
pub struct LogicalPosition {
    pub x: i64,
    pub y: i64,
}

/// A two-dimensional vector of style metrics, in logical pixels.
#[derive(Clone, Copy, Debug, PartialEq, Eq, Structural)]
pub struct Vector2 {
    pub x: i32,
    pub y: i32,
}

/// True of a scale percentage the model admits.
pub open spec fn valid_scale_pct(pct: u32) -> bool {
    MIN_SCALE_PCT <= pct <= MAX_SCALE_PCT
}

/// A non-negative length rescaled by `mul / div`, rounded to the nearest
/// integer (halves up).
pub open spec fn scaled_len(v: int, mul: int, div: int) -> int
    recommends
        v >= 0,
        mul >= 0,
        div > 0,
{
    (v * mul + div / 2) / div
}

/// A signed coordinate rescaled by `mul / div`: the magnitude is rescaled
/// as a length and the sign is kept.
pub open spec fn scaled_coord(v: int, mul: int, div: int) -> int
    recommends
        mul >= 0,
        div > 0,
{
    if v >= 0 {
        scaled_len(v, mul, div)
    } else {
        -scaled_len(-v, mul, div)
    }
}

/// Rescales a length.
pub(crate) fn scale_len(v: u64, mul: u32, div: u32) -> (r: u64)
    requires
        v <= 0x2_0000_0000u64,
        mul <= MAX_SCALE_PCT,
        1 <= div,
    ensures
        r == scaled_len(v as int, mul as int, div as int),
{
    proof {
        assert((v as int) * (mul as int) <= 0x2_0000_0000 * 100_000) by (nonlinear_arith)
            requires
                v <= 0x2_0000_0000,
                mul <= 100_000,
                v >= 0,
                mul >= 0,
        ;
    }
    (v * (mul as u64) + (div as u64) / 2) / (div as u64)
}

/// Rescales a signed coordinate.
pub(crate) fn scale_coord_i64(v: i64, mul: u32, div: u32) -> (r: i64)
    requires
        -0x2_0000_0000i64 <= v <= 0x2_0000_0000i64,
        mul <= MAX_SCALE_PCT,
        1 <= div,
    ensures
        r == scaled_coord(v as int, mul as int, div as int),
{
    let neg = v < 0;
    let m: u64 = if neg {
        (-v) as u64
    } else {
        v as u64
    };
    proof {
        assert((m as int) * (mul as int) <= 0x2_0000_0000 * 100_000) by (nonlinear_arith)
            requires
                m <= 0x2_0000_0000,
                mul <= 100_000,
                m >= 0,
                mul >= 0,
        ;
    }
    let scaled: u64 = (m * (mul as u64) + (div as u64) / 2) / (div as u64);
    if neg {
        -(scaled as i64)
    } else {
        scaled as i64
    }
}

} // verus!
