//! Integer fixed-point geometry.
//!
//! The platform reports sizes in physical pixels and positions in
//! subpixel-precise coordinates; it also reports a fractional scale factor.
//! This crate carries no floating point: a scale factor is stored in
//! thousandths (`1000` = 1.0), positions in thousandths of a pixel, and all
//! conversions between physical and logical (DPI-independent) units are exact
//! integer computations stated below.

use vstd::prelude::*;

verus! {

/// A size in whole physical pixels.
#[derive(Clone, Copy, Debug, PartialEq, Eq, Structural)]
pub struct Size {
    pub width: u32,
    pub height: u32,
}

impl Size {
    pub fn new(width: u32, height: u32) -> (s: Size)
        ensures
            s == (Size { width, height }),
    {
        Size { width, height }
    }
}

impl Default for Size {
    fn default() -> (s: Size)
        ensures
            s == (Size { width: 0, height: 0 }),
    {
        Size { width: 0, height: 0 }
    }
}

/// A position in thousandths of a physical pixel, as the platform reports
/// cursor and touch locations inside a window (never negative).
#[derive(Clone, Copy, Debug, PartialEq, Eq, Structural)]
pub struct Position {
    pub x: u32,
    pub y: u32,
}

/// A point or delta in thousandths of a logical pixel.
#[derive(Clone, Copy, Debug, PartialEq, Eq, Structural)]
pub struct Point {
    pub x: i64,
    pub y: i64,
}

impl Point {
    pub fn new(x: i64, y: i64) -> (p: Point)
        ensures
            p == (Point { x, y }),
    {
        Point { x, y }
    }
}

impl Default for Point {
    fn default() -> (p: Point)
        ensures
            p == (Point { x: 0 as i64, y: 0 as i64 }),
    {
        Point { x: 0, y: 0 }
    }
}

/// A physical quantity divided by the scale factor, both in thousandths:
/// the logical counterpart of `phys`, still in thousandths.
pub open spec fn logical_milli(phys: int, scale_milli: int) -> int {
    phys * 1000 / scale_milli
}

/// A physical length in whole pixels divided by the scale factor:
/// the logical length in whole pixels (rounded towards zero).
pub open spec fn logical_px(phys: int, scale_milli: int) -> int {
    phys * 1000 / scale_milli
}

/// `logical_px`, saturated to the `u32` range, as the render collaborator
/// takes its target sizes.
pub open spec fn logical_px_sat(phys: int, scale_milli: int) -> int {
    if logical_px(phys, scale_milli) > u32::MAX {
        u32::MAX as int
    } else {
        logical_px(phys, scale_milli)
    }
}

/// Converts a position coordinate (thousandths of a physical pixel) to
/// thousandths of a logical pixel.
pub fn to_logical_milli(phys_milli: u32, scale_milli: u32) -> (r: i64)
    requires
        scale_milli >= 1,
    ensures
        r == logical_milli(phys_milli as int, scale_milli as int),
{
    let wide: u64 = (phys_milli as u64) * 1000 / (scale_milli as u64);
    wide as i64
}

/// Converts a physical length in whole pixels to a logical length in whole
/// pixels, saturating at the `u32` range.
pub fn to_logical_px_sat(phys: u32, scale_milli: u32) -> (r: u32)
    requires
        scale_milli >= 1,
    ensures
        r == logical_px_sat(phys as int, scale_milli as int),
{
    let wide: u64 = (phys as u64) * 1000 / (scale_milli as u64);
    if wide > u32::MAX as u64 {
        u32::MAX
    } else {
        wide as u32
    }
}

/// Converts a platform position to a logical point.
pub fn position_to_logical(position: Position, scale_milli: u32) -> (p: Point)
    requires
        scale_milli >= 1,
    ensures
        p.x == logical_milli(position.x as int, scale_milli as int),
        p.y == logical_milli(position.y as int, scale_milli as int),
{
    Point { x: to_logical_milli(position.x, scale_milli), y: to_logical_milli(position.y, scale_milli) }
}

/// The tolerance, in whole logical pixels, under which two lengths count as
/// equal. It absorbs the rounding of the integer conversions, playing the
/// role an approximate floating-point comparison plays when logical sizes
/// are computed with fractional scale arithmetic.
pub open spec fn approx_eq(a: int, b: int) -> bool {
    -1 <= a - b && a - b <= 1
}

/// Approximate equality of two logical lengths; see [`approx_eq`].
pub fn approx_eq_px(a: u32, b: u32) -> (r: bool)
    ensures
        r == approx_eq(a as int, b as int),
{
    (a as u64) <= (b as u64) + 1 && (b as u64) <= (a as u64) + 1
}

} // verus!
