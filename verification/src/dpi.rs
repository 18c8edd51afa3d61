//! Logical and physical sizes, and the scale factor that relates them.
//!
//! Sizes stored by the window state are always logical (scale-independent);
//! physical sizes are derived on demand.  The scale factor is carried in
//! 1/120 steps, the granularity of the fractional-scale protocol, so that a
//! factor of one is `SCALE_ONE` and a factor of one and a half is 180.
use vstd::prelude::*;

verus! {

/// One hundred and twenty scale units make the scale factor one.
pub const SCALE_ONE: u32 = 120;

/// The largest scale factor the state accepts: a factor of one thousand.
pub const SCALE_MAX: u32 = 120_000;

/// A size in logical (scale-independent) units.
#[derive(Debug, Clone, Copy, PartialEq, Eq, Structural)]
pub struct LogicalSize {
    pub width: u32,
    pub height: u32,
}

/// A size in physical (pixel) units.
#[derive(Debug, Clone, Copy, PartialEq, Eq, Structural)]
pub struct PhysicalSize {
    pub width: u32,
    pub height: u32,
}

/// A position in logical units.
#[derive(Debug, Clone, Copy, PartialEq, Eq, Structural)]
pub struct LogicalPosition {
    pub x: i32,
    pub y: i32,
}

/// A size as handed in by the user: either already logical, or physical and
/// still to be divided by the scale factor.
#[derive(Debug, Clone, Copy, PartialEq, Eq, Structural)]
pub enum Size {
    Logical(LogicalSize),
    Physical(PhysicalSize),
}

/// A scale factor is valid when it is positive and at most `SCALE_MAX`.
pub open spec fn valid_scale(scale: u32) -> bool {
    1 <= scale <= SCALE_MAX
}

/// Division rounded to the nearest integer, halves rounding up.
pub open spec fn round_div(n: int, d: int) -> int
    recommends
        n >= 0,
        d >= 1,
{
    (n + d / 2) / d
}

/// Clamp a mathematical integer into the `u32` range.
pub open spec fn sat_u32(n: int) -> u32 {
    if n > 0xffff_ffff {
        0xffff_ffffu32
    } else if n < 0 {
        0u32
    } else {
        n as u32
    }
}

/// One physical axis value brought to logical units: `v / (scale/120)`,
/// rounded to nearest and clamped into `u32`.
pub open spec fn spec_physical_to_logical(v: u32, scale: u32) -> u32 {
    sat_u32(round_div(v * SCALE_ONE, scale as int))
}

/// One logical axis value brought to physical units: `v * (scale/120)`,
/// rounded to nearest and clamped into `u32`.
pub open spec fn spec_logical_to_physical(v: u32, scale: u32) -> u32 {
    sat_u32(round_div(v * scale, SCALE_ONE as int))
}

/// Divide one physical axis value by the scale factor.
pub fn physical_to_logical(v: u32, scale: u32) -> (r: u32)
    requires
        valid_scale(scale),
    ensures
        r == spec_physical_to_logical(v, scale),
{
    proof {
        assert((v as u64) * (SCALE_ONE as u64) <= 0xffff_ffffu64 * 120u64) by (nonlinear_arith)
            requires
                v <= 0xffff_ffffu64,
                SCALE_ONE == 120u32,
        ;
    }
    let n: u64 = (v as u64) * (SCALE_ONE as u64) + (scale as u64) / 2;
    let q: u64 = n / (scale as u64);
    if q > 0xffff_ffffu64 {
        0xffff_ffffu32
    } else {
        q as u32
    }
}

/// Multiply one logical axis value by the scale factor.
pub fn logical_to_physical(v: u32, scale: u32) -> (r: u32)
    requires
        valid_scale(scale),
    ensures
        r == spec_logical_to_physical(v, scale),
{
    proof {
        assert((v as u64) * (scale as u64) <= 0xffff_ffffu64 * 120_000u64) by (nonlinear_arith)
            requires
                v <= 0xffff_ffffu64,
                scale <= 120_000u64,
        ;
    }
    let n: u64 = (v as u64) * (scale as u64) + (SCALE_ONE as u64) / 2;
    let q: u64 = n / (SCALE_ONE as u64);
    if q > 0xffff_ffffu64 {
        0xffff_ffffu32
    } else {
        q as u32
    }
}

/// What `Size::to_logical` returns.
pub open spec fn spec_size_to_logical(s: Size, scale: u32) -> LogicalSize {
    match s {
        Size::Logical(l) => l,
        Size::Physical(p) => LogicalSize {
            width: spec_physical_to_logical(p.width, scale),
            height: spec_physical_to_logical(p.height, scale),
        },
    }
}

/// A logical size rounded and clamped to physical units on both axes.
pub open spec fn spec_size_to_physical(s: LogicalSize, scale: u32) -> PhysicalSize {
    PhysicalSize {
        width: spec_logical_to_physical(s.width, scale),
        height: spec_logical_to_physical(s.height, scale),
    }
}

impl Size {
    /// Bring the size to logical units under the given scale factor.
    pub fn to_logical(&self, scale: u32) -> (r: LogicalSize)
        requires
            valid_scale(scale),
        ensures
            r == spec_size_to_logical(*self, scale),
    {
        match self {
            Size::Logical(l) => *l,
            Size::Physical(p) => LogicalSize {
                width: physical_to_logical(p.width, scale),
                height: physical_to_logical(p.height, scale),
            },
        }
    }
}

/// Bring a logical size to physical units under the given scale factor.
pub fn logical_to_physical_rounded(size: LogicalSize, scale: u32) -> (r: PhysicalSize)
    requires
        valid_scale(scale),
    ensures
        r == spec_size_to_physical(size, scale),
{
    PhysicalSize {
        width: logical_to_physical(size.width, scale),
        height: logical_to_physical(size.height, scale),
    }
}

} // verus!
