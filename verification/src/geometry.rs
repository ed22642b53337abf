//! Pixel-unit geometry for the compositor/host boundary.
//!
//! Two incompatible pixel spaces cross this boundary: density-independent
//! "px" units and device (hardware) pixels. The conversion factor between
//! them is the hidpi factor, kept here as an exact positive rational so that
//! the relation `size * hidpi_factor == framebuffer_size` can be stated and
//! proved precisely: the device-pixel image of a length is its scaled value
//! rounded down, and the rounding error is strictly less than one unit.

use vstd::prelude::*;
use vstd::arithmetic::div_mod::lemma_div_is_ordered;
use vstd::arithmetic::div_mod::lemma_div_multiples_vanish;
use vstd::arithmetic::div_mod::lemma_fundamental_div_mod;
use vstd::arithmetic::div_mod::lemma_mod_division_less_than_divisor;
use vstd::arithmetic::mul::lemma_mul_inequality;
use vstd::arithmetic::mul::lemma_mul_is_commutative;
use vstd::arithmetic::mul::lemma_mul_upper_bound;

verus! {

/// A point in device-pixel space, as delivered with mouse, touch and scroll
/// events.
#[derive(Clone, Copy, Debug, PartialEq, Eq, Structural)]
pub struct DevicePoint {
    pub x: i32,
    pub y: i32,
}

/// A size in device (hardware) pixels, e.g. the framebuffer size.
#[derive(Clone, Copy, Debug, PartialEq, Eq, Structural)]
pub struct DeviceSize {
    pub width: u32,
    pub height: u32,
}

/// The position and size of the window within the rendering area, in device
/// pixels.
#[derive(Clone, Copy, Debug, PartialEq, Eq, Structural)]
pub struct DeviceRect {
    pub x: u32,
    pub y: u32,
    pub width: u32,
    pub height: u32,
}

/// A size in density-independent "px" units.
#[derive(Clone, Copy, Debug, PartialEq, Eq, Structural)]
pub struct DipSize {
    pub width: u32,
    pub height: u32,
}

/// The on-screen position of a window; may be negative when the window lies
/// partly outside the visible area.
#[derive(Clone, Copy, Debug, PartialEq, Eq, Structural)]
pub struct WindowPosition {
    pub x: i32,
    pub y: i32,
}

/// An exact positive rational scale: `num / den`.
///
/// Used both for the hidpi factor (device pixels per density-independent
/// pixel) and for zoom requests, where an exact ratio stands in for an
/// inexact scale value.
#[derive(Clone, Copy, Debug, PartialEq, Eq, Structural)]
pub struct ScaleFactor {
    pub num: u32,
    pub den: u32,
}

impl ScaleFactor {
    /// A usable scale has a positive numerator and denominator.
    pub open spec fn wf(self) -> bool {
        self.num >= 1 && self.den >= 1
    }

    pub fn new(num: u32, den: u32) -> (r: ScaleFactor)
        requires
            num >= 1,
            den >= 1,
        ensures
            r == (ScaleFactor { num, den }),
            r.wf(),
    {
        ScaleFactor { num, den }
    }

    /// The identity scale: one device pixel per density-independent pixel.
    pub fn identity() -> (r: ScaleFactor)
        ensures
            r == (ScaleFactor { num: 1u32, den: 1u32 }),
            r.wf(),
    {
        ScaleFactor { num: 1, den: 1 }
    }
}

/// The device-pixel image of a density-independent length under `f`:
/// the scaled value rounded down to a whole device pixel.
pub open spec fn scaled_len(dip: u32, f: ScaleFactor) -> int
    recommends
        f.wf(),
{
    (dip * f.num) / (f.den as int)
}

/// The density-independent length covering `dev` device pixels under `f`,
/// rounded down, and saturated so that it fits a `u32`.
pub open spec fn inverse_scaled_len(dev: u32, f: ScaleFactor) -> int
    recommends
        f.wf(),
{
    if (dev * f.den) / (f.num as int) > u32::MAX {
        u32::MAX as int
    } else {
        (dev * f.den) / (f.num as int)
    }
}

/// A density-independent length whose device-pixel image fits in a `u32`.
pub open spec fn dip_len_in_range(dip: u32, f: ScaleFactor) -> bool {
    dip * f.num <= u32::MAX * f.den
}

pub open spec fn dip_size_in_range(dip: DipSize, f: ScaleFactor) -> bool {
    dip_len_in_range(dip.width, f) && dip_len_in_range(dip.height, f)
}

/// The device-pixel size of a density-independent size.
pub open spec fn scaled_size(dip: DipSize, f: ScaleFactor) -> DeviceSize
    recommends
        f.wf(),
        dip_size_in_range(dip, f),
{
    DeviceSize { width: scaled_len(dip.width, f) as u32, height: scaled_len(dip.height, f) as u32 }
}

/// Unit-space integrity: `fb` is exactly the device-pixel image of `dip`
/// under `f`, i.e. the size in density-independent units times the hidpi
/// factor, rounded down.
pub open spec fn units_consistent(dip: DipSize, f: ScaleFactor, fb: DeviceSize) -> bool {
    fb.width == scaled_len(dip.width, f) && fb.height == scaled_len(dip.height, f)
}

/// The scaled length is within one rounding step of the exact product:
/// `fb * den <= dip * num < (fb + 1) * den`, so `fb` differs from the exact
/// quotient `dip * num / den` by less than one device pixel.
pub proof fn lemma_scaled_len_tolerance(dip: u32, f: ScaleFactor)
    requires
        f.wf(),
    ensures
        scaled_len(dip, f) * f.den <= dip * f.num,
        dip * f.num - scaled_len(dip, f) * f.den < f.den,
{
    let a = dip * f.num;
    let d = f.den as int;
    lemma_fundamental_div_mod(a, d);
    lemma_mod_division_less_than_divisor(a, d);
    lemma_mul_is_commutative(d, a / d);
}

/// Unit-space integrity restated as a rounding tolerance: a consistent
/// framebuffer size, multiplied back out by the denominator of the scale,
/// equals the density-independent size times the numerator, up to an error
/// strictly below one denominator step in each dimension.
pub proof fn lemma_units_within_tolerance(dip: DipSize, f: ScaleFactor, fb: DeviceSize)
    requires
        f.wf(),
        units_consistent(dip, f, fb),
    ensures
        fb.width * f.den <= dip.width * f.num,
        dip.width * f.num - fb.width * f.den < f.den,
        fb.height * f.den <= dip.height * f.num,
        dip.height * f.num - fb.height * f.den < f.den,
{
    lemma_scaled_len_tolerance(dip.width, f);
    lemma_scaled_len_tolerance(dip.height, f);
}

/// Convert one density-independent length to device pixels.
pub fn scale_dip_len(dip: u32, f: ScaleFactor) -> (r: u32)
    requires
        f.wf(),
        dip_len_in_range(dip, f),
    ensures
        r == scaled_len(dip, f),
{
    proof {
        lemma_mul_upper_bound(dip as int, u32::MAX as int, f.num as int, u32::MAX as int);
        lemma_mul_upper_bound(u32::MAX as int, u32::MAX as int, f.den as int, u32::MAX as int);
        lemma_div_is_ordered(dip * f.num, u32::MAX * f.den, f.den as int);
        lemma_mul_is_commutative(u32::MAX as int, f.den as int);
        lemma_div_multiples_vanish(u32::MAX as int, f.den as int);
    }
    let p: u64 = (dip as u64) * (f.num as u64);
    let q: u64 = p / (f.den as u64);
    q as u32
}

/// Convert a density-independent size to device pixels: the framebuffer size
/// that a window of this size has under hidpi factor `f`.
pub fn dip_to_device(dip: DipSize, f: ScaleFactor) -> (fb: DeviceSize)
    requires
        f.wf(),
        dip_size_in_range(dip, f),
    ensures
        fb == scaled_size(dip, f),
        units_consistent(dip, f, fb),
{
    DeviceSize { width: scale_dip_len(dip.width, f), height: scale_dip_len(dip.height, f) }
}

/// Convert one device-pixel length back to density-independent units,
/// rounding down and saturating at `u32::MAX`.
pub fn inverse_scale_len(dev: u32, f: ScaleFactor) -> (r: u32)
    requires
        f.wf(),
    ensures
        r == inverse_scaled_len(dev, f),
{
    proof {
        lemma_mul_upper_bound(dev as int, u32::MAX as int, f.den as int, u32::MAX as int);
        lemma_mul_upper_bound(u32::MAX as int, u32::MAX as int, u32::MAX as int, u32::MAX as int);
    }
    let p: u64 = (dev as u64) * (f.den as u64);
    let q: u64 = p / (f.num as u64);
    if q > 0xffff_ffff {
        u32::MAX
    } else {
        q as u32
    }
}

/// The saturated inverse image always lies back in range: scaling it up
/// again stays within `u32`. This is what lets a backend accept any
/// requested device-pixel size and degrade silently by clamping.
pub proof fn lemma_inverse_scaled_in_range(dev: u32, f: ScaleFactor)
    requires
        f.wf(),
    ensures
        inverse_scaled_len(dev, f) * f.num <= u32::MAX * f.den,
{
    let a = dev * f.den;
    let n = f.num as int;
    let q = a / n;
    lemma_fundamental_div_mod(a, n);
    lemma_mod_division_less_than_divisor(a, n);
    lemma_mul_is_commutative(n, q);
    if q > u32::MAX {
        // Saturation: u32::MAX * num <= q * num <= a = dev * den <= u32::MAX * den.
        lemma_mul_inequality(u32::MAX as int, q, n);
        lemma_mul_is_commutative(u32::MAX as int, n);
        lemma_mul_upper_bound(dev as int, u32::MAX as int, f.den as int, f.den as int);
    } else {
        // No saturation: q * num <= a = dev * den <= u32::MAX * den.
        lemma_mul_upper_bound(dev as int, u32::MAX as int, f.den as int, f.den as int);
    }
}

/// Convert a device-pixel size back to density-independent units.
pub fn device_to_dip(dev: DeviceSize, f: ScaleFactor) -> (dip: DipSize)
    requires
        f.wf(),
    ensures
        dip.width == inverse_scaled_len(dev.width, f),
        dip.height == inverse_scaled_len(dev.height, f),
        dip_size_in_range(dip, f),
{
    proof {
        lemma_inverse_scaled_in_range(dev.width, f);
        lemma_inverse_scaled_in_range(dev.height, f);
    }
    DipSize { width: inverse_scale_len(dev.width, f), height: inverse_scale_len(dev.height, f) }
}

} // verus!
