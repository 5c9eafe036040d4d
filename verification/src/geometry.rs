//! Window-target geometry: logical sizes, display scale factors, and the
//! derived physical size and aspect ratio.
//!
//! Logical lengths and scale factors are held in fixed point: a length or a
//! factor is a count of subunits, `SUBUNITS_PER_UNIT` of them to one logical
//! unit. Non-integer logical sizes (say, half a unit) are representable, and
//! equality of two sizes or factors is exact, which is what resize detection
//! relies on.

use vstd::prelude::*;

verus! {

/// Number of fixed-point subunits in one logical unit.
pub const SUBUNITS_PER_UNIT: u64 = 65536;

/// A logical window size, in fixed-point subunits per side.
#[derive(Clone, Copy, Debug, PartialEq, Eq, Structural)]
pub struct LogicalSize {
    pub width: u64,
    pub height: u64,
}

/// A display scale factor, in fixed-point subunits (so one logical unit is
/// `units / SUBUNITS_PER_UNIT` physical units).
#[derive(Clone, Copy, Debug, PartialEq, Eq, Structural)]
pub struct ScaleFactor {
    pub units: u64,
}

/// A physical window size. Each side is the exact product of a logical side
/// and a scale factor, so its unit is a subunit of a subunit: divide by
/// `SUBUNITS_PER_UNIT` twice to read it in whole physical units.
#[derive(Clone, Copy, Debug, PartialEq, Eq, Structural)]
pub struct PhysicalSize {
    pub width: u128,
    pub height: u128,
}

/// The exact ratio `numer : denom` of a window's logical width to its
/// logical height.
#[derive(Clone, Copy, Debug, PartialEq, Eq, Structural)]
pub struct AspectRatio {
    pub numer: u64,
    pub denom: u64,
}

/// The render targets the application draws into, together with the logical
/// size and scale factor they were created for. `color` and `depth` are the
/// embedder's target handles; this crate only carries them.
///
/// Invariant kept by the frame loop: the targets the application holds always
/// match the most recent size and factor whose swapchain resize succeeded.
#[derive(Clone, Copy, Debug)]
pub struct WindowTargets<C, D> {
    pub color: C,
    pub depth: D,
    pub size: LogicalSize,
    pub hidpi_factor: ScaleFactor,
}

impl LogicalSize {
    pub open spec fn aspect_ratio_spec(self) -> AspectRatio {
        AspectRatio { numer: self.width, denom: self.height }
    }

    pub open spec fn physical_size_spec(self, factor: ScaleFactor) -> PhysicalSize {
        PhysicalSize {
            width: (self.width * factor.units) as u128,
            height: (self.height * factor.units) as u128,
        }
    }

    /// The physical size of this logical size under `factor`: each side is
    /// exactly the logical side times the factor.
    pub fn to_physical(&self, factor: ScaleFactor) -> (r: PhysicalSize)
        ensures
            r == self.physical_size_spec(factor),
            r.width == self.width * factor.units,
            r.height == self.height * factor.units,
    {
        proof {
            lemma_u64_product_fits_u128(self.width, factor.units);
            lemma_u64_product_fits_u128(self.height, factor.units);
        }
        PhysicalSize {
            width: (self.width as u128) * (factor.units as u128),
            height: (self.height as u128) * (factor.units as u128),
        }
    }
}

/// The product of two 64-bit values always fits in 128 bits.
proof fn lemma_u64_product_fits_u128(a: u64, b: u64)
    ensures
        a * b <= u128::MAX,
{
    assert(a * b <= 0xffff_ffff_ffff_ffff * 0xffff_ffff_ffff_ffff) by (nonlinear_arith)
        requires
            a <= 0xffff_ffff_ffff_ffff,
            b <= 0xffff_ffff_ffff_ffff,
    ;
}

impl<C, D> WindowTargets<C, D> {
    pub fn new(color: C, depth: D, size: LogicalSize, hidpi_factor: ScaleFactor) -> (r: Self)
        ensures
            r == (WindowTargets { color, depth, size, hidpi_factor }),
    {
        WindowTargets { color, depth, size, hidpi_factor }
    }

    /// The exact ratio of logical width to logical height.
    pub fn aspect_ratio(&self) -> (r: AspectRatio)
        ensures
            r == self.size.aspect_ratio_spec(),
            r.numer == self.size.width,
            r.denom == self.size.height,
    {
        AspectRatio { numer: self.size.width, denom: self.size.height }
    }

    /// The logical size scaled by the scale factor, exactly.
    pub fn physical_size(&self) -> (r: PhysicalSize)
        ensures
            r == self.size.physical_size_spec(self.hidpi_factor),
            r.width == self.size.width * self.hidpi_factor.units,
            r.height == self.size.height * self.hidpi_factor.units,
    {
        self.size.to_physical(self.hidpi_factor)
    }
}

/// For a positive width and height, the aspect ratio equals width divided by
/// height as an exact rational: cross-multiplied, `numer * height ==
/// width * denom`, with a positive denominator.
pub proof fn lemma_aspect_ratio_is_width_over_height(size: LogicalSize)
    requires
        size.width > 0,
        size.height > 0,
    ensures
        size.aspect_ratio_spec().denom > 0,
        size.aspect_ratio_spec().numer * size.height == size.width * size.aspect_ratio_spec().denom,
{
}

/// The physical size is the logical size multiplied by the scale factor,
/// side by side.
pub proof fn lemma_physical_size_is_scaled(size: LogicalSize, factor: ScaleFactor)
    ensures
        size.physical_size_spec(factor).width == size.width * factor.units,
        size.physical_size_spec(factor).height == size.height * factor.units,
{
    lemma_u64_product_fits_u128(size.width, factor.units);
    lemma_u64_product_fits_u128(size.height, factor.units);
}

} // verus!
