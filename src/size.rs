use vstd::prelude::*;

verus! {

/// A size in physical pixels, as the window system reports it.
#[derive(Clone, Copy, Debug, PartialEq, Eq, Structural)]
pub struct PhysicalSize {
    pub width: u32,
    pub height: u32,
}

impl PhysicalSize {
    pub fn new(width: u32, height: u32) -> (r: PhysicalSize)
        ensures
            r.width == width,
            r.height == height,
    {
        PhysicalSize { width, height }
    }

    /// Both dimensions are strictly positive: a surface of this size can be
    /// configured.
    pub open spec fn positive(self) -> bool {
        self.width > 0 && self.height > 0
    }

    pub fn is_positive(&self) -> (r: bool)
        ensures
            r == self.positive(),
    {
        self.width > 0 && self.height > 0
    }
}

/// How a physical window size maps to the size of the render target.
///
/// `Physical` uses the physical size unchanged. `Logical` divides it by the
/// window's scale factor, given as the fraction `numerator / denominator`,
/// truncating toward zero (platforms that scale the viewport on their own).
#[derive(Clone, Copy, Debug, PartialEq, Eq, Structural)]
pub enum ScalePolicy {
    Physical,
    Logical { numerator: u32, denominator: u32 },
}

/// One dimension divided by the scale factor `num / den`, truncated toward
/// zero, saturating at the largest `u32`.
pub open spec fn scaled_dim(d: nat, num: nat, den: nat) -> nat
    recommends
        num > 0,
{
    let q = (d * den) / num;
    if q > u32::MAX {
        u32::MAX as nat
    } else {
        q
    }
}

/// One logical dimension in physical pixels at the scale factor
/// `num / den`: `d * num / den` rounded to the nearest integer, halves away
/// from zero, saturating at the largest `u32`.
pub open spec fn physical_dim(d: nat, num: nat, den: nat) -> nat
    recommends
        den > 0,
{
    let p = d * num;
    let q = p / den + if 2 * (p % den) >= den {
        1nat
    } else {
        0nat
    };
    if q > u32::MAX {
        u32::MAX as nat
    } else {
        q
    }
}

/// A logical size in physical pixels at the scale factor `num / den`.
pub open spec fn physical_size_of(width: u32, height: u32, num: u32, den: u32) -> PhysicalSize
    recommends
        den > 0,
{
    PhysicalSize {
        width: physical_dim(width as nat, num as nat, den as nat) as u32,
        height: physical_dim(height as nat, num as nat, den as nat) as u32,
    }
}

/// Re-expresses a logical size in physical pixels at the scale factor
/// `numerator / denominator`.
pub fn to_physical(width: u32, height: u32, numerator: u32, denominator: u32) -> (r: PhysicalSize)
    requires
        denominator > 0,
    ensures
        r == physical_size_of(width, height, numerator, denominator),
{
    PhysicalSize {
        width: to_physical_dim(width, numerator, denominator),
        height: to_physical_dim(height, numerator, denominator),
    }
}

fn to_physical_dim(d: u32, num: u32, den: u32) -> (r: u32)
    requires
        den > 0,
    ensures
        r as nat == physical_dim(d as nat, num as nat, den as nat),
{
    proof {
        assert((d as nat) * (num as nat) <= (u32::MAX as nat) * (u32::MAX as nat)) by (nonlinear_arith)
            requires
                d <= u32::MAX,
                num <= u32::MAX,
        ;
    }
    let p: u64 = d as u64 * num as u64;
    let q: u64 = p / den as u64;
    let rem: u64 = p % den as u64;
    let up: bool = 2 * rem >= den as u64;
    if q > u32::MAX as u64 {
        u32::MAX
    } else if up {
        if q == u32::MAX as u64 {
            u32::MAX
        } else {
            (q + 1) as u32
        }
    } else {
        q as u32
    }
}

impl ScalePolicy {
    /// A usable policy: a logical scale factor is a positive fraction.
    pub open spec fn valid(self) -> bool {
        match self {
            ScalePolicy::Physical => true,
            ScalePolicy::Logical { numerator, denominator } => numerator > 0 && denominator > 0,
        }
    }

    /// The render-target size for a physical window size.
    pub open spec fn extent_of(self, size: PhysicalSize) -> PhysicalSize {
        match self {
            ScalePolicy::Physical => size,
            ScalePolicy::Logical { numerator, denominator } => PhysicalSize {
                width: scaled_dim(size.width as nat, numerator as nat, denominator as nat) as u32,
                height: scaled_dim(size.height as nat, numerator as nat, denominator as nat) as u32,
            },
        }
    }

    /// Computes the render-target size for a physical window size.
    pub fn extent(&self, size: PhysicalSize) -> (r: PhysicalSize)
        requires
            self.valid(),
        ensures
            r == self.extent_of(size),
    {
        match self {
            ScalePolicy::Physical => size,
            ScalePolicy::Logical { numerator, denominator } => PhysicalSize {
                width: scale_dim(size.width, *numerator, *denominator),
                height: scale_dim(size.height, *numerator, *denominator),
            },
        }
    }
}

fn scale_dim(d: u32, num: u32, den: u32) -> (r: u32)
    requires
        num > 0,
    ensures
        r as nat == scaled_dim(d as nat, num as nat, den as nat),
{
    proof {
        assert((d as nat) * (den as nat) <= (u32::MAX as nat) * (u32::MAX as nat)) by (nonlinear_arith)
            requires
                d <= u32::MAX,
                den <= u32::MAX,
        ;
    }
    let wide: u64 = d as u64 * den as u64;
    let q: u64 = wide / num as u64;
    if q > u32::MAX as u64 {
        u32::MAX
    } else {
        q as u32
    }
}

} // verus!
