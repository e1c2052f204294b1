//! The clear color and its derivation from the pointer position.
//!
//! The platform reports pointer positions and surface dimensions as machine
//! integers, and every channel the renderer derives from them is a quotient
//! of such values. Channels are therefore kept as exact integer ratios; the
//! host harness divides them out only at the moment it hands the color to
//! the GPU backend.

use vstd::prelude::*;

verus! {

/// An exact ratio `num / den`; the denominator is always nonzero.
#[derive(Clone, Copy, Debug, PartialEq, Eq, Structural)]
pub struct Ratio {
    pub num: u64,
    pub den: u64,
}

impl Ratio {
    /// A ratio is well formed when its denominator is nonzero.
    pub open spec fn wf(self) -> bool {
        self.den > 0
    }

    /// The ratio lies in the unit interval `[0, 1]`.
    pub open spec fn in_unit(self) -> bool {
        self.num <= self.den
    }
}

/// The ratio one, the fixed alpha channel.
pub open spec fn ratio_one() -> Ratio {
    Ratio { num: 1, den: 1 }
}

/// The clear color: four normalized channels, each a ratio in `[0, 1]`.
/// Alpha is always one (fully opaque) in this system.
#[derive(Clone, Copy, Debug, PartialEq, Eq, Structural)]
pub struct ClearColor {
    pub r: Ratio,
    pub g: Ratio,
    pub b: Ratio,
    pub a: Ratio,
}

impl ClearColor {
    /// Every channel has a nonzero denominator and alpha is exactly one.
    pub open spec fn wf(self) -> bool {
        &&& self.r.wf()
        &&& self.g.wf()
        &&& self.b.wf()
        &&& self.a == ratio_one()
    }

    /// All four channels lie in `[0, 1]`.
    pub open spec fn in_unit(self) -> bool {
        &&& self.r.in_unit()
        &&& self.g.in_unit()
        &&& self.b.in_unit()
        &&& self.a.in_unit()
    }
}

/// The color the renderer starts from before any pointer event arrives.
pub open spec fn initial_color() -> ClearColor {
    ClearColor {
        r: Ratio { num: 1, den: 10 },
        g: Ratio { num: 2, den: 10 },
        b: Ratio { num: 3, den: 10 },
        a: ratio_one(),
    }
}

/// The color derived from pointer position `(x, y)` on a `width x height`
/// surface: `r = x/width`, `g = y/height`, `b = (x*y)/(width*height)`, `a = 1`.
pub open spec fn pointer_color(x: u32, y: u32, width: u32, height: u32) -> ClearColor {
    ClearColor {
        r: Ratio { num: x as u64, den: width as u64 },
        g: Ratio { num: y as u64, den: height as u64 },
        b: Ratio {
            num: ((x as int) * (y as int)) as u64,
            den: ((width as int) * (height as int)) as u64,
        },
        a: ratio_one(),
    }
}

/// The product of two values below 2^32 fits in a `u64`.
proof fn lemma_u32_product_fits(a: u64, b: u64) by (nonlinear_arith)
    requires
        a < 0x1_0000_0000,
        b < 0x1_0000_0000,
    ensures
        a * b < 0x1_0000_0000_0000_0000,
{
}

/// Multiplication is monotone on nonnegative bounds.
proof fn lemma_mul_le(a: int, b: int, c: int, d: int) by (nonlinear_arith)
    requires
        0 <= a <= c,
        0 <= b <= d,
    ensures
        a * b <= c * d,
{
}

/// Pure clear-color state, mutated in place on every pointer-move event and
/// read once per frame.
#[derive(Clone, Copy, Debug, PartialEq, Eq, Structural)]
pub struct ColorState {
    pub clear_color: ClearColor,
}

impl ColorState {
    /// Starts from the fixed initial color.
    pub fn new() -> (s: ColorState)
        ensures
            s.clear_color == initial_color(),
            s.clear_color.wf(),
    {
        ColorState {
            clear_color: ClearColor {
                r: Ratio { num: 1, den: 10 },
                g: Ratio { num: 2, den: 10 },
                b: Ratio { num: 3, den: 10 },
                a: Ratio { num: 1, den: 1 },
            },
        }
    }

    /// Derives the clear color from the last known pointer position and the
    /// surface dimensions. Pure in its inputs; the caller guarantees nonzero
    /// dimensions (the surface configuration's resize invariant enforces
    /// this). For positions within the surface, every channel lies in
    /// `[0, 1]`.
    pub fn apply_pointer_position(&mut self, x: u32, y: u32, width: u32, height: u32)
        requires
            width > 0,
            height > 0,
        ensures
            final(self).clear_color == pointer_color(x, y, width, height),
            final(self).clear_color.wf(),
            x <= width && y <= height ==> final(self).clear_color.in_unit(),
    {
        proof {
            lemma_u32_product_fits(x as u64, y as u64);
            lemma_u32_product_fits(width as u64, height as u64);
            lemma_mul_le(1, 1, width as int, height as int);
            if x <= width && y <= height {
                lemma_mul_le(x as int, y as int, width as int, height as int);
            }
        }
        self.clear_color = ClearColor {
            r: Ratio { num: x as u64, den: width as u64 },
            g: Ratio { num: y as u64, den: height as u64 },
            b: Ratio { num: (x as u64) * (y as u64), den: (width as u64) * (height as u64) },
            a: Ratio { num: 1, den: 1 },
        };
    }
}

} // verus!
