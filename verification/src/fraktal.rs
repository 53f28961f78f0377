//! The generators: one per fractal that can be computed. A generator holds
//! what its algorithm needs beyond the task itself.

use vstd::prelude::*;
use crate::complex::Complex;

verus! {

/// Generator of Julia sets: iterates `z = z^2 + c` from the pixel's
/// coordinate, with `c` and the escape radius taken from the descriptor.
#[derive(Debug, Clone, Copy, PartialEq, Eq, Structural)]
pub struct FractalJulia {}

/// Generator of the Mandelbrot set: iterates `z = z^2 + c` from zero, with
/// `c` the pixel's coordinate.
#[derive(Debug, Clone, Copy, PartialEq, Eq, Structural)]
pub struct FractalMandelbrot {}

/// Generator of the iterated sine: iterates `z = sin(z) * c` from the pixel's
/// coordinate.
#[derive(Debug, Clone, Copy, PartialEq, Eq, Structural)]
pub struct IteratedSinZ {
    /// The constant that each iterate is multiplied by.
    pub c: Complex,
}

/// Generator of Newton's method on `z^3 - 1`.
#[derive(Debug, Clone, Copy, PartialEq, Eq, Structural)]
pub struct NewtonRaphsonZ3Fractal {}

/// The generators, as one closed type.
#[derive(Debug, Clone, Copy, PartialEq, Eq, Structural)]
pub enum Generator {
    /// Julia sets.
    Julia(FractalJulia),
    /// The Mandelbrot set.
    Mandelbrot(FractalMandelbrot),
    /// The iterated sine.
    IteratedSinZ(IteratedSinZ),
    /// Newton's method on `z^3 - 1`.
    NewtonRaphsonZ3(NewtonRaphsonZ3Fractal),
}

impl FractalJulia {
    /// The generator of Julia sets.
    pub fn new() -> (g: FractalJulia)
        ensures
            g == (FractalJulia {  }),
    {
        FractalJulia {  }
    }
}

impl FractalMandelbrot {
    /// The generator of the Mandelbrot set.
    pub fn new() -> (g: FractalMandelbrot)
        ensures
            g == (FractalMandelbrot {  }),
    {
        FractalMandelbrot {  }
    }
}

impl IteratedSinZ {
    /// The generator of the iterated sine with constant `c`.
    pub fn new(c: Complex) -> (g: IteratedSinZ)
        ensures
            g.c == c,
    {
        IteratedSinZ { c }
    }
}

/// The bit that holds the sign of a binary64 value.
pub const SIGN_BIT: u64 = 0x8000_0000_0000_0000;

/// The bits of positive infinity; a larger magnitude is no number.
pub const INFINITY_BITS: u64 = 0x7ff0_0000_0000_0000;

/// The bits of `4.0`: the squared radius beyond which the Mandelbrot
/// iteration has escaped.
pub const ESCAPE_RADIUS_SQUARE: u64 = 0x4010_0000_0000_0000;

/// The bits of `50.0`: the squared magnitude at which the iterated sine
/// stops.
pub const SINE_BOUND: u64 = 0x4049_0000_0000_0000;

/// The bits of `1e-6`: the squared step below which Newton's method has
/// converged.
pub const NEWTON_TOLERANCE: u64 = 0x3eb0_c6f7_a0b5_ed8d;

/// The bits of `1.0`.
pub const ONE: u64 = 0x3ff0_0000_0000_0000;

/// The bits of `-0.5`.
pub const MINUS_HALF: u64 = 0xbfe0_0000_0000_0000;

/// The bits of the square root of three, halved.
pub const HALF_ROOT_THREE: u64 = 0x3feb_b67a_e858_4caa;

/// The bits of a binary64 value without its sign.
pub open spec fn magnitude(bits: u64) -> int {
    bits as int % SIGN_BIT as int
}

/// Whether the bits are those of a NaN: every exponent bit set and some
/// fraction bit set.
pub open spec fn is_nan(bits: u64) -> bool {
    magnitude(bits) > INFINITY_BITS
}

/// Where the value of the bits stands among the numbers: values that are
/// no NaN are ordered as these integers are, and both zeros stand at 0.
pub open spec fn rank(bits: u64) -> int {
    if bits >= SIGN_BIT {
        -magnitude(bits)
    } else {
        magnitude(bits)
    }
}

/// Whether the value of `a` is less than the value of `b`, as binary64
/// values compare: a NaN is less than nothing and nothing is less than it.
pub open spec fn less(a: u64, b: u64) -> bool {
    !is_nan(a) && !is_nan(b) && rank(a) < rank(b)
}

/// Whether the value of `a` is less than or equal to the value of `b`, as
/// binary64 values compare.
pub open spec fn at_most(a: u64, b: u64) -> bool {
    !is_nan(a) && !is_nan(b) && rank(a) <= rank(b)
}

/// Index of the least of three distances as a left-to-right search finds
/// it: a later distance takes over only if it is less than the least so
/// far.
pub open spec fn closest_of(d: Seq<u64>) -> int
    recommends
        d.len() == 3,
{
    let first = if less(d[1], d[0]) {
        1int
    } else {
        0int
    };
    if less(d[2], d[first]) {
        2int
    } else {
        first
    }
}

/// Tells whether the value of `a` is less than the value of `b`, both given
/// by their binary64 bits.
pub fn is_less(a: u64, b: u64) -> (r: bool)
    ensures
        r == less(a, b),
{
    let ma: u64 = a % SIGN_BIT;
    let mb: u64 = b % SIGN_BIT;
    if ma > INFINITY_BITS || mb > INFINITY_BITS {
        return false;
    }
    if a >= SIGN_BIT {
        if b >= SIGN_BIT {
            ma > mb
        } else {
            ma > 0 || mb > 0
        }
    } else {
        if b >= SIGN_BIT {
            false
        } else {
            ma < mb
        }
    }
}

/// Tells whether the value of `a` is less than or equal to the value of
/// `b`, both given by their binary64 bits.
pub fn is_at_most(a: u64, b: u64) -> (r: bool)
    ensures
        r == at_most(a, b),
{
    let ma: u64 = a % SIGN_BIT;
    let mb: u64 = b % SIGN_BIT;
    if ma > INFINITY_BITS || mb > INFINITY_BITS {
        return false;
    }
    if a >= SIGN_BIT {
        if b >= SIGN_BIT {
            ma >= mb
        } else {
            true
        }
    } else {
        if b >= SIGN_BIT {
            ma == 0 && mb == 0
        } else {
            ma <= mb
        }
    }
}

impl FractalMandelbrot {
    /// Tells whether the iteration goes on from a point of squared
    /// magnitude `norm`: as long as the magnitude has not passed the escape
    /// radius. A magnitude that is no number ends the iteration.
    pub fn continues(norm: u64) -> (b: bool)
        ensures
            b == at_most(norm, ESCAPE_RADIUS_SQUARE),
    {
        is_at_most(norm, ESCAPE_RADIUS_SQUARE)
    }
}

impl FractalJulia {
    /// Tells whether the iteration goes on from a point of squared
    /// magnitude `norm`: as long as the magnitude has not passed the
    /// descriptor's threshold. A magnitude or a threshold that is no number
    /// ends the iteration.
    pub fn continues(norm: u64, divergence_threshold_square: u64) -> (b: bool)
        ensures
            b == at_most(norm, divergence_threshold_square),
    {
        is_at_most(norm, divergence_threshold_square)
    }
}

impl IteratedSinZ {
    /// Tells whether the iteration goes on from a point of squared
    /// magnitude `norm`: as long as the magnitude is below the bound. A
    /// magnitude that is no number ends the iteration.
    pub fn continues(norm: u64) -> (b: bool)
        ensures
            b == less(norm, SINE_BOUND),
    {
        is_less(norm, SINE_BOUND)
    }
}

impl NewtonRaphsonZ3Fractal {
    /// The roots of `z^3 - 1`, in the order in which they are numbered:
    /// `1`, `-1/2 + i*sqrt(3)/2`, `-1/2 - i*sqrt(3)/2`.
    pub fn known_roots() -> (roots: [Complex; 3])
        ensures
            roots@ == seq![
                (Complex { re: ONE, im: 0 }),
                (Complex { re: MINUS_HALF, im: HALF_ROOT_THREE }),
                (Complex { re: MINUS_HALF, im: (HALF_ROOT_THREE + SIGN_BIT) as u64 }),
            ],
    {
        let roots = [
            Complex::new(ONE, 0),
            Complex::new(MINUS_HALF, HALF_ROOT_THREE),
            Complex::new(MINUS_HALF, HALF_ROOT_THREE + SIGN_BIT),
        ];
        assert(roots@ =~= seq![
            (Complex { re: ONE, im: 0 }),
            (Complex { re: MINUS_HALF, im: HALF_ROOT_THREE }),
            (Complex { re: MINUS_HALF, im: (HALF_ROOT_THREE + SIGN_BIT) as u64 }),
        ]);
        roots
    }

    /// Tells whether a step of squared length `step_norm` ends the
    /// iteration: when it is below the tolerance.
    pub fn converged(step_norm: u64) -> (b: bool)
        ensures
            b == less(step_norm, NEWTON_TOLERANCE),
    {
        is_less(step_norm, NEWTON_TOLERANCE)
    }

    /// The generator of Newton's method on `z^3 - 1`.
    pub fn new() -> (g: NewtonRaphsonZ3Fractal)
        ensures
            g == (NewtonRaphsonZ3Fractal {  }),
    {
        NewtonRaphsonZ3Fractal {  }
    }

    /// Index of the root closest to a point, given the bits of the point's
    /// squared distance to each of the three roots. Of two roots equally
    /// close, the one with the lower index is chosen.
    pub fn closest_root_index(distances: &[u64; 3]) -> (index: usize)
        ensures
            index == closest_of(distances@),
            index < 3,
    {
        let mut min_index: usize = 0;
        let mut min_dist: u64 = distances[0];
        if is_less(distances[1], min_dist) {
            min_index = 1;
            min_dist = distances[1];
        }
        if is_less(distances[2], min_dist) {
            min_index = 2;
        }
        min_index
    }
}

/// Where no distance is a NaN, the chosen root is a closest one, and every
/// root before it is farther: ties go to the lowest index.
pub proof fn lemma_closest_is_least(d: Seq<u64>)
    requires
        d.len() == 3,
        !is_nan(d[0]),
        !is_nan(d[1]),
        !is_nan(d[2]),
    ensures
        0 <= closest_of(d) < 3,
        forall|j: int| 0 <= j < 3 ==> rank(d[closest_of(d)]) <= rank(#[trigger] d[j]),
        forall|j: int| 0 <= j < closest_of(d) ==> rank(d[closest_of(d)]) < rank(#[trigger] d[j]),
{
}

/// Comparing by bits is a strict order on the values that are no NaN: no
/// value is less than itself, and less-than carries over.
pub proof fn lemma_less_is_strict_order(a: u64, b: u64, c: u64)
    ensures
        !less(a, a),
        less(a, b) ==> !less(b, a),
        less(a, b) && less(b, c) ==> less(a, c),
{
}

/// Counts the iterations spent on one pixel against the task's cap. The
/// count never exceeds the cap.
#[derive(Debug, Clone, Copy)]
pub struct IterationBudget {
    count: u32,
    max_iteration: u32,
}

impl IterationBudget {
    #[verifier::type_invariant]
    spec fn within_cap(self) -> bool {
        self.count <= self.max_iteration
    }

    /// Iterations spent so far.
    pub closed spec fn spent(&self) -> nat {
        self.count as nat
    }

    /// The cap.
    pub closed spec fn cap(&self) -> nat {
        self.max_iteration as nat
    }

    /// A fresh budget: nothing spent.
    pub fn new(max_iteration: u32) -> (b: IterationBudget)
        ensures
            b.spent() == 0,
            b.cap() == max_iteration,
    {
        IterationBudget { count: 0, max_iteration }
    }

    /// Iterations spent so far: never more than the cap.
    pub fn count(&self) -> (n: u32)
        ensures
            n == self.spent(),
            n <= self.cap(),
    {
        proof {
            use_type_invariant(self);
        }
        self.count
    }

    /// The cap.
    pub fn max_iteration(&self) -> (n: u32)
        ensures
            n == self.cap(),
    {
        self.max_iteration
    }

    /// Tells whether another iteration may be spent.
    pub fn has_left(&self) -> (b: bool)
        ensures
            b == (self.spent() < self.cap()),
    {
        self.count < self.max_iteration
    }

    /// Spends one iteration if one is left, and tells whether it did. What
    /// is left goes down by one each time this returns `true`, so a loop
    /// that spends before each step takes at most `max_iteration` steps.
    pub fn spend(&mut self) -> (spent: bool)
        ensures
            final(self).cap() == old(self).cap(),
            spent == (old(self).spent() < old(self).cap()),
            final(self).spent() == old(self).spent() + if spent {
                1nat
            } else {
                0nat
            },
    {
        if self.count < self.max_iteration {
            self.count = self.count + 1;
            true
        } else {
            false
        }
    }
}

} // verus!
