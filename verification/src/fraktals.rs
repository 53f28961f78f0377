//! Descriptors: which fractal a fragment asks for, with its parameters.

use vstd::prelude::*;
use crate::complex::Complex;

verus! {

/// Parameters of the iterated `sin(z)` fractal.
#[derive(Debug, Clone, Copy, PartialEq, Eq, Structural)]
pub struct IteratedSinZDescriptor {
    /// Constant that each iterate is multiplied by.
    pub c: Complex,
}

/// Parameters of a Julia set.
#[derive(Debug, Clone, Copy, PartialEq, Eq, Structural)]
pub struct JuliaDescriptor {
    /// Constant added at each iteration.
    pub c: Complex,
    /// Bits of the squared escape radius, a binary64 value.
    pub divergence_threshold_square: u64,
}

/// The Mandelbrot set takes no parameter.
#[derive(Debug, Clone, Copy, PartialEq, Eq, Structural)]
pub struct MandelbrotDescriptor {}

/// Newton's method on `z^3 - 1` takes no parameter.
#[derive(Debug, Clone, Copy, PartialEq, Eq, Structural)]
pub struct NewtonRaphsonZ3Descriptor {}

/// Newton's method on `z^4 - 1` takes no parameter.
#[derive(Debug, Clone, Copy, PartialEq, Eq, Structural)]
pub struct NewtonRaphsonZ4Descriptor {}

/// The Nova variant on `z^3 - 1` takes no parameter.
#[derive(Debug, Clone, Copy, PartialEq, Eq, Structural)]
pub struct NovaNewtonRaphsonZ3Descriptor {}

/// The Nova variant on `z^4 - 1` takes no parameter.
#[derive(Debug, Clone, Copy, PartialEq, Eq, Structural)]
pub struct NovaNewtonRaphsonZ4Descriptor {}

/// The closed set of fractals that a task can name.
#[derive(Debug, Clone, Copy, PartialEq, Eq, Structural)]
pub enum FractalDescriptor {
    /// Julia set.
    Julia(JuliaDescriptor),
    /// Iterated `sin(z)`.
    IteratedSinZ(IteratedSinZDescriptor),
    /// Mandelbrot set.
    Mandelbrot(MandelbrotDescriptor),
    /// Newton's method on `z^3 - 1`.
    NewtonRaphsonZ3(NewtonRaphsonZ3Descriptor),
    /// Newton's method on `z^4 - 1`.
    NewtonRaphsonZ4(NewtonRaphsonZ4Descriptor),
    /// Nova variant on `z^3 - 1`.
    NovaNewtonZ3(NovaNewtonRaphsonZ3Descriptor),
    /// Nova variant on `z^4 - 1`.
    NovaNewtonZ4(NovaNewtonRaphsonZ4Descriptor),
}

} // verus!
