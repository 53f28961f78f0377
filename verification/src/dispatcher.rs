//! From a descriptor to the generator that computes it.

use vstd::prelude::*;
use crate::error::WorkerError;
use crate::fraktal::{FractalJulia, FractalMandelbrot, Generator, IteratedSinZ, NewtonRaphsonZ3Fractal};
use crate::fraktals::FractalDescriptor;

verus! {

/// The generator of a descriptor, where there is one: Julia, Mandelbrot, the
/// iterated sine and Newton's method on `z^3 - 1` can be computed, the other
/// three cannot.
pub open spec fn generator_of(descriptor: FractalDescriptor) -> Option<Generator> {
    match descriptor {
        FractalDescriptor::Julia(_) => Some(Generator::Julia(FractalJulia {  })),
        FractalDescriptor::Mandelbrot(_) => Some(Generator::Mandelbrot(FractalMandelbrot {  })),
        FractalDescriptor::IteratedSinZ(d) => Some(Generator::IteratedSinZ(IteratedSinZ { c: d.c })),
        FractalDescriptor::NewtonRaphsonZ3(_) => Some(
            Generator::NewtonRaphsonZ3(NewtonRaphsonZ3Fractal {  }),
        ),
        FractalDescriptor::NewtonRaphsonZ4(_) => None,
        FractalDescriptor::NovaNewtonZ3(_) => None,
        FractalDescriptor::NovaNewtonZ4(_) => None,
    }
}

/// Whether a descriptor names a fractal that can be computed.
pub open spec fn is_supported(descriptor: FractalDescriptor) -> bool {
    generator_of(descriptor).is_some()
}

/// Picks the generator of a descriptor. A descriptor without a generator is
/// answered with an error of its own kind, never with a crash.
pub fn dispatch_fractal(descriptor: &FractalDescriptor) -> (r: Result<Generator, WorkerError>)
    ensures
        r == match generator_of(*descriptor) {
            Some(g) => Ok::<Generator, WorkerError>(g),
            None => Err::<Generator, WorkerError>(WorkerError::UnsupportedDescriptor),
        },
{
    match descriptor {
        FractalDescriptor::Julia(_) => Ok(Generator::Julia(FractalJulia::new())),
        FractalDescriptor::Mandelbrot(_) => Ok(Generator::Mandelbrot(FractalMandelbrot::new())),
        FractalDescriptor::IteratedSinZ(d) => Ok(Generator::IteratedSinZ(IteratedSinZ::new(d.c))),
        FractalDescriptor::NewtonRaphsonZ3(_) => Ok(
            Generator::NewtonRaphsonZ3(NewtonRaphsonZ3Fractal::new()),
        ),
        _ => Err(WorkerError::UnsupportedDescriptor),
    }
}

/// Tells whether a descriptor names a fractal that can be computed.
pub fn supports(descriptor: &FractalDescriptor) -> (b: bool)
    ensures
        b == is_supported(*descriptor),
{
    dispatch_fractal(descriptor).is_ok()
}

/// Exactly three descriptors have no generator: Newton's method on
/// `z^4 - 1` and the two Nova variants. Dispatching one of them yields the
/// unsupported-descriptor error; dispatching any other yields a generator.
pub proof fn lemma_dispatch_completeness(descriptor: FractalDescriptor)
    ensures
        !is_supported(descriptor) <==> (descriptor is NewtonRaphsonZ4 || descriptor is NovaNewtonZ3
            || descriptor is NovaNewtonZ4),
        is_supported(descriptor) <==> (descriptor is Julia || descriptor is Mandelbrot
            || descriptor is IteratedSinZ || descriptor is NewtonRaphsonZ3),
{
}

} // verus!
