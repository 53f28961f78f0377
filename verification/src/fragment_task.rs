//! A unit of work: one fragment of the image to compute.

use vstd::prelude::*;
use crate::compute::{Range, Resolution, U8Data};
use crate::fraktals::FractalDescriptor;

verus! {

/// Everything a worker needs to compute one fragment.
#[derive(Debug, Clone, Copy, PartialEq, Eq, Structural)]
pub struct FragmentTask {
    /// The span of the identifier bytes that came with the task.
    pub id: U8Data,
    /// Cap on the iterations spent on one pixel.
    pub max_iteration: u32,
    /// The pixel grid of the fragment.
    pub resolution: Resolution,
    /// The region of the plane that the grid covers.
    pub range: Range,
    /// The fractal to compute, with its parameters.
    pub fractal: FractalDescriptor,
}

impl FragmentTask {
    /// A task with the given fields.
    pub fn new(
        id: U8Data,
        max_iteration: u32,
        resolution: Resolution,
        range: Range,
        fractal: FractalDescriptor,
    ) -> (t: FragmentTask)
        ensures
            t == (FragmentTask { id, max_iteration, resolution, range, fractal }),
    {
        FragmentTask { id, max_iteration, resolution, range, fractal }
    }
}

} // verus!
