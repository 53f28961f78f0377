//! From a task and its computed pixels to the result that is sent back.

use vstd::prelude::*;
use crate::compute::{PixelData, PixelIntensity};
use crate::dispatcher::{dispatch_fractal, is_supported};
use crate::error::{ProtocolError, WorkerError};
use crate::fragment_result::FragmentResult;
use crate::fragment_task::FragmentTask;

verus! {

/// The result that describes a computed task: identifier, grid and region
/// are the task's; the pixels go right behind the identifier span and are as
/// many as the grid has cells.
pub open spec fn result_of(task: FragmentTask) -> FragmentResult
    recommends
        task.id.offset + task.id.count <= u32::MAX,
{
    FragmentResult {
        id: task.id,
        resolution: task.resolution,
        range: task.range,
        pixels: PixelData {
            offset: (task.id.offset + task.id.count) as u32,
            count: (task.resolution.nx * task.resolution.ny) as u32,
        },
    }
}

/// The failure that a task meets before a result can be described, if any:
/// a fractal without a generator first, then an identifier span that ends
/// beyond the 32-bit positions.
pub open spec fn task_failure(task: FragmentTask) -> Option<WorkerError> {
    if !is_supported(task.fractal) {
        Some(WorkerError::UnsupportedDescriptor)
    } else if task.id.offset + task.id.count > u32::MAX {
        Some(WorkerError::Protocol(ProtocolError::SpanOverflow))
    } else {
        None
    }
}

/// Packages a computed task: returns the result that describes it, with the
/// pixels handed in, untouched. The pixel count of the result is that of the
/// grid, whatever the number of pixels handed in: a sweep may emit a row or
/// a column more or less than the grid has, and the count is not adjusted to
/// it.
pub fn process_task(task: &FragmentTask, data_id: &[u8], pixels: Vec<PixelIntensity>) -> (r:
    Result<(FragmentResult, Vec<PixelIntensity>), WorkerError>)
    ensures
        match task_failure(*task) {
            Some(e) => r == Err::<(FragmentResult, Vec<PixelIntensity>), WorkerError>(e),
            None => r == Ok::<(FragmentResult, Vec<PixelIntensity>), WorkerError>(
                (result_of(*task), pixels),
            ),
        },
{
    if let Err(e) = dispatch_fractal(&task.fractal) {
        return Err(e);
    }
    if task.id.count > u32::MAX - task.id.offset {
        return Err(WorkerError::Protocol(ProtocolError::SpanOverflow));
    }
    let resolution = task.resolution;
    let pixel_count = resolution.pixel_count();
    let built = FragmentResult::builder().with_id(task.id.offset, task.id.count).with_resolution(
        resolution.nx,
        resolution.ny,
    ).with_range(
        task.range.min.x,
        task.range.min.y,
        task.range.max.x,
        task.range.max.y,
    ).with_pixels(task.id.offset + task.id.count, pixel_count).build();
    match built {
        Ok(result) => Ok((result, pixels)),
        Err(e) => Err(WorkerError::Validation(e)),
    }
}

/// The result of a task that meets no failure keeps the task's identifier,
/// grid and region, places the pixels at `id.offset + id.count`, and counts
/// `nx * ny` of them.
pub proof fn lemma_result_layout(task: FragmentTask)
    requires
        task_failure(task).is_none(),
    ensures
        result_of(task).id == task.id,
        result_of(task).resolution == task.resolution,
        result_of(task).range == task.range,
        result_of(task).pixels.offset == task.id.offset + task.id.count,
        result_of(task).pixels.count == task.resolution.nx * task.resolution.ny,
{
    assert(task.resolution.nx * task.resolution.ny <= 0xffff * 0xffff) by (nonlinear_arith)
        requires
            task.resolution.nx <= 0xffff,
            task.resolution.ny <= 0xffff,
    ;
}

} // verus!
