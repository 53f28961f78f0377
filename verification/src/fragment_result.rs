//! What a worker reports once a fragment is computed.

use vstd::prelude::*;
use crate::compute::{PixelData, Point, Range, Resolution, U8Data};
use crate::error::{Field, ValidationError};

verus! {

/// The description of a computed fragment. The pixels themselves travel
/// beside it, as raw bytes.
#[derive(Debug, Clone, Copy, PartialEq, Eq, Structural)]
pub struct FragmentResult {
    /// The span of the identifier bytes, as the task gave it.
    pub id: U8Data,
    /// The pixel grid of the fragment.
    pub resolution: Resolution,
    /// The region of the plane that the grid covers.
    pub range: Range,
    /// Where the pixels go in the peer's buffer, and how many they are.
    pub pixels: PixelData,
}

/// Collects the fields of a result one by one.
#[derive(Debug, Clone, Copy)]
pub struct FragmentResultBuilder {
    id: Option<U8Data>,
    resolution: Option<Resolution>,
    range: Option<Range>,
    pixels: Option<PixelData>,
}

/// What a builder has collected so far.
pub struct FragmentResultBuilderView {
    /// The identifier span, if it was set.
    pub id: Option<U8Data>,
    /// The grid, if it was set.
    pub resolution: Option<Resolution>,
    /// The region, if it was set.
    pub range: Option<Range>,
    /// The pixel span, if it was set.
    pub pixels: Option<PixelData>,
}

impl View for FragmentResultBuilder {
    type V = FragmentResultBuilderView;

    closed spec fn view(&self) -> FragmentResultBuilderView {
        FragmentResultBuilderView {
            id: self.id,
            resolution: self.resolution,
            range: self.range,
            pixels: self.pixels,
        }
    }
}

/// What `build` makes of what a builder has collected: the result if every
/// field is set, else the first missing field, in the order identifier,
/// resolution, range, pixels.
pub open spec fn built_result(b: FragmentResultBuilderView) -> Result<
    FragmentResult,
    ValidationError,
> {
    if b.id.is_none() {
        Err(ValidationError::Missing(Field::Id))
    } else if b.resolution.is_none() {
        Err(ValidationError::Missing(Field::Resolution))
    } else if b.range.is_none() {
        Err(ValidationError::Missing(Field::Range))
    } else if b.pixels.is_none() {
        Err(ValidationError::Missing(Field::Pixels))
    } else {
        Ok(
            (FragmentResult {
                id: b.id.unwrap(),
                resolution: b.resolution.unwrap(),
                range: b.range.unwrap(),
                pixels: b.pixels.unwrap(),
            }),
        )
    }
}

impl FragmentResult {
    /// A builder with no field set.
    pub fn builder() -> (b: FragmentResultBuilder)
        ensures
            b@.id.is_none(),
            b@.resolution.is_none(),
            b@.range.is_none(),
            b@.pixels.is_none(),
    {
        FragmentResultBuilder { id: None, resolution: None, range: None, pixels: None }
    }
}

impl FragmentResultBuilder {
    /// Sets the identifier span.
    pub fn with_id(self, offset: u32, count: u32) -> (b: FragmentResultBuilder)
        ensures
            b@ == (FragmentResultBuilderView { id: Some((U8Data { offset, count })), ..self@ }),
    {
        FragmentResultBuilder { id: Some(U8Data { offset, count }), ..self }
    }

    /// Sets the grid dimensions.
    pub fn with_resolution(self, nx: u16, ny: u16) -> (b: FragmentResultBuilder)
        ensures
            b@ == (FragmentResultBuilderView {
                resolution: Some((Resolution { nx, ny })),
                ..self@
            }),
    {
        FragmentResultBuilder { resolution: Some(Resolution { nx, ny }), ..self }
    }

    /// Sets the region from the bits of its four coordinates.
    pub fn with_range(self, min_x: u64, min_y: u64, max_x: u64, max_y: u64) -> (b:
        FragmentResultBuilder)
        ensures
            b@ == (FragmentResultBuilderView {
                range: Some(
                    (Range {
                        min: (Point { x: min_x, y: min_y }),
                        max: (Point { x: max_x, y: max_y }),
                    }),
                ),
                ..self@
            }),
    {
        FragmentResultBuilder {
            range: Some(
                Range { min: Point { x: min_x, y: min_y }, max: Point { x: max_x, y: max_y } },
            ),
            ..self
        }
    }

    /// Sets the pixel span.
    pub fn with_pixels(self, offset: u32, count: u32) -> (b: FragmentResultBuilder)
        ensures
            b@ == (FragmentResultBuilderView { pixels: Some((PixelData { offset, count })), ..self@ }),
    {
        FragmentResultBuilder { pixels: Some(PixelData { offset, count }), ..self }
    }

    /// Builds the result if every field is set, and names the first missing
    /// one otherwise.
    pub fn build(self) -> (r: Result<FragmentResult, ValidationError>)
        ensures
            r == built_result(self@),
    {
        match (self.id, self.resolution, self.range, self.pixels) {
            (None, _, _, _) => Err(ValidationError::Missing(Field::Id)),
            (Some(_), None, _, _) => Err(ValidationError::Missing(Field::Resolution)),
            (Some(_), Some(_), None, _) => Err(ValidationError::Missing(Field::Range)),
            (Some(_), Some(_), Some(_), None) => Err(ValidationError::Missing(Field::Pixels)),
            (Some(id), Some(resolution), Some(range), Some(pixels)) => Ok(
                FragmentResult { id, resolution, range, pixels },
            ),
        }
    }
}

} // verus!
