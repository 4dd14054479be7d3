//! The geometry buffer: the five co-located render targets of deferred
//! shading.  All five always share one extent; resizing discards and
//! reallocates them together, never one at a time.

use vstd::prelude::*;

use crate::def::{Extent, Format, Texture};
use crate::pool::Pool;

verus! {

/// Pixel format of the color+metalness and normal+roughness targets.
pub const GEOM_BUF_FORMAT: Format = 37;

/// Pixel format of the light accumulation target.
pub const LIGHT_FORMAT: Format = 97;

/// Pixel format of the depth target.
pub const DEPTH_FORMAT: Format = 126;

/// The five render targets of one frame: color+metalness,
/// normal+roughness, light accumulation, final output, and depth.
#[derive(Clone, Copy, Debug)]
pub struct GeometryBuffer {
    /// Color and metalness attachment.
    pub color_metal: Texture,
    /// Normal and roughness attachment.
    pub normal_rough: Texture,
    /// Light accumulation attachment.
    pub light: Texture,
    /// Final output attachment, sharing the destination's format.
    pub output: Texture,
    /// Depth attachment.
    pub depth: Texture,
}

impl GeometryBuffer {
    /// The invariant of every geometry buffer: the five targets share one
    /// extent, and each carries its designated format.
    pub open spec fn wf(self) -> bool {
        &&& self.color_metal.dims == self.normal_rough.dims
        &&& self.color_metal.dims == self.light.dims
        &&& self.color_metal.dims == self.output.dims
        &&& self.color_metal.dims == self.depth.dims
        &&& self.color_metal.format == GEOM_BUF_FORMAT
        &&& self.normal_rough.format == GEOM_BUF_FORMAT
        &&& self.light.format == LIGHT_FORMAT
        &&& self.depth.format == DEPTH_FORMAT
    }

    /// The shared extent of the five targets.
    pub open spec fn spec_dims(self) -> Extent {
        self.color_metal.dims
    }

    /// Builds a geometry buffer sized to the destination: five fresh
    /// targets of one extent, the output target in the destination's
    /// format.
    pub fn new(pool: &mut Pool, dims: Extent, output_format: Format) -> (r: GeometryBuffer)
        ensures
            r.wf(),
            r.spec_dims() == dims,
            r.output.format == output_format,
            final(pool).idle_buffers() == old(pool).idle_buffers(),
            final(pool).allocations() == old(pool).allocations(),
            final(pool).idle_cmd_pools() == old(pool).idle_cmd_pools(),
            final(pool).idle_fences() == old(pool).idle_fences(),
            final(pool).idle_graphics() == old(pool).idle_graphics(),
            final(pool).idle_computes() == old(pool).idle_computes(),
    {
        let id0 = pool.image_ids(5);
        GeometryBuffer {
            color_metal: Texture { id: id0, dims, format: GEOM_BUF_FORMAT },
            normal_rough: Texture { id: id0.wrapping_add(1), dims, format: GEOM_BUF_FORMAT },
            light: Texture { id: id0.wrapping_add(2), dims, format: LIGHT_FORMAT },
            output: Texture { id: id0.wrapping_add(3), dims, format: output_format },
            depth: Texture { id: id0.wrapping_add(4), dims, format: DEPTH_FORMAT },
        }
    }

    /// Whether this buffer already fits a destination of the given extent
    /// and format; when it does not, the whole buffer is rebuilt.
    pub fn fits(&self, dims: Extent, output_format: Format) -> (r: bool)
        ensures
            r == (self.spec_dims() == dims && self.output.format == output_format),
    {
        self.color_metal.dims == dims && self.output.format == output_format
    }
}

} // verus!
