//! Structural descriptors: pure value keys that select cached pipeline,
//! render-pass and buffer objects.  Two descriptors that compare equal
//! always stand for the same cached object.

use vstd::prelude::*;

verus! {

/// A pixel format, as a stable driver-assigned code.
pub type Format = u32;

/// Width and height of an image, in pixels.
#[derive(Clone, Copy, Debug, PartialEq, Eq, Structural)]
pub struct Extent {
    /// Width in pixels.
    pub width: u32,
    /// Height in pixels.
    pub height: u32,
}

/// A GPU image resource: a stable handle plus its structural description.
#[derive(Clone, Copy, Debug, PartialEq, Eq, Structural)]
pub struct Texture {
    /// Stable handle of the image.
    pub id: u64,
    /// Dimensions of the image.
    pub dims: Extent,
    /// Pixel format of the image.
    pub format: Format,
}

/// A position within an image, in pixels.
#[derive(Clone, Copy, Debug, PartialEq, Eq, Structural)]
pub struct Offset {
    /// Horizontal position.
    pub x: u32,
    /// Vertical position.
    pub y: u32,
}

/// A rectangular area of an image: a position and an extent.
#[derive(Clone, Copy, Debug, PartialEq, Eq, Structural)]
pub struct Area {
    /// Position of the area.
    pub pos: Offset,
    /// Extent of the area.
    pub dims: Extent,
}

/// Key of the deferred-shading render pass: the attachment formats plus
/// whether the frame has a skydome pre-pass and a post-effect subpass.
#[derive(Clone, Copy, Debug, PartialEq, Eq, Structural)]
pub struct DrawRenderPassMode {
    /// Format of the depth attachment.
    pub depth: Format,
    /// Format of the geometry-buffer color attachments.
    pub geom_buf: Format,
    /// Format of the light accumulation attachment.
    pub light: Format,
    /// Format of the output attachment.
    pub output: Format,
    /// Whether the pass opens with a skydome subpass.
    pub skydome: bool,
    /// Whether the pass ends with a post-effect subpass.
    pub post_fx: bool,
}

/// Key of a graphics pipeline: which fixed-function drawing it performs.
#[derive(Clone, Copy, Debug, PartialEq, Eq, Structural)]
pub enum GraphicsMode {
    /// Debug line drawing.
    DrawLine,
    /// Geometry-buffer fill for meshes.
    DrawMesh,
    /// Point light accumulation.
    DrawPointLight,
    /// Rectangular area light accumulation.
    DrawRectLight,
    /// Spotlight accumulation.
    DrawSpotlight,
    /// Sunlight accumulation.
    DrawSunlight,
    /// Skydome pre-pass.
    Skydome,
}

/// Size classes of the transient per-frame data buffers the pool lends out.
#[derive(Clone, Copy, Debug, PartialEq, Eq, Structural)]
pub enum BufferClass {
    /// Straight vertex buffer for debug lines.
    Line,
    /// Static light volume geometry.
    LightVolume,
    /// Skydome vertex geometry.
    Skydome,
    /// Computed vertex attributes of one mesh.
    VertexAttrs,
    /// Write mask driving one vertex-attribute computation.
    WriteMask,
}

} // verus!
