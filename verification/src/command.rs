//! Draw commands: the input units of one frame.
//!
//! A command is immutable for the duration of compilation and references
//! geometry and material resources through stable integer handles.  Scalar
//! quantities that the GPU consumes (positions, colors, transforms) are
//! carried through the core untouched, as raw 32-bit patterns: the core
//! never computes on them, it only decides which of them reach the driver
//! and in what order.

use vstd::prelude::*;

use crate::material::{Material, TextureId};

verus! {

/// Stable handle of a GPU data buffer.
pub type BufferId = u64;

/// A scalar carried through the core as its raw 32-bit pattern.
pub type ScalarBits = u32;

/// Width of the indices of an indexed mesh.
#[derive(Clone, Copy, Debug, PartialEq, Eq, Structural)]
pub enum IndexType {
    /// 16-bit indices.
    U16,
    /// 32-bit indices.
    U32,
}

/// The four orthogonal vertex-attribute compute variants: index width
/// crossed with whether the mesh is skinned.
#[derive(Clone, Copy, Debug, PartialEq, Eq, Structural)]
pub enum CalcVertexAttrsMode {
    /// Static mesh with 16-bit indices.
    U16,
    /// Skinned mesh with 16-bit indices.
    U16Skin,
    /// Static mesh with 32-bit indices.
    U32,
    /// Skinned mesh with 32-bit indices.
    U32Skin,
}

/// One batch of mesh geometry drawn with one material.
#[derive(Clone, Copy, Debug)]
pub struct MeshCommand {
    /// Material whose textures the fragment stage samples.
    pub material: Material,
    /// Width of the entries of the index buffer.
    pub index_type: IndexType,
    /// Whether the vertices carry skinning weights.
    pub skinned: bool,
    /// Handle of the index data buffer.
    pub index_buf: BufferId,
    /// Number of indices drawn.
    pub index_count: u32,
    /// Handle of the source vertex data buffer.
    pub vertex_buf: BufferId,
    /// Number of vertices the source buffer holds.
    pub vertex_count: u32,
    /// First vertex of the drawn range.
    pub base_vertex: u32,
    /// World transform, row after row, as raw scalar bits.
    pub transform: [ScalarBits; 16],
}

impl MeshCommand {
    /// The compute variant that calculates this mesh's vertex attributes.
    pub open spec fn spec_attrs_mode(self) -> CalcVertexAttrsMode {
        match (self.index_type, self.skinned) {
            (IndexType::U16, false) => CalcVertexAttrsMode::U16,
            (IndexType::U16, true) => CalcVertexAttrsMode::U16Skin,
            (IndexType::U32, false) => CalcVertexAttrsMode::U32,
            (IndexType::U32, true) => CalcVertexAttrsMode::U32Skin,
        }
    }

    /// Selects the compute variant from index width and skinning.
    pub fn attrs_mode(&self) -> (r: CalcVertexAttrsMode)
        ensures
            r == self.spec_attrs_mode(),
    {
        match (self.index_type, self.skinned) {
            (IndexType::U16, false) => CalcVertexAttrsMode::U16,
            (IndexType::U16, true) => CalcVertexAttrsMode::U16Skin,
            (IndexType::U32, false) => CalcVertexAttrsMode::U32,
            (IndexType::U32, true) => CalcVertexAttrsMode::U32Skin,
        }
    }
}

/// A point light: a position, a color scaled by intensity, and a radius.
#[derive(Clone, Copy, Debug)]
pub struct PointLightCommand {
    /// World position of the light center, as raw scalar bits.
    pub center: [ScalarBits; 3],
    /// Light color, as raw scalar bits.
    pub color: [ScalarBits; 4],
    /// Luminous intensity, as raw scalar bits.
    pub lumens: ScalarBits,
    /// Radius of the lit volume, as raw scalar bits.
    pub radius: ScalarBits,
}

/// A rectangular area light.
#[derive(Clone, Copy, Debug)]
pub struct RectLightCommand {
    /// World position, as raw scalar bits.
    pub position: [ScalarBits; 3],
    /// Facing direction, as raw scalar bits.
    pub normal: [ScalarBits; 3],
    /// Width and height of the rectangle, as raw scalar bits.
    pub dims: [ScalarBits; 2],
    /// Light color, as raw scalar bits.
    pub color: [ScalarBits; 4],
    /// Luminous intensity, as raw scalar bits.
    pub lumens: ScalarBits,
    /// Corner radius, as raw scalar bits.
    pub radius: ScalarBits,
    /// Reach of the emitted light, as raw scalar bits.
    pub range: ScalarBits,
}

/// A spotlight: a cone of light with inner and outer cutoff angles.
#[derive(Clone, Copy, Debug)]
pub struct SpotlightCommand {
    /// World position of the apex, as raw scalar bits.
    pub position: [ScalarBits; 3],
    /// Direction of the cone axis, as raw scalar bits.
    pub normal: [ScalarBits; 3],
    /// Light color, as raw scalar bits.
    pub color: [ScalarBits; 4],
    /// Luminous intensity, as raw scalar bits.
    pub lumens: ScalarBits,
    /// Cosine of the inner cutoff angle, as raw scalar bits.
    pub cutoff_inner: ScalarBits,
    /// Cosine of the outer cutoff angle, as raw scalar bits.
    pub cutoff_outer: ScalarBits,
}

/// A directional light that reaches the whole frame.
#[derive(Clone, Copy, Debug)]
pub struct SunlightCommand {
    /// Direction the light travels, as raw scalar bits.
    pub normal: [ScalarBits; 3],
    /// Light color, as raw scalar bits.
    pub color: [ScalarBits; 4],
    /// Luminous intensity, as raw scalar bits.
    pub lumens: ScalarBits,
}

/// One endpoint of a debug line.
#[derive(Clone, Copy, Debug)]
pub struct LineVertex {
    /// World position, as raw scalar bits.
    pub position: [ScalarBits; 3],
    /// Vertex color with alpha, as raw scalar bits.
    pub color: [ScalarBits; 4],
}

/// A debug line between two vertices, drawn as a post effect.
#[derive(Clone, Copy, Debug)]
pub struct LineCommand(pub [LineVertex; 2]);

/// A skydome: its textures, sun direction, star rotation, time of day and
/// weather scalar.  It is configured per frame, outside the command list.
#[derive(Clone, Copy, Debug)]
pub struct Skydome {
    /// The two cloud layer textures.
    pub cloud: [TextureId; 2],
    /// Moon billboard texture.
    pub moon: TextureId,
    /// Sun billboard texture.
    pub sun: TextureId,
    /// Direction of sunlight, as raw scalar bits.
    pub sun_normal: [ScalarBits; 3],
    /// Star field rotation quaternion, as raw scalar bits.
    pub star_rotation: [ScalarBits; 4],
    /// Time of day, as raw scalar bits.
    pub time: ScalarBits,
    /// The two tint lookup textures.
    pub tint: [TextureId; 2],
    /// Weather scalar, as raw scalar bits.
    pub weather: ScalarBits,
}

/// The camera of one frame: view and projection matrices carried as raw
/// scalar bits, row after row.
#[derive(Clone, Copy, Debug)]
pub struct Camera {
    /// View matrix bits.
    pub view: [ScalarBits; 16],
    /// Projection matrix bits.
    pub projection: [ScalarBits; 16],
}

/// One frame input unit.
#[derive(Clone, Copy, Debug)]
pub enum Command {
    /// Draw a mesh batch.
    Mesh(MeshCommand),
    /// Draw a point light.
    PointLight(PointLightCommand),
    /// Draw a rectangular area light.
    RectLight(RectLightCommand),
    /// Draw a spotlight.
    Spotlight(SpotlightCommand),
    /// Draw a sunlight.
    Sunlight(SunlightCommand),
    /// Draw a debug line.
    Line(LineCommand),
}

impl Command {
    /// Whether this is a mesh command.
    pub open spec fn is_mesh(self) -> bool {
        self is Mesh
    }

    /// The mesh payload; meaningful only when `is_mesh` holds.
    pub open spec fn mesh(self) -> MeshCommand
        recommends
            self.is_mesh(),
    {
        self->Mesh_0
    }
}

} // verus!
