//! The compiled instruction set.
//!
//! One instruction stands for one atomic GPU operation.  A compiled frame
//! is a linear program over these: it is consumed exactly once, in order,
//! and every resource dependency is expressed purely through instruction
//! order.  Instructions fall into five phases that the compiler emits in a
//! fixed causal order: data uploads, compute-based vertex-attribute
//! calculation, geometry fill, light accumulation, then post-effect lines.

use vstd::prelude::*;

use crate::command::{BufferId, CalcVertexAttrsMode, IndexType};

verus! {

/// One atomic GPU operation of a compiled frame.
#[derive(Clone, Copy, Debug, PartialEq, Eq)]
pub enum Instruction {
    /// Upload the referenced index data of a mesh.
    IndexWriteRef {
        /// Index data buffer.
        buf: BufferId,
        /// Bytes written.
        len: u64,
    },
    /// Upload the referenced vertex data of a mesh.
    VertexWriteRef {
        /// Vertex data buffer.
        buf: BufferId,
        /// Bytes written.
        len: u64,
    },
    /// Upload vertex data into a leased transient buffer.
    VertexWrite {
        /// Destination buffer.
        buf: BufferId,
        /// Bytes written.
        len: u64,
    },
    /// Select a vertex-attribute compute variant.
    VertexAttrsBegin {
        /// The compute variant.
        mode: CalcVertexAttrsMode,
    },
    /// Bind the descriptor set of one vertex-attribute computation.
    VertexAttrsDescriptors {
        /// The compute variant.
        mode: CalcVertexAttrsMode,
        /// Descriptor set slot within the variant.
        set: usize,
    },
    /// Dispatch one vertex-attribute computation.  Every draw that binds
    /// the computed range comes later in the program.
    VertexAttrsCalc {
        /// The compute variant.
        mode: CalcVertexAttrsMode,
        /// First vertex the computation writes.
        base_vertex: u32,
        /// Number of invocations dispatched, one per vertex.
        dispatch: u32,
    },
    /// Open the geometry-fill stage.
    MeshBegin,
    /// Bind the descriptor set of one material group.
    MeshDescriptors {
        /// Descriptor set slot: the material group index.
        set: usize,
    },
    /// Bind the index and vertex buffer ranges of one mesh.
    MeshBind {
        /// Index data buffer.
        index_buf: BufferId,
        /// Bound index range, in bytes.
        index_len: u64,
        /// Width of the indices.
        index_type: IndexType,
        /// Computed vertex-attribute buffer the draw reads.
        vertex_buf: BufferId,
        /// Bound vertex range, in bytes.
        vertex_len: u64,
    },
    /// Draw one mesh command.
    MeshDraw {
        /// Index of the mesh command in the frame's command list.
        cmd: usize,
        /// Material group (descriptor set slot) the draw belongs to.
        set: usize,
    },
    /// Open the light accumulation stage.
    LightBegin,
    /// Bind the static light volume geometry.
    LightBind {
        /// Light volume buffer.
        buf: BufferId,
        /// Bound range, in bytes.
        len: u64,
    },
    /// Select the point light pipeline.
    PointLightBegin,
    /// Draw one point light.
    PointLightDraw {
        /// Index of the light command in the frame's command list.
        cmd: usize,
    },
    /// Select the rectangular area light pipeline and bind the shared
    /// volume buffer its draws index into.
    RectLightBegin {
        /// Light volume buffer.
        buf: BufferId,
    },
    /// Draw one rectangular area light.
    RectLightDraw {
        /// Index of the light command in the frame's command list.
        cmd: usize,
        /// First vertex of the light's region of the shared volume buffer.
        offset: u32,
    },
    /// Select the spotlight pipeline and bind the shared volume buffer
    /// its draws index into.
    SpotlightBegin {
        /// Light volume buffer.
        buf: BufferId,
    },
    /// Draw one spotlight.
    SpotlightDraw {
        /// Index of the light command in the frame's command list.
        cmd: usize,
        /// First vertex of the light's region of the shared volume buffer.
        offset: u32,
    },
    /// Select the sunlight pipeline.
    SunlightBegin,
    /// Draw one sunlight.
    SunlightDraw {
        /// Index of the light command in the frame's command list.
        cmd: usize,
    },
    /// Draw the debug lines, as a post effect.
    LineDraw {
        /// Straight vertex buffer holding the line vertices.
        buf: BufferId,
        /// Number of lines drawn.
        line_count: u32,
    },
}

impl Instruction {
    /// The phase an instruction belongs to.  The compiler emits phases in
    /// increasing order: uploads and transfers first, then compute
    /// dispatches, geometry fill, light accumulation, and post-effect
    /// lines last.
    pub open spec fn phase(self) -> int {
        match self {
            Instruction::IndexWriteRef { .. } => 0,
            Instruction::VertexWriteRef { .. } => 0,
            Instruction::VertexWrite { .. } => 0,
            Instruction::VertexAttrsBegin { .. } => 1,
            Instruction::VertexAttrsDescriptors { .. } => 1,
            Instruction::VertexAttrsCalc { .. } => 1,
            Instruction::MeshBegin => 2,
            Instruction::MeshDescriptors { .. } => 2,
            Instruction::MeshBind { .. } => 2,
            Instruction::MeshDraw { .. } => 2,
            Instruction::LightBegin => 3,
            Instruction::LightBind { .. } => 3,
            Instruction::PointLightBegin => 3,
            Instruction::PointLightDraw { .. } => 3,
            Instruction::RectLightBegin { .. } => 3,
            Instruction::RectLightDraw { .. } => 3,
            Instruction::SpotlightBegin { .. } => 3,
            Instruction::SpotlightDraw { .. } => 3,
            Instruction::SunlightBegin => 3,
            Instruction::SunlightDraw { .. } => 3,
            Instruction::LineDraw { .. } => 4,
        }
    }
}

} // verus!
