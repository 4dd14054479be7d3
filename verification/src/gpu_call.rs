//! The driver verbs of one frame.
//!
//! The executor does not talk to a graphics device itself: it produces a
//! linear program of these calls, and an unverified shell replays them
//! against the real driver.  Scalar payloads (transforms, colors, light
//! parameters) are referenced by command index, so the shell resolves them
//! from the very command list the frame was compiled from.

use vstd::prelude::*;

use crate::command::{BufferId, CalcVertexAttrsMode, IndexType};
use crate::def::{DrawRenderPassMode, Extent, GraphicsMode};
use crate::compiler::{LIGHT_VOLUME_LEN, LINE_STRIDE, POINT_LIGHT_DRAW_COUNT,
    RECT_LIGHT_DRAW_COUNT, SPOTLIGHT_DRAW_COUNT};
use crate::instruction::Instruction;
use crate::material::TextureId;

verus! {

/// Which image a layout transition or copy refers to.
#[derive(Clone, Copy, Debug, PartialEq, Eq, Hash, Structural)]
pub enum ImageRef {
    /// The caller's destination image.
    Dst,
    /// The color+metalness render target.
    ColorMetal,
    /// The normal+roughness render target.
    NormalRough,
    /// The light accumulation render target.
    Light,
    /// The output render target.
    Output,
    /// The depth render target.
    Depth,
    /// Any other image, by handle.
    Image(TextureId),
}

/// An image layout the driver is asked to transition to.
#[derive(Clone, Copy, Debug, PartialEq, Eq, Structural)]
pub enum ImageLayout {
    /// Written as a color attachment.
    ColorAttachmentOptimal,
    /// Written as the depth/stencil attachment.
    DepthStencilAttachmentOptimal,
    /// Read by a transfer.
    TransferSrcOptimal,
    /// Written by a transfer.
    TransferDstOptimal,
}

/// The pipeline stage a barrier or write is ordered against.
#[derive(Clone, Copy, Debug, PartialEq, Eq, Structural)]
pub enum PipelineStage {
    /// Transfer operations.
    Transfer,
    /// Color attachment output.
    ColorAttachmentOutput,
    /// Late fragment tests (depth/stencil writes).
    LateFragmentTests,
    /// Vertex input assembly.
    VertexInput,
    /// Compute shader execution.
    ComputeShader,
}

/// The access kind a barrier or write makes visible.
#[derive(Clone, Copy, Debug, PartialEq, Eq, Structural)]
pub enum AccessKind {
    /// Read by a transfer.
    TransferRead,
    /// Written by a transfer.
    TransferWrite,
    /// Written as a color attachment.
    ColorAttachmentWrite,
    /// Written as the depth/stencil attachment.
    DepthStencilAttachmentWrite,
    /// Read as an index buffer.
    IndexBufferRead,
    /// Read as a vertex buffer.
    VertexBufferRead,
    /// Read by a shader.
    ShaderRead,
}

/// Which shader stage a push-constant block reaches.
#[derive(Clone, Copy, Debug, PartialEq, Eq, Structural)]
pub enum ShaderStage {
    /// The vertex stage.
    Vertex,
    /// The fragment stage.
    Fragment,
}

/// A push-constant payload, referenced by command index: the shell
/// resolves the scalar data from the frame's camera and command list.
#[derive(Clone, Copy, Debug, PartialEq, Eq, Structural)]
pub enum PushData {
    /// The camera's view-projection matrix.
    ViewProj,
    /// View-projection times the world transform of the given command.
    WorldViewProj {
        /// Index of the command in the frame's command list.
        cmd: usize,
    },
    /// Intensity and radius of the given point light command.
    PointLight {
        /// Index of the command in the frame's command list.
        cmd: usize,
    },
    /// The parameter block of the given rectangular area light command.
    RectLight {
        /// Index of the command in the frame's command list.
        cmd: usize,
    },
    /// Intensity and direction of the given sunlight command.
    Sunlight {
        /// Index of the command in the frame's command list.
        cmd: usize,
    },
    /// Star rotation and inverse view of the frame's skydome.
    SkydomeVertex,
    /// Sun direction, time and weather of the frame's skydome.
    SkydomeFragment,
    /// Base vertex of one vertex-attribute computation.
    CalcVertexAttrs {
        /// First vertex the computation writes.
        base_vertex: u32,
    },
}

/// One driver call of a frame program.
#[derive(Clone, Copy, Debug, PartialEq, Eq, Structural)]
pub enum GpuCall {
    /// Begin recording the frame's one-time-submit command buffer.
    BeginPrimary,
    /// Transition an image into the layout an access needs, ordered
    /// against the given stage and access kind.
    SetImageLayout {
        /// The image transitioned.
        image: ImageRef,
        /// Layout transitioned to.
        layout: ImageLayout,
        /// Stage the transition is ordered against.
        stage: PipelineStage,
        /// Access the transition makes valid.
        access: AccessKind,
    },
    /// Copy the full extent of one image into another.
    CopyImage {
        /// Source image.
        src: ImageRef,
        /// Destination image.
        dst: ImageRef,
        /// Extent copied.
        dims: Extent,
    },
    /// Copy an identically-sized region of one image into another, at the
    /// given positions.
    CopyImageRegion {
        /// Source image.
        src: ImageRef,
        /// Destination image.
        dst: ImageRef,
        /// Position read in the source.
        src_offset: crate::def::Offset,
        /// Position written in the destination.
        dst_offset: crate::def::Offset,
        /// Extent copied.
        extent: Extent,
    },
    /// Begin the deferred-shading render pass.
    BeginRenderPass {
        /// Key of the render pass.
        mode: DrawRenderPassMode,
        /// Extent of the framebuffer.
        dims: Extent,
    },
    /// Advance to the next subpass.
    NextSubpass,
    /// End the render pass.
    EndRenderPass,
    /// Bind a graphics pipeline.
    BindGraphicsPipeline {
        /// Fixed-function mode of the pipeline.
        mode: GraphicsMode,
    },
    /// Bind a compute pipeline.
    BindComputePipeline {
        /// Compute variant of the pipeline.
        mode: CalcVertexAttrsMode,
    },
    /// Set the scissor rectangle to the full viewport.
    SetScissor,
    /// Set the viewport.
    SetViewport,
    /// Bind one descriptor set of a graphics pipeline.
    BindGraphicsDescriptorSet {
        /// Fixed-function mode of the pipeline.
        mode: GraphicsMode,
        /// Descriptor set slot.
        set: usize,
    },
    /// Bind one descriptor set of a compute pipeline.
    BindComputeDescriptorSet {
        /// Compute variant of the pipeline.
        mode: CalcVertexAttrsMode,
        /// Descriptor set slot.
        set: usize,
    },
    /// Push a constant block to a graphics stage.
    PushGraphicsConstants {
        /// Stage the block reaches.
        stage: ShaderStage,
        /// The payload.
        data: PushData,
    },
    /// Push a constant block to the compute stage.
    PushComputeConstants {
        /// The payload.
        data: PushData,
    },
    /// Bind a vertex buffer range starting at offset zero.
    BindVertexBuffer {
        /// The buffer bound.
        buf: BufferId,
        /// Bound range, in bytes.
        len: u64,
    },
    /// Bind an index buffer range starting at offset zero.
    BindIndexBuffer {
        /// The buffer bound.
        buf: BufferId,
        /// Bound range, in bytes.
        len: u64,
        /// Width of the indices.
        index_type: IndexType,
    },
    /// Flush CPU-written data of a buffer range and make it visible to the
    /// given stage and access.
    WriteBuffer {
        /// The buffer written.
        buf: BufferId,
        /// Bytes written, from offset zero.
        len: u64,
        /// Stage the write is made visible to.
        stage: PipelineStage,
        /// Access kind the write is made visible to.
        access: AccessKind,
    },
    /// Draw a vertex range.
    Draw {
        /// First vertex.
        first: u32,
        /// Number of vertices.
        count: u32,
    },
    /// Draw the indexed range of the given mesh command; the shell takes
    /// the index count and base vertex from the command.
    DrawIndexed {
        /// Index of the mesh command in the frame's command list.
        cmd: usize,
    },
    /// Dispatch a compute grid.
    Dispatch {
        /// Number of groups dispatched.
        groups: u32,
    },
    /// Finish recording the command buffer.
    Finish,
    /// Submit the command buffer, signaling the given fence on completion.
    Submit {
        /// Handle of the completion fence.
        fence: u64,
    },
}

impl GpuCall {
    /// Whether this call consumes geometry (a draw of any kind).
    pub open spec fn is_draw(self) -> bool {
        self matches GpuCall::Draw { .. } || self matches GpuCall::DrawIndexed { .. }
    }
}

/// A resource written into one descriptor binding.
#[derive(Clone, Copy, Debug, PartialEq, Eq, Structural)]
pub enum DescriptorResource {
    /// A sampled texture.
    Texture(TextureId),
    /// A storage buffer range.
    Buffer {
        /// The buffer.
        buf: BufferId,
        /// Bytes of the bound range.
        len: u64,
    },
}

/// One descriptor-set write the executor asks of the driver before it
/// replays the frame program.
#[derive(Clone, Copy, Debug, PartialEq, Eq, Structural)]
pub struct DescriptorWrite {
    /// Which pipeline's descriptor sets are written: a graphics mode or a
    /// compute variant.
    pub graphics: bool,
    /// Fixed-function mode, meaningful when `graphics` holds.
    pub graphics_mode: GraphicsMode,
    /// Compute variant, meaningful when `graphics` does not hold.
    pub compute_mode: CalcVertexAttrsMode,
    /// Descriptor set slot.
    pub set: usize,
    /// Binding within the set.
    pub binding: u32,
    /// The resource written.
    pub resource: DescriptorResource,
}

/// The driver calls that replay one instruction.
pub open spec fn calls_of_instr(i: Instruction) -> Seq<GpuCall> {
    match i {
        Instruction::IndexWriteRef { buf, len } => seq![
            GpuCall::WriteBuffer {
                buf,
                len,
                stage: PipelineStage::VertexInput,
                access: AccessKind::IndexBufferRead,
            },
        ],
        Instruction::VertexWriteRef { buf, len } => seq![
            GpuCall::WriteBuffer {
                buf,
                len,
                stage: PipelineStage::ComputeShader,
                access: AccessKind::ShaderRead,
            },
        ],
        Instruction::VertexWrite { buf, len } => seq![
            GpuCall::WriteBuffer {
                buf,
                len,
                stage: PipelineStage::VertexInput,
                access: AccessKind::VertexBufferRead,
            },
        ],
        Instruction::VertexAttrsBegin { mode } => seq![GpuCall::BindComputePipeline { mode }],
        Instruction::VertexAttrsDescriptors { mode, set } => seq![
            GpuCall::BindComputeDescriptorSet { mode, set },
        ],
        Instruction::VertexAttrsCalc { mode, base_vertex, dispatch } => seq![
            GpuCall::PushComputeConstants { data: PushData::CalcVertexAttrs { base_vertex } },
            GpuCall::Dispatch { groups: dispatch },
        ],
        Instruction::MeshBegin => seq![
            GpuCall::BindGraphicsPipeline { mode: GraphicsMode::DrawMesh },
            GpuCall::SetScissor,
            GpuCall::SetViewport,
        ],
        Instruction::MeshDescriptors { set } => seq![
            GpuCall::BindGraphicsDescriptorSet { mode: GraphicsMode::DrawMesh, set },
        ],
        Instruction::MeshBind { index_buf, index_len, index_type, vertex_buf, vertex_len } => seq![
            GpuCall::BindIndexBuffer { buf: index_buf, len: index_len, index_type },
            GpuCall::BindVertexBuffer { buf: vertex_buf, len: vertex_len },
        ],
        Instruction::MeshDraw { cmd, set: _ } => seq![
            GpuCall::PushGraphicsConstants {
                stage: ShaderStage::Vertex,
                data: PushData::WorldViewProj { cmd },
            },
            GpuCall::DrawIndexed { cmd },
        ],
        Instruction::LightBegin => seq![GpuCall::NextSubpass],
        Instruction::LightBind { buf, len } => seq![GpuCall::BindVertexBuffer { buf, len }],
        Instruction::PointLightBegin => seq![
            GpuCall::BindGraphicsPipeline { mode: GraphicsMode::DrawPointLight },
            GpuCall::SetScissor,
            GpuCall::SetViewport,
        ],
        Instruction::PointLightDraw { cmd } => seq![
            GpuCall::PushGraphicsConstants {
                stage: ShaderStage::Vertex,
                data: PushData::WorldViewProj { cmd },
            },
            GpuCall::PushGraphicsConstants {
                stage: ShaderStage::Vertex,
                data: PushData::PointLight { cmd },
            },
            GpuCall::Draw { first: 0, count: POINT_LIGHT_DRAW_COUNT },
        ],
        Instruction::RectLightBegin { buf } => seq![
            GpuCall::BindGraphicsPipeline { mode: GraphicsMode::DrawRectLight },
            GpuCall::SetScissor,
            GpuCall::SetViewport,
            GpuCall::BindVertexBuffer { buf, len: LIGHT_VOLUME_LEN },
        ],
        Instruction::RectLightDraw { cmd, offset } => seq![
            GpuCall::PushGraphicsConstants {
                stage: ShaderStage::Fragment,
                data: PushData::RectLight { cmd },
            },
            GpuCall::Draw { first: offset, count: RECT_LIGHT_DRAW_COUNT },
        ],
        Instruction::SpotlightBegin { buf } => seq![
            GpuCall::BindGraphicsPipeline { mode: GraphicsMode::DrawSpotlight },
            GpuCall::SetScissor,
            GpuCall::SetViewport,
            GpuCall::BindVertexBuffer { buf, len: LIGHT_VOLUME_LEN },
        ],
        Instruction::SpotlightDraw { cmd: _, offset } => seq![
            GpuCall::PushGraphicsConstants {
                stage: ShaderStage::Fragment,
                data: PushData::ViewProj,
            },
            GpuCall::Draw { first: offset, count: SPOTLIGHT_DRAW_COUNT },
        ],
        Instruction::SunlightBegin => seq![
            GpuCall::BindGraphicsPipeline { mode: GraphicsMode::DrawSunlight },
            GpuCall::SetScissor,
            GpuCall::SetViewport,
        ],
        Instruction::SunlightDraw { cmd } => seq![
            GpuCall::PushGraphicsConstants {
                stage: ShaderStage::Fragment,
                data: PushData::Sunlight { cmd },
            },
            GpuCall::Draw { first: 0, count: 6 },
        ],
        Instruction::LineDraw { buf, line_count } => seq![
            GpuCall::BindGraphicsPipeline { mode: GraphicsMode::DrawLine },
            GpuCall::SetScissor,
            GpuCall::SetViewport,
            GpuCall::PushGraphicsConstants {
                stage: ShaderStage::Vertex,
                data: PushData::ViewProj,
            },
            GpuCall::BindVertexBuffer {
                buf,
                len: (line_count as int * LINE_STRIDE as int) as u64,
            },
            GpuCall::Draw { first: 0, count: line_count },
        ],
    }
}

/// The driver calls that replay the first `n` instructions, in order.
pub open spec fn calls_upto(instrs: Seq<Instruction>, n: int) -> Seq<GpuCall>
    decreases n,
{
    if n <= 0 {
        Seq::empty()
    } else {
        calls_upto(instrs, n - 1) + calls_of_instr(instrs[n - 1])
    }
}

} // verus!
