//! The frame executor.
//!
//! A `DrawOp` runs one frame: it leases a command pool and a fence, sizes
//! the geometry buffer to the destination, compiles the command list, and
//! replays every instruction into a linear program of driver calls that an
//! unverified shell records and submits.  It is a small state machine:
//! new, then submitted once `record` ran, then complete once the fence
//! signaled.  Leases return to the pool only through `retire`, which an
//! in-flight frame refuses: resources referenced by running GPU work are
//! never reclaimed before the fence signals.

use vstd::prelude::*;

use crate::command::{BufferId, CalcVertexAttrsMode, Camera, Command, Skydome};
use crate::compiler::{
    compile, compile_program, frame_materials, Compilation, VertexBuffers, MAX_FRAME_COMMANDS,
};
use crate::def::{BufferClass, DrawRenderPassMode, Extent, GraphicsMode, Texture};
use crate::geom_buf::{GeometryBuffer, DEPTH_FORMAT, GEOM_BUF_FORMAT, LIGHT_FORMAT};
use crate::gpu_call::{
    calls_of_instr, calls_upto, AccessKind, DescriptorResource, DescriptorWrite, GpuCall,
    ImageLayout, ImageRef, PipelineStage, PushData, ShaderStage,
};
use crate::instruction::Instruction;
use crate::material::Material;
use crate::pool::{CmdPool, ComputeSets, DataBuf, Fence, GraphicsSets, Lease, Pool};

verus! {

/// Queue family the frame's command buffer is allocated for.
pub const GRAPHICS_QUEUE_FAMILY: u32 = 0;

/// Bytes of the skydome's static vertex geometry.
pub const SKYDOME_BUF_LEN: u64 = 10800;

/// Where one frame operation stands.
#[derive(Clone, Copy, Debug, PartialEq, Eq, Structural)]
pub enum OpState {
    /// Created; nothing recorded yet.
    New,
    /// Recorded and submitted; GPU work may be in flight.
    Submitted,
    /// The completion fence has signaled.
    Complete,
}

/// The skydome buffer of one frame: its identity, its content length, and
/// whether the executor still owes the one-time write of its static
/// vertices.
#[derive(Clone, Copy, Debug, PartialEq, Eq, Structural)]
pub struct SkydomeState {
    /// The skydome vertex buffer.
    pub buf: BufferId,
    /// Bytes of skydome geometry.
    pub len: u64,
    /// Whether the buffer is brand new and must be written once before
    /// the first draw that reads it.
    pub write: bool,
}

/// The calls that open a frame: begin recording, optionally preserve the
/// destination by copying it into the color target (with the transfer
/// layout transitions both images need first), transition all five render
/// targets into attachment layouts, and begin the render pass.
pub open spec fn begin_calls(preserve: bool, dims: Extent, mode: DrawRenderPassMode) -> Seq<
    GpuCall,
> {
    seq![GpuCall::BeginPrimary] + (if preserve {
        seq![
            GpuCall::SetImageLayout {
                image: ImageRef::Dst,
                layout: ImageLayout::TransferSrcOptimal,
                stage: PipelineStage::Transfer,
                access: AccessKind::TransferRead,
            },
            GpuCall::SetImageLayout {
                image: ImageRef::ColorMetal,
                layout: ImageLayout::TransferDstOptimal,
                stage: PipelineStage::Transfer,
                access: AccessKind::TransferWrite,
            },
            GpuCall::CopyImage { src: ImageRef::Dst, dst: ImageRef::ColorMetal, dims },
        ]
    } else {
        Seq::empty()
    }) + seq![
        GpuCall::SetImageLayout {
            image: ImageRef::ColorMetal,
            layout: ImageLayout::ColorAttachmentOptimal,
            stage: PipelineStage::ColorAttachmentOutput,
            access: AccessKind::ColorAttachmentWrite,
        },
        GpuCall::SetImageLayout {
            image: ImageRef::NormalRough,
            layout: ImageLayout::ColorAttachmentOptimal,
            stage: PipelineStage::ColorAttachmentOutput,
            access: AccessKind::ColorAttachmentWrite,
        },
        GpuCall::SetImageLayout {
            image: ImageRef::Light,
            layout: ImageLayout::ColorAttachmentOptimal,
            stage: PipelineStage::ColorAttachmentOutput,
            access: AccessKind::ColorAttachmentWrite,
        },
        GpuCall::SetImageLayout {
            image: ImageRef::Output,
            layout: ImageLayout::ColorAttachmentOptimal,
            stage: PipelineStage::ColorAttachmentOutput,
            access: AccessKind::ColorAttachmentWrite,
        },
        GpuCall::SetImageLayout {
            image: ImageRef::Depth,
            layout: ImageLayout::DepthStencilAttachmentOptimal,
            stage: PipelineStage::LateFragmentTests,
            access: AccessKind::DepthStencilAttachmentWrite,
        },
        GpuCall::BeginRenderPass { mode, dims },
    ]
}

/// The skydome pre-pass: the one-time write of its static vertices when
/// the buffer is brand new, then one draw in the dedicated first subpass,
/// then the transition to the geometry-fill subpass.
pub open spec fn skydome_calls(sky: Option<SkydomeState>) -> Seq<GpuCall> {
    match sky {
        None => Seq::empty(),
        Some(s) => (if s.write {
            seq![
                GpuCall::WriteBuffer {
                    buf: s.buf,
                    len: s.len,
                    stage: PipelineStage::VertexInput,
                    access: AccessKind::VertexBufferRead,
                },
            ]
        } else {
            Seq::empty()
        }) + seq![
            GpuCall::BindGraphicsPipeline { mode: GraphicsMode::Skydome },
            GpuCall::SetScissor,
            GpuCall::SetViewport,
            GpuCall::BindVertexBuffer { buf: s.buf, len: s.len },
            GpuCall::PushGraphicsConstants {
                stage: ShaderStage::Vertex,
                data: PushData::SkydomeVertex,
            },
            GpuCall::PushGraphicsConstants {
                stage: ShaderStage::Fragment,
                data: PushData::SkydomeFragment,
            },
            GpuCall::BindGraphicsDescriptorSet { mode: GraphicsMode::Skydome, set: 0 },
            GpuCall::Draw { first: 0, count: (s.len / 12) as u32 },
            GpuCall::NextSubpass,
        ],
    }
}

/// The calls that close a frame: end the render pass, copy the output
/// target into the destination (with the transfer layout transitions both
/// images need first), finish recording, and submit gated by the fence.
pub open spec fn finish_calls(dims: Extent, fence: u64) -> Seq<GpuCall> {
    seq![
        GpuCall::EndRenderPass,
        GpuCall::SetImageLayout {
            image: ImageRef::Output,
            layout: ImageLayout::TransferSrcOptimal,
            stage: PipelineStage::Transfer,
            access: AccessKind::TransferRead,
        },
        GpuCall::SetImageLayout {
            image: ImageRef::Dst,
            layout: ImageLayout::TransferDstOptimal,
            stage: PipelineStage::Transfer,
            access: AccessKind::TransferWrite,
        },
        GpuCall::CopyImage { src: ImageRef::Output, dst: ImageRef::Dst, dims },
        GpuCall::Finish,
        GpuCall::Submit { fence },
    ]
}

/// The complete driver program of one frame.
pub open spec fn frame_program(
    preserve: bool,
    dims: Extent,
    mode: DrawRenderPassMode,
    sky: Option<SkydomeState>,
    instrs: Seq<Instruction>,
    fence: u64,
) -> Seq<GpuCall> {
    begin_calls(preserve, dims, mode) + skydome_calls(sky) + calls_upto(
        instrs,
        instrs.len() as int,
    ) + finish_calls(dims, fence)
}

/// The three descriptor writes of one material group: its albedo,
/// metalness/roughness and normal textures, in binding order.
pub open spec fn material_writes(mats: Seq<Material>, n: int) -> Seq<DescriptorWrite>
    decreases n,
{
    if n <= 0 {
        Seq::empty()
    } else {
        material_writes(mats, n - 1) + seq![
            DescriptorWrite {
                graphics: true,
                graphics_mode: GraphicsMode::DrawMesh,
                compute_mode: CalcVertexAttrsMode::U16,
                set: (n - 1) as usize,
                binding: 0,
                resource: DescriptorResource::Texture(mats[n - 1].color),
            },
            DescriptorWrite {
                graphics: true,
                graphics_mode: GraphicsMode::DrawMesh,
                compute_mode: CalcVertexAttrsMode::U16,
                set: (n - 1) as usize,
                binding: 1,
                resource: DescriptorResource::Texture(mats[n - 1].metal_rough),
            },
            DescriptorWrite {
                graphics: true,
                graphics_mode: GraphicsMode::DrawMesh,
                compute_mode: CalcVertexAttrsMode::U16,
                set: (n - 1) as usize,
                binding: 2,
                resource: DescriptorResource::Texture(mats[n - 1].normal),
            },
        ]
    }
}

/// The six descriptor writes of the skydome: cloud layers, moon, sun and
/// tint lookups, in binding order.
pub open spec fn skydome_writes(sky: Option<Skydome>) -> Seq<DescriptorWrite> {
    match sky {
        None => Seq::empty(),
        Some(s) => seq![
            DescriptorWrite {
                graphics: true,
                graphics_mode: GraphicsMode::Skydome,
                compute_mode: CalcVertexAttrsMode::U16,
                set: 0,
                binding: 0,
                resource: DescriptorResource::Texture(s.cloud[0]),
            },
            DescriptorWrite {
                graphics: true,
                graphics_mode: GraphicsMode::Skydome,
                compute_mode: CalcVertexAttrsMode::U16,
                set: 0,
                binding: 1,
                resource: DescriptorResource::Texture(s.cloud[1]),
            },
            DescriptorWrite {
                graphics: true,
                graphics_mode: GraphicsMode::Skydome,
                compute_mode: CalcVertexAttrsMode::U16,
                set: 0,
                binding: 2,
                resource: DescriptorResource::Texture(s.moon),
            },
            DescriptorWrite {
                graphics: true,
                graphics_mode: GraphicsMode::Skydome,
                compute_mode: CalcVertexAttrsMode::U16,
                set: 0,
                binding: 3,
                resource: DescriptorResource::Texture(s.sun),
            },
            DescriptorWrite {
                graphics: true,
                graphics_mode: GraphicsMode::Skydome,
                compute_mode: CalcVertexAttrsMode::U16,
                set: 0,
                binding: 4,
                resource: DescriptorResource::Texture(s.tint[0]),
            },
            DescriptorWrite {
                graphics: true,
                graphics_mode: GraphicsMode::Skydome,
                compute_mode: CalcVertexAttrsMode::U16,
                set: 0,
                binding: 5,
                resource: DescriptorResource::Texture(s.tint[1]),
            },
        ],
    }
}

/// The four descriptor writes of one vertex-attribute computation: index
/// data, source vertices, computed attributes, and write mask, in binding
/// order.
pub open spec fn vertex_buf_writes(
    list: Seq<VertexBuffers>,
    mode: CalcVertexAttrsMode,
    n: int,
) -> Seq<DescriptorWrite>
    decreases n,
{
    if n <= 0 {
        Seq::empty()
    } else {
        let v = list[n - 1];
        vertex_buf_writes(list, mode, n - 1) + seq![
            DescriptorWrite {
                graphics: false,
                graphics_mode: GraphicsMode::DrawMesh,
                compute_mode: mode,
                set: (n - 1) as usize,
                binding: 0,
                resource: DescriptorResource::Buffer { buf: v.idx, len: v.idx_len },
            },
            DescriptorWrite {
                graphics: false,
                graphics_mode: GraphicsMode::DrawMesh,
                compute_mode: mode,
                set: (n - 1) as usize,
                binding: 1,
                resource: DescriptorResource::Buffer { buf: v.src, len: v.src_len },
            },
            DescriptorWrite {
                graphics: false,
                graphics_mode: GraphicsMode::DrawMesh,
                compute_mode: mode,
                set: (n - 1) as usize,
                binding: 2,
                resource: DescriptorResource::Buffer { buf: v.dst, len: v.dst_len },
            },
            DescriptorWrite {
                graphics: false,
                graphics_mode: GraphicsMode::DrawMesh,
                compute_mode: mode,
                set: (n - 1) as usize,
                binding: 3,
                resource: DescriptorResource::Buffer { buf: v.write_mask, len: v.write_mask_len },
            },
        ]
    }
}

fn emit_begin(out: &mut Vec<GpuCall>, preserve: bool, dims: Extent, mode: DrawRenderPassMode)
    ensures
        final(out)@ == old(out)@ + begin_calls(preserve, dims, mode),
{
    out.push(GpuCall::BeginPrimary);
    if preserve {
        out.push(
            GpuCall::SetImageLayout {
                image: ImageRef::Dst,
                layout: ImageLayout::TransferSrcOptimal,
                stage: PipelineStage::Transfer,
                access: AccessKind::TransferRead,
            },
        );
        out.push(
            GpuCall::SetImageLayout {
                image: ImageRef::ColorMetal,
                layout: ImageLayout::TransferDstOptimal,
                stage: PipelineStage::Transfer,
                access: AccessKind::TransferWrite,
            },
        );
        out.push(GpuCall::CopyImage { src: ImageRef::Dst, dst: ImageRef::ColorMetal, dims });
    }
    out.push(
        GpuCall::SetImageLayout {
            image: ImageRef::ColorMetal,
            layout: ImageLayout::ColorAttachmentOptimal,
            stage: PipelineStage::ColorAttachmentOutput,
            access: AccessKind::ColorAttachmentWrite,
        },
    );
    out.push(
        GpuCall::SetImageLayout {
            image: ImageRef::NormalRough,
            layout: ImageLayout::ColorAttachmentOptimal,
            stage: PipelineStage::ColorAttachmentOutput,
            access: AccessKind::ColorAttachmentWrite,
        },
    );
    out.push(
        GpuCall::SetImageLayout {
            image: ImageRef::Light,
            layout: ImageLayout::ColorAttachmentOptimal,
            stage: PipelineStage::ColorAttachmentOutput,
            access: AccessKind::ColorAttachmentWrite,
        },
    );
    out.push(
        GpuCall::SetImageLayout {
            image: ImageRef::Output,
            layout: ImageLayout::ColorAttachmentOptimal,
            stage: PipelineStage::ColorAttachmentOutput,
            access: AccessKind::ColorAttachmentWrite,
        },
    );
    out.push(
        GpuCall::SetImageLayout {
            image: ImageRef::Depth,
            layout: ImageLayout::DepthStencilAttachmentOptimal,
            stage: PipelineStage::LateFragmentTests,
            access: AccessKind::DepthStencilAttachmentWrite,
        },
    );
    out.push(GpuCall::BeginRenderPass { mode, dims });
    proof {
        assert(out@ =~= old(out)@ + begin_calls(preserve, dims, mode));
    }
}

fn emit_skydome(out: &mut Vec<GpuCall>, sky: &Option<SkydomeState>)
    ensures
        final(out)@ == old(out)@ + skydome_calls(*sky),
{
    match sky {
        None => {
            proof {
                assert(out@ =~= old(out)@ + skydome_calls(*sky));
            }
        },
        Some(s) => {
            if s.write {
                out.push(
                    GpuCall::WriteBuffer {
                        buf: s.buf,
                        len: s.len,
                        stage: PipelineStage::VertexInput,
                        access: AccessKind::VertexBufferRead,
                    },
                );
            }
            out.push(GpuCall::BindGraphicsPipeline { mode: GraphicsMode::Skydome });
            out.push(GpuCall::SetScissor);
            out.push(GpuCall::SetViewport);
            out.push(GpuCall::BindVertexBuffer { buf: s.buf, len: s.len });
            out.push(
                GpuCall::PushGraphicsConstants {
                    stage: ShaderStage::Vertex,
                    data: PushData::SkydomeVertex,
                },
            );
            out.push(
                GpuCall::PushGraphicsConstants {
                    stage: ShaderStage::Fragment,
                    data: PushData::SkydomeFragment,
                },
            );
            out.push(GpuCall::BindGraphicsDescriptorSet { mode: GraphicsMode::Skydome, set: 0 });
            out.push(GpuCall::Draw { first: 0, count: (s.len / 12) as u32 });
            out.push(GpuCall::NextSubpass);
            proof {
                assert(out@ =~= old(out)@ + skydome_calls(*sky));
            }
        },
    }
}

fn emit_finish(out: &mut Vec<GpuCall>, dims: Extent, fence: u64)
    ensures
        final(out)@ == old(out)@ + finish_calls(dims, fence),
{
    out.push(GpuCall::EndRenderPass);
    out.push(
        GpuCall::SetImageLayout {
            image: ImageRef::Output,
            layout: ImageLayout::TransferSrcOptimal,
            stage: PipelineStage::Transfer,
            access: AccessKind::TransferRead,
        },
    );
    out.push(
        GpuCall::SetImageLayout {
            image: ImageRef::Dst,
            layout: ImageLayout::TransferDstOptimal,
            stage: PipelineStage::Transfer,
            access: AccessKind::TransferWrite,
        },
    );
    out.push(GpuCall::CopyImage { src: ImageRef::Output, dst: ImageRef::Dst, dims });
    out.push(GpuCall::Finish);
    out.push(GpuCall::Submit { fence });
    proof {
        assert(out@ =~= old(out)@ + finish_calls(dims, fence));
    }
}

#[verifier::rlimit(100)]
fn emit_instr(out: &mut Vec<GpuCall>, instr: &Instruction)
    ensures
        final(out)@ == old(out)@ + calls_of_instr(*instr),
{
    match *instr {
        Instruction::IndexWriteRef { buf, len } => {
            out.push(
                GpuCall::WriteBuffer {
                    buf,
                    len,
                    stage: PipelineStage::VertexInput,
                    access: AccessKind::IndexBufferRead,
                },
            );
        },
        Instruction::VertexWriteRef { buf, len } => {
            out.push(
                GpuCall::WriteBuffer {
                    buf,
                    len,
                    stage: PipelineStage::ComputeShader,
                    access: AccessKind::ShaderRead,
                },
            );
        },
        Instruction::VertexWrite { buf, len } => {
            out.push(
                GpuCall::WriteBuffer {
                    buf,
                    len,
                    stage: PipelineStage::VertexInput,
                    access: AccessKind::VertexBufferRead,
                },
            );
        },
        Instruction::VertexAttrsBegin { mode } => {
            out.push(GpuCall::BindComputePipeline { mode });
        },
        Instruction::VertexAttrsDescriptors { mode, set } => {
            out.push(GpuCall::BindComputeDescriptorSet { mode, set });
        },
        Instruction::VertexAttrsCalc { mode: _, base_vertex, dispatch } => {
            out.push(
                GpuCall::PushComputeConstants { data: PushData::CalcVertexAttrs { base_vertex } },
            );
            out.push(GpuCall::Dispatch { groups: dispatch });
        },
        Instruction::MeshBegin => {
            out.push(GpuCall::BindGraphicsPipeline { mode: GraphicsMode::DrawMesh });
            out.push(GpuCall::SetScissor);
            out.push(GpuCall::SetViewport);
        },
        Instruction::MeshDescriptors { set } => {
            out.push(GpuCall::BindGraphicsDescriptorSet { mode: GraphicsMode::DrawMesh, set });
        },
        Instruction::MeshBind { index_buf, index_len, index_type, vertex_buf, vertex_len } => {
            out.push(GpuCall::BindIndexBuffer { buf: index_buf, len: index_len, index_type });
            out.push(GpuCall::BindVertexBuffer { buf: vertex_buf, len: vertex_len });
        },
        Instruction::MeshDraw { cmd, set: _ } => {
            out.push(
                GpuCall::PushGraphicsConstants {
                    stage: ShaderStage::Vertex,
                    data: PushData::WorldViewProj { cmd },
                },
            );
            out.push(GpuCall::DrawIndexed { cmd });
        },
        Instruction::LightBegin => {
            out.push(GpuCall::NextSubpass);
        },
        Instruction::LightBind { buf, len } => {
            out.push(GpuCall::BindVertexBuffer { buf, len });
        },
        Instruction::PointLightBegin => {
            out.push(GpuCall::BindGraphicsPipeline { mode: GraphicsMode::DrawPointLight });
            out.push(GpuCall::SetScissor);
            out.push(GpuCall::SetViewport);
        },
        Instruction::PointLightDraw { cmd } => {
            out.push(
                GpuCall::PushGraphicsConstants {
                    stage: ShaderStage::Vertex,
                    data: PushData::WorldViewProj { cmd },
                },
            );
            out.push(
                GpuCall::PushGraphicsConstants {
                    stage: ShaderStage::Vertex,
                    data: PushData::PointLight { cmd },
                },
            );
            out.push(GpuCall::Draw { first: 0, count: crate::compiler::POINT_LIGHT_DRAW_COUNT });
        },
        Instruction::RectLightBegin { buf } => {
            out.push(GpuCall::BindGraphicsPipeline { mode: GraphicsMode::DrawRectLight });
            out.push(GpuCall::SetScissor);
            out.push(GpuCall::SetViewport);
            out.push(
                GpuCall::BindVertexBuffer { buf, len: crate::compiler::LIGHT_VOLUME_LEN },
            );
        },
        Instruction::RectLightDraw { cmd, offset } => {
            out.push(
                GpuCall::PushGraphicsConstants {
                    stage: ShaderStage::Fragment,
                    data: PushData::RectLight { cmd },
                },
            );
            out.push(
                GpuCall::Draw { first: offset, count: crate::compiler::RECT_LIGHT_DRAW_COUNT },
            );
        },
        Instruction::SpotlightBegin { buf } => {
            out.push(GpuCall::BindGraphicsPipeline { mode: GraphicsMode::DrawSpotlight });
            out.push(GpuCall::SetScissor);
            out.push(GpuCall::SetViewport);
            out.push(
                GpuCall::BindVertexBuffer { buf, len: crate::compiler::LIGHT_VOLUME_LEN },
            );
        },
        Instruction::SpotlightDraw { cmd: _, offset } => {
            out.push(
                GpuCall::PushGraphicsConstants {
                    stage: ShaderStage::Fragment,
                    data: PushData::ViewProj,
                },
            );
            out.push(
                GpuCall::Draw { first: offset, count: crate::compiler::SPOTLIGHT_DRAW_COUNT },
            );
        },
        Instruction::SunlightBegin => {
            out.push(GpuCall::BindGraphicsPipeline { mode: GraphicsMode::DrawSunlight });
            out.push(GpuCall::SetScissor);
            out.push(GpuCall::SetViewport);
        },
        Instruction::SunlightDraw { cmd } => {
            out.push(
                GpuCall::PushGraphicsConstants {
                    stage: ShaderStage::Fragment,
                    data: PushData::Sunlight { cmd },
                },
            );
            out.push(GpuCall::Draw { first: 0, count: 6 });
        },
        Instruction::LineDraw { buf, line_count } => {
            out.push(GpuCall::BindGraphicsPipeline { mode: GraphicsMode::DrawLine });
            out.push(GpuCall::SetScissor);
            out.push(GpuCall::SetViewport);
            out.push(
                GpuCall::PushGraphicsConstants {
                    stage: ShaderStage::Vertex,
                    data: PushData::ViewProj,
                },
            );
            out.push(
                GpuCall::BindVertexBuffer {
                    buf,
                    len: (line_count as u64) * crate::compiler::LINE_STRIDE,
                },
            );
            out.push(GpuCall::Draw { first: 0, count: line_count });
        },
    }
    proof {
        assert(out@ =~= old(out)@ + calls_of_instr(*instr));
    }
}

fn emit_instrs(out: &mut Vec<GpuCall>, instrs: &Vec<Instruction>)
    ensures
        final(out)@ == old(out)@ + calls_upto(instrs@, instrs@.len() as int),
{
    let n = instrs.len();
    let mut i: usize = 0;
    while i < n
        invariant
            0 <= i <= n,
            n == instrs@.len(),
            out@ == old(out)@ + calls_upto(instrs@, i as int),
        decreases n - i,
    {
        emit_instr(out, &instrs[i]);
        i = i + 1;
    }
}

fn emit_material_writes(out: &mut Vec<DescriptorWrite>, mats: &Vec<Material>)
    ensures
        final(out)@ == old(out)@ + material_writes(mats@, mats@.len() as int),
{
    let n = mats.len();
    let mut i: usize = 0;
    while i < n
        invariant
            0 <= i <= n,
            n == mats@.len(),
            out@ == old(out)@ + material_writes(mats@, i as int),
        decreases n - i,
    {
        let m = mats[i];
        out.push(
            DescriptorWrite {
                graphics: true,
                graphics_mode: GraphicsMode::DrawMesh,
                compute_mode: CalcVertexAttrsMode::U16,
                set: i,
                binding: 0,
                resource: DescriptorResource::Texture(m.color),
            },
        );
        out.push(
            DescriptorWrite {
                graphics: true,
                graphics_mode: GraphicsMode::DrawMesh,
                compute_mode: CalcVertexAttrsMode::U16,
                set: i,
                binding: 1,
                resource: DescriptorResource::Texture(m.metal_rough),
            },
        );
        out.push(
            DescriptorWrite {
                graphics: true,
                graphics_mode: GraphicsMode::DrawMesh,
                compute_mode: CalcVertexAttrsMode::U16,
                set: i,
                binding: 2,
                resource: DescriptorResource::Texture(m.normal),
            },
        );
        proof {
            assert(out@ =~= old(out)@ + material_writes(mats@, i as int + 1));
        }
        i = i + 1;
    }
}

fn emit_skydome_writes(out: &mut Vec<DescriptorWrite>, sky: &Option<(Skydome, Lease<DataBuf>, u64, bool)>)
    ensures
        final(out)@ == old(out)@ + skydome_writes(
            match sky {
                Some(t) => Some(t.0),
                None => None,
            },
        ),
{
    match sky {
        None => {
            proof {
                assert(out@ =~= old(out)@ + Seq::<DescriptorWrite>::empty());
            }
        },
        Some(t) => {
            let s = &t.0;
            out.push(
                DescriptorWrite {
                    graphics: true,
                    graphics_mode: GraphicsMode::Skydome,
                    compute_mode: CalcVertexAttrsMode::U16,
                    set: 0,
                    binding: 0,
                    resource: DescriptorResource::Texture(s.cloud[0]),
                },
            );
            out.push(
                DescriptorWrite {
                    graphics: true,
                    graphics_mode: GraphicsMode::Skydome,
                    compute_mode: CalcVertexAttrsMode::U16,
                    set: 0,
                    binding: 1,
                    resource: DescriptorResource::Texture(s.cloud[1]),
                },
            );
            out.push(
                DescriptorWrite {
                    graphics: true,
                    graphics_mode: GraphicsMode::Skydome,
                    compute_mode: CalcVertexAttrsMode::U16,
                    set: 0,
                    binding: 2,
                    resource: DescriptorResource::Texture(s.moon),
                },
            );
            out.push(
                DescriptorWrite {
                    graphics: true,
                    graphics_mode: GraphicsMode::Skydome,
                    compute_mode: CalcVertexAttrsMode::U16,
                    set: 0,
                    binding: 3,
                    resource: DescriptorResource::Texture(s.sun),
                },
            );
            out.push(
                DescriptorWrite {
                    graphics: true,
                    graphics_mode: GraphicsMode::Skydome,
                    compute_mode: CalcVertexAttrsMode::U16,
                    set: 0,
                    binding: 4,
                    resource: DescriptorResource::Texture(s.tint[0]),
                },
            );
            out.push(
                DescriptorWrite {
                    graphics: true,
                    graphics_mode: GraphicsMode::Skydome,
                    compute_mode: CalcVertexAttrsMode::U16,
                    set: 0,
                    binding: 5,
                    resource: DescriptorResource::Texture(s.tint[1]),
                },
            );
            proof {
                assert(out@ =~= old(out)@ + skydome_writes(Some(t.0)));
            }
        },
    }
}

fn emit_vertex_buf_writes(
    out: &mut Vec<DescriptorWrite>,
    list: &Vec<VertexBuffers>,
    mode: CalcVertexAttrsMode,
)
    ensures
        final(out)@ == old(out)@ + vertex_buf_writes(list@, mode, list@.len() as int),
{
    let n = list.len();
    let mut i: usize = 0;
    while i < n
        invariant
            0 <= i <= n,
            n == list@.len(),
            out@ == old(out)@ + vertex_buf_writes(list@, mode, i as int),
        decreases n - i,
    {
        let v = list[i];
        out.push(
            DescriptorWrite {
                graphics: false,
                graphics_mode: GraphicsMode::DrawMesh,
                compute_mode: mode,
                set: i,
                binding: 0,
                resource: DescriptorResource::Buffer { buf: v.idx, len: v.idx_len },
            },
        );
        out.push(
            DescriptorWrite {
                graphics: false,
                graphics_mode: GraphicsMode::DrawMesh,
                compute_mode: mode,
                set: i,
                binding: 1,
                resource: DescriptorResource::Buffer { buf: v.src, len: v.src_len },
            },
        );
        out.push(
            DescriptorWrite {
                graphics: false,
                graphics_mode: GraphicsMode::DrawMesh,
                compute_mode: mode,
                set: i,
                binding: 2,
                resource: DescriptorResource::Buffer { buf: v.dst, len: v.dst_len },
            },
        );
        out.push(
            DescriptorWrite {
                graphics: false,
                graphics_mode: GraphicsMode::DrawMesh,
                compute_mode: mode,
                set: i,
                binding: 3,
                resource: DescriptorResource::Buffer { buf: v.write_mask, len: v.write_mask_len },
            },
        );
        proof {
            assert(out@ =~= old(out)@ + vertex_buf_writes(list@, mode, i as int + 1));
        }
        i = i + 1;
    }
}

/// One frame operation over the deferred-shading core.
pub struct DrawOp {
    state: OpState,
    cmd_pool: Lease<CmdPool>,
    fence: Lease<Fence>,
    dst: Texture,
    dst_preserve: bool,
    geom_buf: GeometryBuffer,
    skydome: Option<(Skydome, Lease<DataBuf>, u64, bool)>,
    compilation: Option<Compilation>,
    frame_mode: Option<DrawRenderPassMode>,
    graphics_line: Option<Lease<GraphicsSets>>,
    graphics_mesh: Option<Lease<GraphicsSets>>,
    graphics_point_light: Option<Lease<GraphicsSets>>,
    graphics_rect_light: Option<Lease<GraphicsSets>>,
    graphics_skydome: Option<Lease<GraphicsSets>>,
    graphics_spotlight: Option<Lease<GraphicsSets>>,
    graphics_sunlight: Option<Lease<GraphicsSets>>,
    compute_u16_vertex_attrs: Option<Lease<ComputeSets>>,
    compute_u16_skin_vertex_attrs: Option<Lease<ComputeSets>>,
    compute_u32_vertex_attrs: Option<Lease<ComputeSets>>,
    compute_u32_skin_vertex_attrs: Option<Lease<ComputeSets>>,
    program: Vec<GpuCall>,
    desc_writes: Vec<DescriptorWrite>,
}

impl DrawOp {
    /// Where the operation stands.
    pub closed spec fn spec_state(self) -> OpState {
        self.state
    }

    /// The destination image the frame renders into.
    pub closed spec fn spec_dst(self) -> Texture {
        self.dst
    }

    /// Whether the destination's existing content is composited in.
    pub closed spec fn spec_preserve(self) -> bool {
        self.dst_preserve
    }

    /// Handle of the frame's completion fence.
    pub closed spec fn spec_fence_id(self) -> u64 {
        self.fence@.id
    }

    /// The frame's geometry buffer.
    pub closed spec fn spec_geom_buf(self) -> GeometryBuffer {
        self.geom_buf
    }

    /// The frame's skydome buffer, when one is configured.
    pub closed spec fn spec_skydome_state(self) -> Option<SkydomeState> {
        match self.skydome {
            Some(t) => Some(SkydomeState { buf: t.1@.id, len: t.2, write: t.3 }),
            None => None,
        }
    }

    /// The frame's skydome description, when one is configured.
    pub closed spec fn spec_skydome(self) -> Option<Skydome> {
        match self.skydome {
            Some(t) => Some(t.0),
            None => None,
        }
    }

    /// The render-pass key the frame was recorded with.
    pub closed spec fn spec_mode(self) -> Option<DrawRenderPassMode> {
        self.frame_mode
    }

    /// The compiled instruction sequence of the recorded frame.
    pub closed spec fn spec_instrs(self) -> Seq<Instruction>
        recommends
            self.spec_state() !is New,
    {
        self.compilation->Some_0.spec_instrs()
    }

    /// The transient buffers of the recorded frame.
    pub closed spec fn spec_fb(self) -> crate::compiler::FrameBuffers {
        self.compilation->Some_0.spec_fb()
    }

    /// The descriptor-set groups of the recorded frame.
    pub closed spec fn spec_materials(self) -> Seq<Material> {
        self.compilation->Some_0.spec_materials()
    }

    /// The descriptor contents of one compute variant of the recorded
    /// frame.
    pub closed spec fn spec_vertex_bufs(self, mode: CalcVertexAttrsMode) -> Seq<VertexBuffers> {
        self.compilation->Some_0.spec_vertex_bufs(mode)
    }

    /// The driver program of the recorded frame.
    pub closed spec fn spec_program(self) -> Seq<GpuCall> {
        self.program@
    }

    /// The descriptor writes of the recorded frame.
    pub closed spec fn spec_desc_writes(self) -> Seq<DescriptorWrite> {
        self.desc_writes@
    }

    /// How many transient buffer leases the operation holds.
    pub closed spec fn spec_buffer_lease_count(self) -> nat {
        (match self.compilation {
            Some(c) => c.spec_lease_count(),
            None => 0nat,
        }) + (if self.skydome is Some {
            1nat
        } else {
            0nat
        })
    }

    /// Begins a frame against the destination: leases a command pool and a
    /// fence from the pool, and sizes the geometry buffer to the
    /// destination's extent and format.
    pub fn new(pool: &mut Pool, dst: &Texture) -> (r: DrawOp)
        ensures
            r.spec_state() is New,
            r.spec_dst() == *dst,
            !r.spec_preserve(),
            r.spec_skydome_state() is None,
            r.spec_program() == Seq::<GpuCall>::empty(),
            r.spec_geom_buf().wf(),
            r.spec_geom_buf().spec_dims() == dst.dims,
            r.spec_geom_buf().output.format == dst.format,
            final(pool).idle_buffers() == old(pool).idle_buffers(),
            final(pool).allocations() == old(pool).allocations(),
            final(pool).idle_graphics() == old(pool).idle_graphics(),
            final(pool).idle_computes() == old(pool).idle_computes(),
    {
        let cmd_pool = pool.cmd_pool(GRAPHICS_QUEUE_FAMILY);
        let fence = pool.fence();
        let geom_buf = GeometryBuffer::new(pool, dst.dims, dst.format);
        DrawOp {
            state: OpState::New,
            cmd_pool,
            fence,
            dst: *dst,
            dst_preserve: false,
            geom_buf,
            skydome: None,
            compilation: None,
            frame_mode: None,
            graphics_line: None,
            graphics_mesh: None,
            graphics_point_light: None,
            graphics_rect_light: None,
            graphics_skydome: None,
            graphics_spotlight: None,
            graphics_sunlight: None,
            compute_u16_vertex_attrs: None,
            compute_u16_skin_vertex_attrs: None,
            compute_u32_vertex_attrs: None,
            compute_u32_skin_vertex_attrs: None,
            program: Vec::new(),
            desc_writes: Vec::new(),
        }
    }

    /// Chooses whether the destination's existing content is composited
    /// into the final result; without it the destination is overwritten.
    pub fn with_preserve(&mut self, val: bool)
        requires
            old(self).spec_state() is New,
        ensures
            final(self).spec_state() is New,
            final(self).spec_preserve() == val,
            final(self).spec_dst() == old(self).spec_dst(),
            final(self).spec_skydome_state() == old(self).spec_skydome_state(),
            final(self).spec_skydome() == old(self).spec_skydome(),
            final(self).spec_fence_id() == old(self).spec_fence_id(),
    {
        self.dst_preserve = val;
    }

    /// Configures the given skydome as a pre-pass before geometry and
    /// lighting.  Its vertex buffer comes from the pool; a brand new
    /// buffer owes one write of the static geometry before the first draw
    /// that reads it, a reused one does not.
    pub fn with_skydome(&mut self, val: &Skydome, pool: &mut Pool)
        requires
            old(self).spec_state() is New,
        ensures
            final(self).spec_state() is New,
            final(self).spec_skydome() == Some(*val),
            ({
                let s = final(self).spec_skydome_state()->Some_0;
                &&& final(self).spec_skydome_state() is Some
                &&& match old(self).spec_skydome_state() {
                    Some(prev) => s == prev,
                    None => s.len == SKYDOME_BUF_LEN && s.write == crate::pool::allocates(
                        old(pool).idle_buffers(),
                        BufferClass::Skydome,
                        SKYDOME_BUF_LEN,
                    ),
                }
            }),
            final(self).spec_preserve() == old(self).spec_preserve(),
            final(self).spec_dst() == old(self).spec_dst(),
            final(self).spec_fence_id() == old(self).spec_fence_id(),
            final(pool).allocations().len() >= old(pool).allocations().len(),
            final(pool).idle_cmd_pools() == old(pool).idle_cmd_pools(),
            final(pool).idle_fences() == old(pool).idle_fences(),
            final(pool).idle_graphics() == old(pool).idle_graphics(),
            final(pool).idle_computes() == old(pool).idle_computes(),
    {
        match self.skydome.take() {
            Some((_, buf, len, write)) => {
                self.skydome = Some((*val, buf, len, write));
            },
            None => {
                let (buf, fresh) = pool.data_buffer(BufferClass::Skydome, SKYDOME_BUF_LEN);
                self.skydome = Some((*val, buf, SKYDOME_BUF_LEN, fresh));
            },
        }
    }

    /// Subpass of the geometry-buffer fill: the skydome pre-pass, when
    /// present, shifts it by one.
    pub fn fill_geom_buf_subpass_idx(&self) -> (r: u8)
        ensures
            r == if self.spec_skydome_state() is Some {
                1u8
            } else {
                0u8
            },
    {
        if self.skydome.is_some() {
            1
        } else {
            0
        }
    }

    /// Subpass of light accumulation: right after geometry fill.
    pub fn accum_light_subpass_idx(&self) -> (r: u8)
        ensures
            r == if self.spec_skydome_state() is Some {
                2u8
            } else {
                1u8
            },
    {
        if self.skydome.is_some() {
            2
        } else {
            1
        }
    }

    /// Subpass of the post effects: one intermediate subpass after light
    /// accumulation stays reserved.
    pub fn post_fx_subpass_idx(&self) -> (r: u8)
        ensures
            r == if self.spec_skydome_state() is Some {
                4u8
            } else {
                3u8
            },
    {
        if self.skydome.is_some() {
            4
        } else {
            3
        }
    }

    /// Records and submits the frame: compiles the command list, derives
    /// the render-pass key, acquires the pipelines and descriptor sets the
    /// instructions need, lists the descriptor writes, and replays every
    /// instruction into the frame's driver program, bracketed by the
    /// begin and finish calls and gated by the fence.
    #[verifier::rlimit(100)]
    pub fn record(&mut self, pool: &mut Pool, camera: &Camera, cmds: &Vec<Command>)
        requires
            old(self).spec_state() is New,
            cmds@.len() <= MAX_FRAME_COMMANDS,
        ensures
            final(self).spec_state() is Submitted,
            final(self).spec_mode() == Some(
                DrawRenderPassMode {
                    depth: DEPTH_FORMAT,
                    geom_buf: GEOM_BUF_FORMAT,
                    light: LIGHT_FORMAT,
                    output: old(self).spec_dst().format,
                    skydome: old(self).spec_skydome_state() is Some,
                    post_fx: crate::compiler::line_count(cmds@, cmds@.len() as int) > 0,
                },
            ),
            final(self).spec_instrs() == compile_program(cmds@, final(self).spec_fb()),
            final(self).spec_materials() == frame_materials(cmds@),
            final(self).spec_program() == frame_program(
                old(self).spec_preserve(),
                old(self).spec_dst().dims,
                final(self).spec_mode()->Some_0,
                old(self).spec_skydome_state(),
                final(self).spec_instrs(),
                old(self).spec_fence_id(),
            ),
            final(self).spec_desc_writes() == skydome_writes(old(self).spec_skydome())
                + material_writes(frame_materials(cmds@), frame_materials(cmds@).len() as int)
                + vertex_buf_writes(
                final(self).spec_vertex_bufs(CalcVertexAttrsMode::U16),
                CalcVertexAttrsMode::U16,
                final(self).spec_vertex_bufs(CalcVertexAttrsMode::U16).len() as int,
            ) + vertex_buf_writes(
                final(self).spec_vertex_bufs(CalcVertexAttrsMode::U16Skin),
                CalcVertexAttrsMode::U16Skin,
                final(self).spec_vertex_bufs(CalcVertexAttrsMode::U16Skin).len() as int,
            ) + vertex_buf_writes(
                final(self).spec_vertex_bufs(CalcVertexAttrsMode::U32),
                CalcVertexAttrsMode::U32,
                final(self).spec_vertex_bufs(CalcVertexAttrsMode::U32).len() as int,
            ) + vertex_buf_writes(
                final(self).spec_vertex_bufs(CalcVertexAttrsMode::U32Skin),
                CalcVertexAttrsMode::U32Skin,
                final(self).spec_vertex_bufs(CalcVertexAttrsMode::U32Skin).len() as int,
            ),
            final(self).spec_dst() == old(self).spec_dst(),
            final(self).spec_preserve() == old(self).spec_preserve(),
            final(self).spec_fence_id() == old(self).spec_fence_id(),
            final(pool).idle_cmd_pools() == old(pool).idle_cmd_pools(),
            final(pool).idle_fences() == old(pool).idle_fences(),
    {
        let comp = compile(pool, camera, cmds);
        let has_sky = self.skydome.is_some();
        let mode = DrawRenderPassMode {
            depth: DEPTH_FORMAT,
            geom_buf: GEOM_BUF_FORMAT,
            light: LIGHT_FORMAT,
            output: self.dst.format,
            skydome: has_sky,
            post_fx: comp.contains_lines(),
        };
        let fill_idx = self.fill_geom_buf_subpass_idx();
        let accum_idx = self.accum_light_subpass_idx();
        let post_idx = self.post_fx_subpass_idx();

        // Pipelines and descriptor sets, keyed by render pass, subpass and
        // fixed-function mode, from the pool.
        if has_sky {
            self.graphics_skydome = Some(
                pool.graphics_desc_sets(mode, 0, GraphicsMode::Skydome, 1),
            );
        }
        let n_mats = comp.materials().len();
        if n_mats > 0 {
            self.graphics_mesh = Some(
                pool.graphics_desc_sets(mode, fill_idx, GraphicsMode::DrawMesh, n_mats),
            );
        }
        let n = comp.vertex_bufs(CalcVertexAttrsMode::U16).len();
        if n > 0 {
            self.compute_u16_vertex_attrs = Some(
                pool.compute_desc_sets(CalcVertexAttrsMode::U16, n),
            );
        }
        let n = comp.vertex_bufs(CalcVertexAttrsMode::U16Skin).len();
        if n > 0 {
            self.compute_u16_skin_vertex_attrs = Some(
                pool.compute_desc_sets(CalcVertexAttrsMode::U16Skin, n),
            );
        }
        let n = comp.vertex_bufs(CalcVertexAttrsMode::U32).len();
        if n > 0 {
            self.compute_u32_vertex_attrs = Some(
                pool.compute_desc_sets(CalcVertexAttrsMode::U32, n),
            );
        }
        let n = comp.vertex_bufs(CalcVertexAttrsMode::U32Skin).len();
        if n > 0 {
            self.compute_u32_skin_vertex_attrs = Some(
                pool.compute_desc_sets(CalcVertexAttrsMode::U32Skin, n),
            );
        }
        if comp.has_point_lights() {
            self.graphics_point_light = Some(
                pool.graphics_desc_sets(mode, accum_idx, GraphicsMode::DrawPointLight, 0),
            );
        }
        if comp.has_rect_lights() {
            self.graphics_rect_light = Some(
                pool.graphics_desc_sets(mode, accum_idx, GraphicsMode::DrawRectLight, 0),
            );
        }
        if comp.has_spotlights() {
            self.graphics_spotlight = Some(
                pool.graphics_desc_sets(mode, accum_idx, GraphicsMode::DrawSpotlight, 0),
            );
        }
        if comp.has_sunlights() {
            self.graphics_sunlight = Some(
                pool.graphics_desc_sets(mode, accum_idx, GraphicsMode::DrawSunlight, 0),
            );
        }
        if comp.contains_lines() {
            self.graphics_line = Some(
                pool.graphics_desc_sets(mode, post_idx, GraphicsMode::DrawLine, 0),
            );
        }

        // Descriptor writes: the skydome's textures, each material group's
        // textures, and each vertex-attribute computation's buffers.
        let mut writes: Vec<DescriptorWrite> = Vec::new();
        emit_skydome_writes(&mut writes, &self.skydome);
        emit_material_writes(&mut writes, comp.materials());
        emit_vertex_buf_writes(
            &mut writes,
            comp.vertex_bufs(CalcVertexAttrsMode::U16),
            CalcVertexAttrsMode::U16,
        );
        emit_vertex_buf_writes(
            &mut writes,
            comp.vertex_bufs(CalcVertexAttrsMode::U16Skin),
            CalcVertexAttrsMode::U16Skin,
        );
        emit_vertex_buf_writes(
            &mut writes,
            comp.vertex_bufs(CalcVertexAttrsMode::U32),
            CalcVertexAttrsMode::U32,
        );
        emit_vertex_buf_writes(
            &mut writes,
            comp.vertex_bufs(CalcVertexAttrsMode::U32Skin),
            CalcVertexAttrsMode::U32Skin,
        );

        // The frame program: begin, skydome pre-pass, every compiled
        // instruction in order, then the closing copy and submission.
        let sky_state: Option<SkydomeState> = match &self.skydome {
            Some(t) => Some(SkydomeState { buf: t.1.item().id, len: t.2, write: t.3 }),
            None => None,
        };
        let mut prog: Vec<GpuCall> = Vec::new();
        emit_begin(&mut prog, self.dst_preserve, self.dst.dims, mode);
        emit_skydome(&mut prog, &sky_state);
        emit_instrs(&mut prog, comp.instrs());
        emit_finish(&mut prog, self.dst.dims, self.fence.item().id);

        // The one-time skydome write is now recorded; a later frame
        // reusing the buffer must not repeat it.
        if let Some(t) = &mut self.skydome {
            t.3 = false;
        }
        self.program = prog;
        self.desc_writes = writes;
        self.frame_mode = Some(mode);
        self.compilation = Some(comp);
        self.state = OpState::Submitted;
        proof {
            assert(self.spec_program() =~= frame_program(
                old(self).spec_preserve(),
                old(self).spec_dst().dims,
                mode,
                old(self).spec_skydome_state(),
                self.spec_instrs(),
                old(self).spec_fence_id(),
            ));
            assert(self.spec_desc_writes() =~= skydome_writes(old(self).spec_skydome())
                + material_writes(frame_materials(cmds@), frame_materials(cmds@).len() as int)
                + vertex_buf_writes(
                self.spec_vertex_bufs(CalcVertexAttrsMode::U16),
                CalcVertexAttrsMode::U16,
                self.spec_vertex_bufs(CalcVertexAttrsMode::U16).len() as int,
            ) + vertex_buf_writes(
                self.spec_vertex_bufs(CalcVertexAttrsMode::U16Skin),
                CalcVertexAttrsMode::U16Skin,
                self.spec_vertex_bufs(CalcVertexAttrsMode::U16Skin).len() as int,
            ) + vertex_buf_writes(
                self.spec_vertex_bufs(CalcVertexAttrsMode::U32),
                CalcVertexAttrsMode::U32,
                self.spec_vertex_bufs(CalcVertexAttrsMode::U32).len() as int,
            ) + vertex_buf_writes(
                self.spec_vertex_bufs(CalcVertexAttrsMode::U32Skin),
                CalcVertexAttrsMode::U32Skin,
                self.spec_vertex_bufs(CalcVertexAttrsMode::U32Skin).len() as int,
            ));
        }
    }

    /// The recorded driver program, for the shell that replays it.
    pub fn program(&self) -> (r: &Vec<GpuCall>)
        ensures
            r@ == self.spec_program(),
    {
        &self.program
    }

    /// The frame's five render targets, for the shell that creates the
    /// real images under their handles.
    pub fn geom_buf(&self) -> (r: &GeometryBuffer)
        ensures
            *r == self.spec_geom_buf(),
    {
        &self.geom_buf
    }

    /// The descriptor writes of the frame, for the shell that performs
    /// them before replaying the program.
    pub fn desc_writes(&self) -> (r: &Vec<DescriptorWrite>)
        ensures
            r@ == self.spec_desc_writes(),
    {
        &self.desc_writes
    }

    /// Handle of the frame's completion fence.
    pub fn fence_id(&self) -> (r: u64)
        ensures
            r == self.spec_fence_id(),
    {
        self.fence.item().id
    }

    /// Where the operation stands.
    pub fn state(&self) -> (r: OpState)
        ensures
            r == self.spec_state(),
    {
        self.state
    }

    /// The caller reports that the frame's fence has signaled: the GPU is
    /// done with every resource this frame leased.
    pub fn on_fence_signaled(&mut self)
        requires
            old(self).spec_state() is Submitted,
        ensures
            final(self).spec_state() is Complete,
            final(self).spec_program() == old(self).spec_program(),
            final(self).spec_fence_id() == old(self).spec_fence_id(),
    {
        self.state = OpState::Complete;
    }

    /// Ends the operation and returns every lease to the pool.  A
    /// submitted frame whose fence has not signaled is refused: its
    /// resources may still be read by in-flight GPU work, and must never
    /// rejoin the idle set before the fence reports completion.
    pub fn retire(self, pool: &mut Pool)
        requires
            !(self.spec_state() is Submitted),
        ensures
            final(pool).idle_cmd_pools() == old(pool).idle_cmd_pools() + 1,
            final(pool).idle_fences() == old(pool).idle_fences() + 1,
            final(pool).idle_buffers().len() == old(pool).idle_buffers().len()
                + self.spec_buffer_lease_count(),
            final(pool).idle_graphics() >= old(pool).idle_graphics(),
            final(pool).idle_computes() >= old(pool).idle_computes(),
            final(pool).allocations() == old(pool).allocations(),
    {
        let DrawOp {
            cmd_pool,
            fence,
            skydome,
            compilation,
            graphics_line,
            graphics_mesh,
            graphics_point_light,
            graphics_rect_light,
            graphics_skydome,
            graphics_spotlight,
            graphics_sunlight,
            compute_u16_vertex_attrs,
            compute_u16_skin_vertex_attrs,
            compute_u32_vertex_attrs,
            compute_u32_skin_vertex_attrs,
            ..
        } = self;
        if let Some(c) = compilation {
            c.reset(pool);
        }
        if let Some((_, buf, _, _)) = skydome {
            pool.release_data_buffer(buf);
        }
        if let Some(l) = graphics_line {
            pool.release_graphics(l);
        }
        if let Some(l) = graphics_mesh {
            pool.release_graphics(l);
        }
        if let Some(l) = graphics_point_light {
            pool.release_graphics(l);
        }
        if let Some(l) = graphics_rect_light {
            pool.release_graphics(l);
        }
        if let Some(l) = graphics_skydome {
            pool.release_graphics(l);
        }
        if let Some(l) = graphics_spotlight {
            pool.release_graphics(l);
        }
        if let Some(l) = graphics_sunlight {
            pool.release_graphics(l);
        }
        if let Some(l) = compute_u16_vertex_attrs {
            pool.release_compute(l);
        }
        if let Some(l) = compute_u16_skin_vertex_attrs {
            pool.release_compute(l);
        }
        if let Some(l) = compute_u32_vertex_attrs {
            pool.release_compute(l);
        }
        if let Some(l) = compute_u32_skin_vertex_attrs {
            pool.release_compute(l);
        }
        pool.release_cmd_pool(cmd_pool);
        pool.release_fence(fence);
    }
}

/// A frame over an empty instruction sequence and no skydome holds only
/// the mandatory bracketing: it opens with the begin calls, closes with
/// the copy-out and submission, and draws nothing.
pub proof fn lemma_empty_frame_bracketing(
    preserve: bool,
    dims: Extent,
    mode: DrawRenderPassMode,
    fence: u64,
)
    ensures
        ({
            let p = frame_program(preserve, dims, mode, None, Seq::empty(), fence);
            &&& p.len() > 0
            &&& p[0] == GpuCall::BeginPrimary
            &&& p[p.len() - 1] == (GpuCall::Submit { fence })
            &&& forall|j: int| 0 <= j < p.len() ==> !(#[trigger] p[j]).is_draw()
        }),
{
    let b = begin_calls(preserve, dims, mode);
    let f = finish_calls(dims, fence);
    let p = frame_program(preserve, dims, mode, None, Seq::empty(), fence);
    assert(p =~= b + f);
    assert forall|j: int| 0 <= j < b.len() implies !(#[trigger] b[j]).is_draw() by {
        if preserve {
            assert(b.len() == 10);
        } else {
            assert(b.len() == 7);
            assert(b[0] == GpuCall::BeginPrimary);
        }
    }
    assert forall|j: int| 0 <= j < p.len() implies !(#[trigger] p[j]).is_draw() by {
        if j < b.len() {
            assert(p[j] == b[j]);
        } else {
            assert(p[j] == f[j - b.len()]);
        }
    }
}

/// Destination preservation: when a frame is configured to preserve the
/// destination, its program copies the destination image into the color
/// target before any draw call of the frame.
pub proof fn lemma_preserve_copy_precedes_draws(
    dims: Extent,
    mode: DrawRenderPassMode,
    sky: Option<SkydomeState>,
    instrs: Seq<Instruction>,
    fence: u64,
)
    ensures
        ({
            let p = frame_program(true, dims, mode, sky, instrs, fence);
            &&& p[3] == (GpuCall::CopyImage { src: ImageRef::Dst, dst: ImageRef::ColorMetal, dims })
            &&& forall|j: int| 0 <= j < p.len() && (#[trigger] p[j]).is_draw() ==> 3 < j
        }),
{
    let p = frame_program(true, dims, mode, sky, instrs, fence);
    let b = begin_calls(true, dims, mode);
    assert(b[3] == (GpuCall::CopyImage { src: ImageRef::Dst, dst: ImageRef::ColorMetal, dims }));
    assert(p[3] == b[3]);
    assert forall|j: int| 0 <= j < p.len() && (#[trigger] p[j]).is_draw() implies 3 < j by {
        if j <= 3 {
            assert(p[j] == b[j]);
            assert(b[0] == GpuCall::BeginPrimary);
            assert(!b[0].is_draw() && !b[1].is_draw() && !b[2].is_draw() && !b[3].is_draw());
        }
    }
}

} // verus!
