//! A one-shot image copy operation.
//!
//! `CopyOp` copies a region of one image into another through the driver:
//! it leases a command pool and a fence, emits the copy program, and
//! becomes a `CopyOpSubmission`, whose leases return to the pool only once
//! the fence has signaled.

use vstd::prelude::*;

use crate::def::{Area, Extent, Offset, Texture};
use crate::draw_op::{OpState, GRAPHICS_QUEUE_FAMILY};
use crate::gpu_call::{AccessKind, GpuCall, ImageLayout, ImageRef, PipelineStage};
use crate::material::TextureId;
use crate::pool::{CmdPool, Fence, Lease, Pool};

verus! {

/// The driver program of one image copy: begin recording, transition both
/// images for the transfer, copy the region, finish, and submit gated by
/// the fence.
pub open spec fn copy_program(
    src: TextureId,
    dst: TextureId,
    src_offset: Offset,
    dst_offset: Offset,
    region: Extent,
    fence: u64,
) -> Seq<GpuCall> {
    seq![
        GpuCall::BeginPrimary,
        GpuCall::SetImageLayout {
            image: ImageRef::Image(src),
            layout: ImageLayout::TransferSrcOptimal,
            stage: PipelineStage::Transfer,
            access: AccessKind::TransferRead,
        },
        GpuCall::SetImageLayout {
            image: ImageRef::Image(dst),
            layout: ImageLayout::TransferDstOptimal,
            stage: PipelineStage::Transfer,
            access: AccessKind::TransferWrite,
        },
        GpuCall::CopyImageRegion {
            src: ImageRef::Image(src),
            dst: ImageRef::Image(dst),
            src_offset,
            dst_offset,
            extent: region,
        },
        GpuCall::Finish,
        GpuCall::Submit { fence },
    ]
}

/// A pending image copy, configurable until it is recorded.
pub struct CopyOp {
    cmd_pool: Lease<CmdPool>,
    fence: Lease<Fence>,
    src: Texture,
    dst: Texture,
    src_offset: Offset,
    dst_offset: Offset,
    region: Extent,
}

impl CopyOp {
    /// The source image.
    pub closed spec fn spec_src(self) -> Texture {
        self.src
    }

    /// The destination image.
    pub closed spec fn spec_dst(self) -> Texture {
        self.dst
    }

    /// Position read in the source.
    pub closed spec fn spec_src_offset(self) -> Offset {
        self.src_offset
    }

    /// Position written in the destination.
    pub closed spec fn spec_dst_offset(self) -> Offset {
        self.dst_offset
    }

    /// Extent copied.
    pub closed spec fn spec_region(self) -> Extent {
        self.region
    }

    /// Handle of the completion fence.
    pub closed spec fn spec_fence_id(self) -> u64 {
        self.fence@.id
    }

    /// Begins a copy of the whole source image into the destination at
    /// position zero, leasing a command pool and a fence from the pool.
    pub fn new(pool: &mut Pool, src: &Texture, dst: &Texture) -> (r: CopyOp)
        ensures
            r.spec_src() == *src,
            r.spec_dst() == *dst,
            r.spec_src_offset() == (Offset { x: 0, y: 0 }),
            r.spec_dst_offset() == (Offset { x: 0, y: 0 }),
            r.spec_region() == src.dims,
            final(pool).idle_buffers() == old(pool).idle_buffers(),
            final(pool).allocations() == old(pool).allocations(),
            final(pool).idle_graphics() == old(pool).idle_graphics(),
            final(pool).idle_computes() == old(pool).idle_computes(),
    {
        let cmd_pool = pool.cmd_pool(GRAPHICS_QUEUE_FAMILY);
        let fence = pool.fence();
        CopyOp {
            cmd_pool,
            fence,
            src: *src,
            dst: *dst,
            src_offset: Offset { x: 0, y: 0 },
            dst_offset: Offset { x: 0, y: 0 },
            region: src.dims,
        }
    }

    /// Chooses an identically-sized area of the source and destination to
    /// copy, and the position on the destination where the data will go.
    pub fn with_region(self, src_region: Area, dst: Offset) -> (r: CopyOp)
        ensures
            r.spec_src() == self.spec_src(),
            r.spec_dst() == self.spec_dst(),
            r.spec_src_offset() == src_region.pos,
            r.spec_dst_offset() == dst,
            r.spec_region() == src_region.dims,
            r.spec_fence_id() == self.spec_fence_id(),
    {
        CopyOp { src_offset: src_region.pos, dst_offset: dst, region: src_region.dims, ..self }
    }

    fn submit(&self, out: &mut Vec<GpuCall>)
        ensures
            final(out)@ == old(out)@ + copy_program(
                self.spec_src().id,
                self.spec_dst().id,
                self.spec_src_offset(),
                self.spec_dst_offset(),
                self.spec_region(),
                self.spec_fence_id(),
            ),
    {
        out.push(GpuCall::BeginPrimary);
        out.push(
            GpuCall::SetImageLayout {
                image: ImageRef::Image(self.src.id),
                layout: ImageLayout::TransferSrcOptimal,
                stage: PipelineStage::Transfer,
                access: AccessKind::TransferRead,
            },
        );
        out.push(
            GpuCall::SetImageLayout {
                image: ImageRef::Image(self.dst.id),
                layout: ImageLayout::TransferDstOptimal,
                stage: PipelineStage::Transfer,
                access: AccessKind::TransferWrite,
            },
        );
        out.push(
            GpuCall::CopyImageRegion {
                src: ImageRef::Image(self.src.id),
                dst: ImageRef::Image(self.dst.id),
                src_offset: self.src_offset,
                dst_offset: self.dst_offset,
                extent: self.region,
            },
        );
        out.push(GpuCall::Finish);
        out.push(GpuCall::Submit { fence: self.fence.item().id });
        proof {
            assert(out@ =~= old(out)@ + copy_program(
                self.spec_src().id,
                self.spec_dst().id,
                self.spec_src_offset(),
                self.spec_dst_offset(),
                self.spec_region(),
                self.spec_fence_id(),
            ));
        }
    }

    /// Records and submits the copy.  The returned submission holds the
    /// leases until the fence signals.
    pub fn record(self) -> (r: CopyOpSubmission)
        ensures
            r.spec_state() is Submitted,
            r.spec_program() == copy_program(
                self.spec_src().id,
                self.spec_dst().id,
                self.spec_src_offset(),
                self.spec_dst_offset(),
                self.spec_region(),
                self.spec_fence_id(),
            ),
            r.spec_fence_id() == self.spec_fence_id(),
    {
        let mut program: Vec<GpuCall> = Vec::new();
        self.submit(&mut program);
        let CopyOp { cmd_pool, fence, .. } = self;
        CopyOpSubmission { state: OpState::Submitted, cmd_pool, fence, program }
    }
}

/// A submitted copy, waiting on its fence.
pub struct CopyOpSubmission {
    state: OpState,
    cmd_pool: Lease<CmdPool>,
    fence: Lease<Fence>,
    program: Vec<GpuCall>,
}

impl CopyOpSubmission {
    /// Where the operation stands.
    pub closed spec fn spec_state(self) -> OpState {
        self.state
    }

    /// The recorded driver program.
    pub closed spec fn spec_program(self) -> Seq<GpuCall> {
        self.program@
    }

    /// Handle of the completion fence.
    pub closed spec fn spec_fence_id(self) -> u64 {
        self.fence@.id
    }

    /// The recorded driver program, for the shell that replays it.
    pub fn program(&self) -> (r: &Vec<GpuCall>)
        ensures
            r@ == self.spec_program(),
    {
        &self.program
    }

    /// Handle of the completion fence.
    pub fn fence_id(&self) -> (r: u64)
        ensures
            r == self.spec_fence_id(),
    {
        self.fence.item().id
    }

    /// The caller reports that the fence has signaled.
    pub fn on_fence_signaled(&mut self)
        requires
            old(self).spec_state() is Submitted,
        ensures
            final(self).spec_state() is Complete,
            final(self).spec_program() == old(self).spec_program(),
    {
        self.state = OpState::Complete;
    }

    /// Returns the leases to the pool.  Refused while the copy may still
    /// be in flight: the fence must signal first.
    pub fn retire(self, pool: &mut Pool)
        requires
            !(self.spec_state() is Submitted),
        ensures
            final(pool).idle_cmd_pools() == old(pool).idle_cmd_pools() + 1,
            final(pool).idle_fences() == old(pool).idle_fences() + 1,
            final(pool).idle_buffers() == old(pool).idle_buffers(),
            final(pool).allocations() == old(pool).allocations(),
            final(pool).idle_graphics() == old(pool).idle_graphics(),
            final(pool).idle_computes() == old(pool).idle_computes(),
    {
        let CopyOpSubmission { cmd_pool, fence, .. } = self;
        pool.release_cmd_pool(cmd_pool);
        pool.release_fence(fence);
    }
}

} // verus!
