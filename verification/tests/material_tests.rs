use std::cmp::Ordering;

use frame_core::copy_op::CopyOp;
use frame_core::def::{Area, Extent, Offset, Texture};
use frame_core::geom_buf::GeometryBuffer;
use frame_core::gpu_call::{GpuCall, ImageRef};
use frame_core::material::Material;
use frame_core::pool::Pool;

#[test]
fn equality_is_texture_identity() {
    let a = Material { color: 1, metal_rough: 2, normal: 3 };
    let b = Material { color: 1, metal_rough: 2, normal: 3 };
    let c = Material { color: 1, metal_rough: 2, normal: 4 };
    assert!(a.same_identity(&b));
    assert_eq!(a, b);
    assert!(!a.same_identity(&c));
    assert_ne!(a, c);
}

#[test]
fn ordering_is_strict_lexicographic_over_all_three_fields() {
    let a = Material { color: 1, metal_rough: 9, normal: 9 };
    let b = Material { color: 2, metal_rough: 0, normal: 0 };
    assert_eq!(a.cmp(&b), Ordering::Less);
    let c = Material { color: 1, metal_rough: 9, normal: 8 };
    assert_eq!(c.cmp(&a), Ordering::Less);
    let d = Material { color: 1, metal_rough: 9, normal: 9 };
    assert_eq!(a.cmp(&d), Ordering::Equal);
}

#[test]
fn geometry_buffer_targets_share_one_extent() {
    let mut pool = Pool::new();
    let dims = Extent { width: 640, height: 480 };
    let buf = GeometryBuffer::new(&mut pool, dims, 44);
    assert_eq!(buf.color_metal.dims, dims);
    assert_eq!(buf.normal_rough.dims, dims);
    assert_eq!(buf.light.dims, dims);
    assert_eq!(buf.output.dims, dims);
    assert_eq!(buf.depth.dims, dims);
    assert_eq!(buf.output.format, 44);
    assert!(buf.fits(dims, 44));
    assert!(!buf.fits(Extent { width: 641, height: 480 }, 44));
    assert!(!buf.fits(dims, 45));
}

#[test]
fn copy_op_program_copies_the_chosen_region() {
    let mut pool = Pool::new();
    let src = Texture { id: 1, dims: Extent { width: 64, height: 64 }, format: 44 };
    let dst = Texture { id: 2, dims: Extent { width: 128, height: 128 }, format: 44 };
    let op = CopyOp::new(&mut pool, &src, &dst).with_region(
        Area { pos: Offset { x: 4, y: 8 }, dims: Extent { width: 16, height: 16 } },
        Offset { x: 32, y: 48 },
    );
    let submission = op.record();
    let program = submission.program().clone();
    assert!(matches!(program[0], GpuCall::BeginPrimary));
    assert!(matches!(
        program[3],
        GpuCall::CopyImageRegion {
            src: ImageRef::Image(1),
            dst: ImageRef::Image(2),
            src_offset: Offset { x: 4, y: 8 },
            dst_offset: Offset { x: 32, y: 48 },
            extent: Extent { width: 16, height: 16 },
        }
    ));
    assert!(matches!(program[5], GpuCall::Submit { .. }));

    // The copy's leases come back only after its fence signals.
    let mut submission = submission;
    assert_eq!(pool.idle_fence_count(), 0);
    submission.on_fence_signaled();
    submission.retire(&mut pool);
    assert_eq!(pool.idle_fence_count(), 1);
    assert_eq!(pool.idle_cmd_pool_count(), 1);
}
