use frame_core::command::{Camera, Command, IndexType, MeshCommand, Skydome};
use frame_core::def::{Extent, Texture};
use frame_core::draw_op::{DrawOp, OpState};
use frame_core::gpu_call::{GpuCall, ImageRef};
use frame_core::material::Material;
use frame_core::pool::Pool;

fn camera() -> Camera {
    Camera { view: [0; 16], projection: [0; 16] }
}

fn dst() -> Texture {
    Texture { id: 999, dims: Extent { width: 1280, height: 720 }, format: 44 }
}

fn mesh() -> Command {
    Command::Mesh(MeshCommand {
        material: Material { color: 1, metal_rough: 2, normal: 3 },
        index_type: IndexType::U32,
        skinned: true,
        index_buf: 70,
        index_count: 36,
        vertex_buf: 80,
        vertex_count: 24,
        base_vertex: 0,
        transform: [0; 16],
    })
}

fn skydome() -> Skydome {
    Skydome {
        cloud: [31, 32],
        moon: 33,
        sun: 34,
        sun_normal: [0; 3],
        star_rotation: [0; 4],
        time: 0,
        tint: [35, 36],
        weather: 0,
    }
}

fn is_draw(c: &GpuCall) -> bool {
    matches!(c, GpuCall::Draw { .. } | GpuCall::DrawIndexed { .. })
}

#[test]
fn subpass_indices_with_skydome() {
    let mut pool = Pool::new();
    let mut op = DrawOp::new(&mut pool, &dst());
    op.with_skydome(&skydome(), &mut pool);
    assert_eq!(op.fill_geom_buf_subpass_idx(), 1);
    assert_eq!(op.accum_light_subpass_idx(), 2);
    assert_eq!(op.post_fx_subpass_idx(), 4);
}

#[test]
fn subpass_indices_without_skydome() {
    let mut pool = Pool::new();
    let op = DrawOp::new(&mut pool, &dst());
    assert_eq!(op.fill_geom_buf_subpass_idx(), 0);
    assert_eq!(op.accum_light_subpass_idx(), 1);
    assert_eq!(op.post_fx_subpass_idx(), 3);
}

#[test]
fn zero_commands_yield_only_bracketing() {
    let mut pool = Pool::new();
    let mut op = DrawOp::new(&mut pool, &dst());
    let cmds: Vec<Command> = Vec::new();
    op.record(&mut pool, &camera(), &cmds);
    let program = op.program();
    assert!(matches!(program[0], GpuCall::BeginPrimary));
    assert!(program.iter().any(|c| matches!(c, GpuCall::BeginRenderPass { .. })));
    assert!(program.iter().any(|c| matches!(c, GpuCall::EndRenderPass)));
    assert!(matches!(program.last(), Some(GpuCall::Submit { .. })));
    assert!(program.iter().all(|c| !is_draw(c)));
    assert!(program.iter().all(|c| !matches!(c, GpuCall::Dispatch { .. })));
}

#[test]
fn preserve_copies_destination_before_any_draw() {
    let mut pool = Pool::new();
    let mut op = DrawOp::new(&mut pool, &dst());
    op.with_preserve(true);
    let cmds = vec![mesh()];
    op.record(&mut pool, &camera(), &cmds);
    let program = op.program();
    let copy = program
        .iter()
        .position(|c| {
            matches!(
                c,
                GpuCall::CopyImage { src: ImageRef::Dst, dst: ImageRef::ColorMetal, dims: _ }
            )
        })
        .expect("the preserving copy");
    assert_eq!(copy, 3);
    for (i, call) in program.iter().enumerate() {
        if is_draw(call) {
            assert!(copy < i);
        }
    }
    // There is at least one geometry-fill draw to order against.
    assert!(program.iter().any(|c| matches!(c, GpuCall::DrawIndexed { .. })));
}

#[test]
fn without_preserve_no_destination_read() {
    let mut pool = Pool::new();
    let mut op = DrawOp::new(&mut pool, &dst());
    let cmds = vec![mesh()];
    op.record(&mut pool, &camera(), &cmds);
    assert!(op.program().iter().all(|c| {
        !matches!(c, GpuCall::CopyImage { src: ImageRef::Dst, .. })
    }));
}

#[test]
fn leases_return_only_after_fence_signals() {
    let mut pool = Pool::new();
    let mut op = DrawOp::new(&mut pool, &dst());
    let cmds = vec![mesh()];
    op.record(&mut pool, &camera(), &cmds);
    assert_eq!(op.state(), OpState::Submitted);
    // While the frame is in flight, nothing of it sits in the idle set.
    assert_eq!(pool.idle_fence_count(), 0);
    assert_eq!(pool.idle_cmd_pool_count(), 0);
    op.on_fence_signaled();
    assert_eq!(op.state(), OpState::Complete);
    op.retire(&mut pool);
    assert_eq!(pool.idle_fence_count(), 1);
    assert_eq!(pool.idle_cmd_pool_count(), 1);
}

#[test]
fn dropping_before_submission_releases_leases() {
    let mut pool = Pool::new();
    let op = DrawOp::new(&mut pool, &dst());
    assert_eq!(op.state(), OpState::New);
    op.retire(&mut pool);
    assert_eq!(pool.idle_fence_count(), 1);
    assert_eq!(pool.idle_cmd_pool_count(), 1);
}

#[test]
fn skydome_vertices_are_written_exactly_once() {
    let mut pool = Pool::new();

    let mut first = DrawOp::new(&mut pool, &dst());
    first.with_skydome(&skydome(), &mut pool);
    first.record(&mut pool, &camera(), &Vec::new());
    let writes = |p: &Vec<GpuCall>| {
        p.iter().filter(|c| matches!(c, GpuCall::WriteBuffer { len: 10800, .. })).count()
    };
    assert_eq!(writes(first.program()), 1);
    first.on_fence_signaled();
    first.retire(&mut pool);

    // The next frame reuses the pooled buffer, whose content is static.
    let mut second = DrawOp::new(&mut pool, &dst());
    second.with_skydome(&skydome(), &mut pool);
    second.record(&mut pool, &camera(), &Vec::new());
    assert_eq!(writes(second.program()), 0);
    // The skydome still draws in its own leading subpass.
    assert!(second.program().iter().any(|c| matches!(c, GpuCall::Draw { first: 0, count: 900 })));
}

#[test]
fn frame_submits_gated_by_its_own_fence() {
    let mut pool = Pool::new();
    let mut op = DrawOp::new(&mut pool, &dst());
    let fence = op.fence_id();
    op.record(&mut pool, &camera(), &Vec::new());
    assert!(matches!(op.program().last(), Some(GpuCall::Submit { fence: f }) if *f == fence));
}
