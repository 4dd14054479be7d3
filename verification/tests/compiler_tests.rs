use frame_core::command::{
    Camera, Command, IndexType, LineCommand, LineVertex, MeshCommand, PointLightCommand,
    RectLightCommand, SpotlightCommand, SunlightCommand,
};
use frame_core::compiler::compile;
use frame_core::instruction::Instruction;
use frame_core::material::Material;
use frame_core::pool::Pool;

fn camera() -> Camera {
    Camera { view: [0; 16], projection: [0; 16] }
}

fn mesh(material: Material) -> Command {
    Command::Mesh(MeshCommand {
        material,
        index_type: IndexType::U16,
        skinned: false,
        index_buf: 7,
        index_count: 36,
        vertex_buf: 8,
        vertex_count: 24,
        base_vertex: 0,
        transform: [0; 16],
    })
}

fn material(a: u64, b: u64, c: u64) -> Material {
    Material { color: a, metal_rough: b, normal: c }
}

#[test]
fn zero_commands_compile_to_no_instructions() {
    let mut pool = Pool::new();
    let cmds: Vec<Command> = Vec::new();
    let comp = compile(&mut pool, &camera(), &cmds);
    assert_eq!(comp.instrs().len(), 0);
    assert_eq!(comp.materials().len(), 0);
    assert!(!comp.contains_lines());
}

#[test]
fn one_mesh_yields_one_group_and_one_draw() {
    let mut pool = Pool::new();
    let m = material(1, 2, 3);
    let cmds = vec![mesh(m)];
    let comp = compile(&mut pool, &camera(), &cmds);
    assert_eq!(comp.materials().len(), 1);
    assert_eq!(comp.materials()[0], m);
    let draws: Vec<&Instruction> = comp
        .instrs()
        .iter()
        .filter(|i| matches!(i, Instruction::MeshDraw { .. }))
        .collect();
    assert_eq!(draws.len(), 1);
    assert!(matches!(draws[0], Instruction::MeshDraw { cmd: 0, set: 0 }));
}

#[test]
fn distinct_materials_get_groups_in_first_seen_order() {
    let mut pool = Pool::new();
    let m1 = material(10, 11, 12);
    let m2 = material(20, 21, 22);
    let cmds = vec![mesh(m1), mesh(m2)];
    let comp = compile(&mut pool, &camera(), &cmds);
    assert_eq!(comp.materials().len(), 2);
    assert_eq!(comp.materials()[0], m1);
    assert_eq!(comp.materials()[1], m2);
    let sets: Vec<usize> = comp
        .instrs()
        .iter()
        .filter_map(|i| match i {
            Instruction::MeshDraw { cmd: _, set } => Some(*set),
            _ => None,
        })
        .collect();
    assert_eq!(sets, vec![0, 1]);
}

#[test]
fn equal_materials_share_one_group() {
    let mut pool = Pool::new();
    let m1 = material(5, 6, 7);
    let m2 = material(5, 6, 7);
    let cmds = vec![mesh(m1), mesh(m2)];
    let comp = compile(&mut pool, &camera(), &cmds);
    assert_eq!(comp.materials().len(), 1);
    let sets: Vec<usize> = comp
        .instrs()
        .iter()
        .filter_map(|i| match i {
            Instruction::MeshDraw { cmd: _, set } => Some(*set),
            _ => None,
        })
        .collect();
    assert_eq!(sets, vec![0, 0]);
}

#[test]
fn compute_dispatches_precede_mesh_draws() {
    let mut pool = Pool::new();
    let cmds = vec![mesh(material(1, 2, 3)), mesh(material(4, 5, 6))];
    let comp = compile(&mut pool, &camera(), &cmds);
    let last_calc = comp
        .instrs()
        .iter()
        .rposition(|i| matches!(i, Instruction::VertexAttrsCalc { .. }))
        .expect("a compute dispatch");
    let first_bind = comp
        .instrs()
        .iter()
        .position(|i| matches!(i, Instruction::MeshBind { .. }))
        .expect("a mesh bind");
    let first_draw = comp
        .instrs()
        .iter()
        .position(|i| matches!(i, Instruction::MeshDraw { .. }))
        .expect("a mesh draw");
    assert!(last_calc < first_bind);
    assert!(last_calc < first_draw);
}

#[test]
fn lights_are_grouped_by_kind_after_meshes() {
    let mut pool = Pool::new();
    let light = Command::PointLight(PointLightCommand {
        center: [0; 3],
        color: [0; 4],
        lumens: 1,
        radius: 2,
    });
    let sun = Command::Sunlight(SunlightCommand { normal: [0; 3], color: [0; 4], lumens: 3 });
    let cmds = vec![light, mesh(material(1, 2, 3)), sun];
    let comp = compile(&mut pool, &camera(), &cmds);
    let instrs = comp.instrs();
    let light_begin = instrs
        .iter()
        .position(|i| matches!(i, Instruction::LightBegin))
        .expect("a light begin");
    let mesh_draw = instrs
        .iter()
        .position(|i| matches!(i, Instruction::MeshDraw { .. }))
        .expect("a mesh draw");
    assert!(mesh_draw < light_begin);
    let point_draw = instrs
        .iter()
        .position(|i| matches!(i, Instruction::PointLightDraw { .. }))
        .expect("a point light draw");
    let sun_draw = instrs
        .iter()
        .position(|i| matches!(i, Instruction::SunlightDraw { .. }))
        .expect("a sunlight draw");
    assert!(light_begin < point_draw);
    assert!(point_draw < sun_draw);
    assert!(matches!(instrs[point_draw], Instruction::PointLightDraw { cmd: 0 }));
    assert!(matches!(instrs[sun_draw], Instruction::SunlightDraw { cmd: 2 }));
}

#[test]
fn rect_and_spot_lights_bind_the_volume_and_take_regions() {
    let mut pool = Pool::new();
    let rect = |_: u32| {
        Command::RectLight(RectLightCommand {
            position: [0; 3],
            normal: [0; 3],
            dims: [0; 2],
            color: [0; 4],
            lumens: 1,
            radius: 2,
            range: 3,
        })
    };
    let spot = Command::Spotlight(SpotlightCommand {
        position: [0; 3],
        normal: [0; 3],
        color: [0; 4],
        lumens: 1,
        cutoff_inner: 2,
        cutoff_outer: 3,
    });
    let cmds = vec![rect(0), spot, rect(1)];
    let comp = compile(&mut pool, &camera(), &cmds);
    let instrs = comp.instrs();
    // One begin per kind, then one draw per instance, each owning the next
    // region of the shared volume buffer.
    let rect_begin = instrs
        .iter()
        .position(|i| matches!(i, Instruction::RectLightBegin { .. }))
        .expect("rect begin");
    let rect_offsets: Vec<u32> = instrs
        .iter()
        .filter_map(|i| match i {
            Instruction::RectLightDraw { cmd: _, offset } => Some(*offset),
            _ => None,
        })
        .collect();
    assert_eq!(rect_offsets, vec![0, 18]);
    let spot_begin = instrs
        .iter()
        .position(|i| matches!(i, Instruction::SpotlightBegin { .. }))
        .expect("spot begin");
    assert!(rect_begin < spot_begin);
    assert!(matches!(
        instrs[spot_begin + 1],
        Instruction::SpotlightDraw { cmd: 1, offset: 0 }
    ));
    // The volume upload names the very buffer the begins bind.
    let volume_buf = match instrs[rect_begin] {
        Instruction::RectLightBegin { buf } => buf,
        _ => unreachable!(),
    };
    assert!(instrs.iter().any(
        |i| matches!(i, Instruction::VertexWrite { buf, len: 4320 } if *buf == volume_buf),
    ));
}

#[test]
fn lines_draw_last_from_an_uploaded_buffer() {
    let mut pool = Pool::new();
    let vertex = LineVertex { position: [0; 3], color: [0; 4] };
    let cmds = vec![Command::Line(LineCommand([vertex, vertex])), mesh(material(1, 2, 3))];
    let comp = compile(&mut pool, &camera(), &cmds);
    assert!(comp.contains_lines());
    let instrs = comp.instrs();
    let last = instrs.last().expect("instructions");
    assert!(matches!(last, Instruction::LineDraw { buf: _, line_count: 1 }));
    let line_buf = match last {
        Instruction::LineDraw { buf, .. } => *buf,
        _ => unreachable!(),
    };
    // The line vertices are uploaded, into the very buffer the draw reads.
    assert!(instrs.iter().any(
        |i| matches!(i, Instruction::VertexWrite { buf, len: 32 } if *buf == line_buf),
    ));
}

#[test]
fn light_volume_upload_happens_once_per_fresh_buffer() {
    let mut pool = Pool::new();
    let light = Command::PointLight(PointLightCommand {
        center: [0; 3],
        color: [0; 4],
        lumens: 1,
        radius: 2,
    });
    let cmds = vec![light];
    let first = compile(&mut pool, &camera(), &cmds);
    let volume_writes = |c: &frame_core::Compilation| {
        c.instrs()
            .iter()
            .filter(|i| matches!(i, Instruction::VertexWrite { buf: _, len: 4320 }))
            .count()
    };
    assert_eq!(volume_writes(&first), 1);
    first.reset(&mut pool);
    // The reused volume buffer keeps its static content: no second write.
    let second = compile(&mut pool, &camera(), &cmds);
    assert_eq!(volume_writes(&second), 0);
}
