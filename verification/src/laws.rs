//! Laws of the compiled instruction sequence.
//!
//! These proof functions state, once and for all frames, the ordering and
//! deduplication guarantees of `compile_program`: phases never run
//! backwards, every compute dispatch precedes every draw that binds
//! computed attributes, and two mesh draws share a descriptor-set group
//! exactly when their materials are texture-identical.

use vstd::prelude::*;

use crate::command::{CalcVertexAttrsMode, Command, MeshCommand};
use crate::compiler::{
    compile_program, compute_mode_phase, compute_phase, frame_materials, group_draws,
    groups_prefix, light_phase, line_phase, materials_prefix, mesh_count, mesh_phase, point_count,
    point_draws, rect_draws, spot_draws, sun_draws, triads, upload_mesh_instrs, upload_phase,
    FrameBuffers,
};
use crate::instruction::Instruction;
use crate::material::Material;

verus! {

proof fn lemma_upload_mesh_ranks(cmds: Seq<Command>, n: int)
    ensures
        forall|k: int|
            0 <= k < upload_mesh_instrs(cmds, n).len() ==> #[trigger] upload_mesh_instrs(
                cmds,
                n,
            )[k].phase() == 0,
    decreases n,
{
    if n > 0 {
        lemma_upload_mesh_ranks(cmds, n - 1);
        let prev = upload_mesh_instrs(cmds, n - 1);
        let cur = upload_mesh_instrs(cmds, n);
        assert forall|k: int| 0 <= k < cur.len() implies #[trigger] cur[k].phase() == 0 by {
            if k < prev.len() {
                assert(cur[k] == prev[k]);
            }
        }
    }
}

proof fn lemma_upload_phase_ranks(cmds: Seq<Command>, fb: FrameBuffers)
    ensures
        forall|k: int|
            0 <= k < upload_phase(cmds, fb).len() ==> #[trigger] upload_phase(cmds, fb)[k].phase()
                == 0,
{
    lemma_upload_mesh_ranks(cmds, cmds.len() as int);
}

proof fn lemma_triads_ranks(cmds: Seq<Command>, mode: CalcVertexAttrsMode, k: int)
    ensures
        forall|j: int|
            0 <= j < triads(cmds, mode, k).len() ==> #[trigger] triads(cmds, mode, k)[j].phase()
                == 1,
    decreases k,
{
    if k > 0 {
        lemma_triads_ranks(cmds, mode, k - 1);
        let prev = triads(cmds, mode, k - 1);
        let cur = triads(cmds, mode, k);
        assert forall|j: int| 0 <= j < cur.len() implies #[trigger] cur[j].phase() == 1 by {
            if j < prev.len() {
                assert(cur[j] == prev[j]);
            }
        }
    }
}

proof fn lemma_compute_phase_ranks(cmds: Seq<Command>)
    ensures
        forall|k: int|
            0 <= k < compute_phase(cmds).len() ==> #[trigger] compute_phase(cmds)[k].phase() == 1,
{
    lemma_triads_ranks(cmds, CalcVertexAttrsMode::U16, cmds.len() as int);
    lemma_triads_ranks(cmds, CalcVertexAttrsMode::U16Skin, cmds.len() as int);
    lemma_triads_ranks(cmds, CalcVertexAttrsMode::U32, cmds.len() as int);
    lemma_triads_ranks(cmds, CalcVertexAttrsMode::U32Skin, cmds.len() as int);
    lemma_triads_ranks(
        cmds,
        CalcVertexAttrsMode::U16,
        crate::compiler::mode_list(cmds, CalcVertexAttrsMode::U16, cmds.len() as int).len() as int,
    );
    lemma_triads_ranks(
        cmds,
        CalcVertexAttrsMode::U16Skin,
        crate::compiler::mode_list(
            cmds,
            CalcVertexAttrsMode::U16Skin,
            cmds.len() as int,
        ).len() as int,
    );
    lemma_triads_ranks(
        cmds,
        CalcVertexAttrsMode::U32,
        crate::compiler::mode_list(cmds, CalcVertexAttrsMode::U32, cmds.len() as int).len() as int,
    );
    lemma_triads_ranks(
        cmds,
        CalcVertexAttrsMode::U32Skin,
        crate::compiler::mode_list(
            cmds,
            CalcVertexAttrsMode::U32Skin,
            cmds.len() as int,
        ).len() as int,
    );
}

proof fn lemma_group_draws_elems(cmds: Seq<Command>, fb: FrameBuffers, g: int, n: int)
    requires
        0 <= g <= usize::MAX as int,
        n <= usize::MAX as int,
    ensures
        forall|k: int|
            0 <= k < group_draws(cmds, fb, g, n).len() ==> {
                let e = #[trigger] group_draws(cmds, fb, g, n)[k];
                &&& e.phase() == 2
                &&& !(e is MeshBegin)
                &&& !(e matches Instruction::MeshDescriptors { .. })
                &&& (e matches Instruction::MeshDraw { cmd, set } ==> {
                    &&& set == g
                    &&& 0 <= cmd < n
                    &&& cmds[cmd as int] is Mesh
                    &&& cmds[cmd as int].mesh().material == frame_materials(cmds)[g]
                })
            },
    decreases n,
{
    if n > 0 {
        lemma_group_draws_elems(cmds, fb, g, n - 1);
        let prev = group_draws(cmds, fb, g, n - 1);
        let cur = group_draws(cmds, fb, g, n);
        assert forall|k: int| 0 <= k < cur.len() implies {
            let e = #[trigger] cur[k];
            &&& e.phase() == 2
            &&& !(e is MeshBegin)
            &&& !(e matches Instruction::MeshDescriptors { .. })
            &&& (e matches Instruction::MeshDraw { cmd, set } ==> {
                &&& set == g
                &&& 0 <= cmd < n
                &&& cmds[cmd as int] is Mesh
                &&& cmds[cmd as int].mesh().material == frame_materials(cmds)[g]
            })
        } by {
            if k < prev.len() {
                assert(cur[k] == prev[k]);
            } else if cur.len() == prev.len() + 2 {
                let m = cmds[n - 1].mesh();
                if k == prev.len() {
                    assert(cur[k] == Instruction::MeshBind {
                        index_buf: m.index_buf,
                        index_len: crate::compiler::index_len(m),
                        index_type: m.index_type,
                        vertex_buf: fb.attr_bufs[mesh_count(cmds, n - 1)],
                        vertex_len: crate::compiler::vertex_len(m),
                    });
                } else {
                    assert(cur[k] == Instruction::MeshDraw {
                        cmd: (n - 1) as usize,
                        set: g as usize,
                    });
                }
            }
        }
    }
}

proof fn lemma_groups_prefix_elems(cmds: Seq<Command>, fb: FrameBuffers, g: int)
    requires
        0 <= g <= usize::MAX as int,
        cmds.len() <= usize::MAX as int,
    ensures
        forall|k: int|
            0 <= k < groups_prefix(cmds, fb, g).len() ==> {
                let e = #[trigger] groups_prefix(cmds, fb, g)[k];
                &&& e.phase() == 2
                &&& !(e is MeshBegin)
                &&& (e matches Instruction::MeshDraw { cmd, set } ==> {
                    &&& 0 <= set < g
                    &&& 0 <= cmd < cmds.len()
                    &&& cmds[cmd as int] is Mesh
                    &&& cmds[cmd as int].mesh().material == frame_materials(cmds)[set as int]
                })
            },
    decreases g,
{
    if g > 0 {
        lemma_groups_prefix_elems(cmds, fb, g - 1);
        lemma_group_draws_elems(cmds, fb, g - 1, cmds.len() as int);
        let prev = groups_prefix(cmds, fb, g - 1);
        let draws = group_draws(cmds, fb, g - 1, cmds.len() as int);
        let cur = groups_prefix(cmds, fb, g);
        assert forall|k: int| 0 <= k < cur.len() implies {
            let e = #[trigger] cur[k];
            &&& e.phase() == 2
            &&& !(e is MeshBegin)
            &&& (e matches Instruction::MeshDraw { cmd, set } ==> {
                &&& 0 <= set < g
                &&& 0 <= cmd < cmds.len()
                &&& cmds[cmd as int] is Mesh
                &&& cmds[cmd as int].mesh().material == frame_materials(cmds)[set as int]
            })
        } by {
            if k < prev.len() {
                assert(cur[k] == prev[k]);
            } else if k == prev.len() {
                assert(cur[k] == Instruction::MeshDescriptors { set: (g - 1) as usize });
            } else {
                assert(cur[k] == draws[k - prev.len() - 1]);
            }
        }
    }
}

proof fn lemma_materials_len(cmds: Seq<Command>, n: int)
    requires
        0 <= n,
    ensures
        materials_prefix(cmds, n).len() <= n,
    decreases n,
{
    if n > 0 {
        lemma_materials_len(cmds, n - 1);
    }
}

proof fn lemma_mesh_phase_elems(cmds: Seq<Command>, fb: FrameBuffers)
    requires
        cmds.len() <= usize::MAX as int,
    ensures
        forall|k: int|
            0 <= k < mesh_phase(cmds, fb).len() ==> {
                let e = #[trigger] mesh_phase(cmds, fb)[k];
                &&& e.phase() == 2
                &&& (e matches Instruction::MeshDraw { cmd, set } ==> {
                    &&& 0 <= set < frame_materials(cmds).len()
                    &&& 0 <= cmd < cmds.len()
                    &&& cmds[cmd as int] is Mesh
                    &&& cmds[cmd as int].mesh().material == frame_materials(cmds)[set as int]
                })
            },
{
    lemma_materials_len(cmds, cmds.len() as int);
    lemma_groups_prefix_elems(cmds, fb, frame_materials(cmds).len() as int);
}

proof fn lemma_point_draw_ranks(cmds: Seq<Command>, n: int)
    ensures
        forall|k: int|
            0 <= k < point_draws(cmds, n).len() ==> #[trigger] point_draws(cmds, n)[k].phase()
                == 3,
    decreases n,
{
    if n > 0 {
        lemma_point_draw_ranks(cmds, n - 1);
        let prev = point_draws(cmds, n - 1);
        let cur = point_draws(cmds, n);
        assert forall|k: int| 0 <= k < cur.len() implies #[trigger] cur[k].phase() == 3 by {
            if k < prev.len() {
                assert(cur[k] == prev[k]);
            }
        }
    }
}

proof fn lemma_rect_draw_ranks(cmds: Seq<Command>, n: int)
    ensures
        forall|k: int|
            0 <= k < rect_draws(cmds, n).len() ==> #[trigger] rect_draws(cmds, n)[k].phase() == 3,
    decreases n,
{
    if n > 0 {
        lemma_rect_draw_ranks(cmds, n - 1);
        let prev = rect_draws(cmds, n - 1);
        let cur = rect_draws(cmds, n);
        assert forall|k: int| 0 <= k < cur.len() implies #[trigger] cur[k].phase() == 3 by {
            if k < prev.len() {
                assert(cur[k] == prev[k]);
            }
        }
    }
}

proof fn lemma_spot_draw_ranks(cmds: Seq<Command>, n: int)
    ensures
        forall|k: int|
            0 <= k < spot_draws(cmds, n).len() ==> #[trigger] spot_draws(cmds, n)[k].phase() == 3,
    decreases n,
{
    if n > 0 {
        lemma_spot_draw_ranks(cmds, n - 1);
        let prev = spot_draws(cmds, n - 1);
        let cur = spot_draws(cmds, n);
        assert forall|k: int| 0 <= k < cur.len() implies #[trigger] cur[k].phase() == 3 by {
            if k < prev.len() {
                assert(cur[k] == prev[k]);
            }
        }
    }
}

proof fn lemma_sun_draw_ranks(cmds: Seq<Command>, n: int)
    ensures
        forall|k: int|
            0 <= k < sun_draws(cmds, n).len() ==> #[trigger] sun_draws(cmds, n)[k].phase() == 3,
    decreases n,
{
    if n > 0 {
        lemma_sun_draw_ranks(cmds, n - 1);
        let prev = sun_draws(cmds, n - 1);
        let cur = sun_draws(cmds, n);
        assert forall|k: int| 0 <= k < cur.len() implies #[trigger] cur[k].phase() == 3 by {
            if k < prev.len() {
                assert(cur[k] == prev[k]);
            }
        }
    }
}

#[verifier::rlimit(100)]
proof fn lemma_light_phase_ranks(cmds: Seq<Command>, fb: FrameBuffers)
    ensures
        forall|k: int|
            0 <= k < light_phase(cmds, fb).len() ==> #[trigger] light_phase(cmds, fb)[k].phase()
                == 3,
{
    lemma_point_draw_ranks(cmds, cmds.len() as int);
    lemma_rect_draw_ranks(cmds, cmds.len() as int);
    lemma_spot_draw_ranks(cmds, cmds.len() as int);
    lemma_sun_draw_ranks(cmds, cmds.len() as int);
}

/// Every instruction of a compiled program carries the phase of the
/// segment it stands in, and the segments come in increasing phase order:
/// the program's phases never run backwards.
pub proof fn lemma_program_phases_sorted(cmds: Seq<Command>, fb: FrameBuffers, i: int, j: int)
    requires
        cmds.len() <= usize::MAX as int,
        0 <= i <= j < compile_program(cmds, fb).len(),
    ensures
        compile_program(cmds, fb)[i].phase() <= compile_program(cmds, fb)[j].phase(),
{
    lemma_upload_phase_ranks(cmds, fb);
    lemma_compute_phase_ranks(cmds);
    lemma_mesh_phase_elems(cmds, fb);
    lemma_light_phase_ranks(cmds, fb);
    let p = compile_program(cmds, fb);
    let a = upload_phase(cmds, fb).len() as int;
    let b = compute_phase(cmds).len() as int;
    let c = mesh_phase(cmds, fb).len() as int;
    let d = light_phase(cmds, fb).len() as int;
    let e = line_phase(cmds, fb).len() as int;
    assert forall|k: int| 0 <= k < p.len() implies #[trigger] p[k].phase() == (if k < a {
        0int
    } else if k < a + b {
        1int
    } else if k < a + b + c {
        2int
    } else if k < a + b + c + d {
        3int
    } else {
        4int
    }) by {
        if k < a {
            assert(p[k] == upload_phase(cmds, fb)[k]);
        } else if k < a + b {
            assert(p[k] == compute_phase(cmds)[k - a]);
        } else if k < a + b + c {
            assert(p[k] == mesh_phase(cmds, fb)[k - a - b]);
        } else if k < a + b + c + d {
            assert(p[k] == light_phase(cmds, fb)[k - a - b - c]);
        } else {
            assert(p[k] == line_phase(cmds, fb)[k - a - b - c - d]);
            assert(line_phase(cmds, fb)[k - a - b - c - d].phase() == 4);
        }
    }
}

/// Ordering invariant: in a compiled program, every compute dispatch
/// precedes every draw-stage instruction that binds or consumes computed
/// vertex attributes.
pub proof fn lemma_compute_dispatch_precedes_draw(
    cmds: Seq<Command>,
    fb: FrameBuffers,
    i: int,
    j: int,
)
    requires
        cmds.len() <= usize::MAX as int,
        0 <= i < compile_program(cmds, fb).len(),
        0 <= j < compile_program(cmds, fb).len(),
        compile_program(cmds, fb)[i] matches Instruction::VertexAttrsCalc { .. },
        compile_program(cmds, fb)[j] matches Instruction::MeshBind { .. } || compile_program(
            cmds,
            fb,
        )[j] matches Instruction::MeshDraw { .. },
    ensures
        i < j,
{
    if j <= i {
        lemma_program_phases_sorted(cmds, fb, j, i);
    }
}

proof fn lemma_contains_push(s: Seq<Material>, x: Material, y: Material)
    requires
        s.contains(y),
    ensures
        s.push(x).contains(y),
{
    let w = choose|w: int| 0 <= w < s.len() && s[w] == y;
    assert(s.push(x)[w] == y);
}

/// Every material of a mesh command appears among the frame's
/// deduplicated materials.
pub proof fn lemma_materials_complete(cmds: Seq<Command>, i: int, n: int)
    requires
        0 <= i < n,
        cmds[i] is Mesh,
    ensures
        materials_prefix(cmds, n).contains(cmds[i].mesh().material),
    decreases n,
{
    let m = cmds[i].mesh().material;
    let prev = materials_prefix(cmds, n - 1);
    if i == n - 1 {
        if prev.contains(m) {
            if cmds[n - 1] is Mesh && !prev.contains(cmds[n - 1].mesh().material) {
                lemma_contains_push(prev, cmds[n - 1].mesh().material, m);
            }
        } else {
            assert(materials_prefix(cmds, n).last() == m);
            assert(materials_prefix(cmds, n).contains(m));
        }
    } else {
        lemma_materials_complete(cmds, i, n - 1);
        if cmds[n - 1] is Mesh && !prev.contains(cmds[n - 1].mesh().material) {
            lemma_contains_push(prev, cmds[n - 1].mesh().material, m);
        }
    }
}

/// The frame's deduplicated materials are pairwise distinct: each
/// descriptor-set group stands for exactly one material identity.
pub proof fn lemma_materials_distinct(cmds: Seq<Command>, n: int)
    ensures
        forall|g1: int, g2: int|
            0 <= g1 < g2 < materials_prefix(cmds, n).len() ==> materials_prefix(cmds, n)[g1]
                != materials_prefix(cmds, n)[g2],
    decreases n,
{
    if n > 0 {
        lemma_materials_distinct(cmds, n - 1);
        let prev = materials_prefix(cmds, n - 1);
        let cur = materials_prefix(cmds, n);
        assert forall|g1: int, g2: int|
            0 <= g1 < g2 < cur.len() implies cur[g1] != cur[g2] by {
            if g2 < prev.len() {
                assert(cur[g1] == prev[g1] && cur[g2] == prev[g2]);
            } else if g2 == prev.len() && cur.len() == prev.len() + 1 {
                assert(cur[g1] == prev[g1]);
                assert(prev.contains(prev[g1]));
                assert(cur[g2] == cmds[n - 1].mesh().material);
            }
        }
    }
}

/// What a `MeshDraw` instruction of a compiled program refers to: an
/// existing mesh command, and the descriptor-set group holding exactly
/// that command's material.
pub proof fn lemma_mesh_draw_group(cmds: Seq<Command>, fb: FrameBuffers, k: int)
    requires
        cmds.len() <= usize::MAX as int,
        0 <= k < compile_program(cmds, fb).len(),
        compile_program(cmds, fb)[k] matches Instruction::MeshDraw { .. },
    ensures
        ({
            let e = compile_program(cmds, fb)[k];
            let cmd = e->MeshDraw_cmd;
            let set = e->MeshDraw_set;
            &&& 0 <= cmd < cmds.len()
            &&& cmds[cmd as int] is Mesh
            &&& 0 <= set < frame_materials(cmds).len()
            &&& frame_materials(cmds)[set as int] == cmds[cmd as int].mesh().material
        }),
{
    lemma_upload_phase_ranks(cmds, fb);
    lemma_compute_phase_ranks(cmds);
    lemma_mesh_phase_elems(cmds, fb);
    lemma_light_phase_ranks(cmds, fb);
    let p = compile_program(cmds, fb);
    let a = upload_phase(cmds, fb).len() as int;
    let b = compute_phase(cmds).len() as int;
    let c = mesh_phase(cmds, fb).len() as int;
    let d = light_phase(cmds, fb).len() as int;
    assert(p[k].phase() == 2);
    if k < a {
        assert(p[k] == upload_phase(cmds, fb)[k]);
        assert(upload_phase(cmds, fb)[k].phase() == 0);
        assert(false);
    } else if k < a + b {
        assert(p[k] == compute_phase(cmds)[k - a]);
        assert(compute_phase(cmds)[k - a].phase() == 1);
        assert(false);
    } else if k < a + b + c {
        assert(p[k] == mesh_phase(cmds, fb)[k - a - b]);
    } else if k < a + b + c + d {
        assert(p[k] == light_phase(cmds, fb)[k - a - b - c]);
        assert(light_phase(cmds, fb)[k - a - b - c].phase() == 3);
        assert(false);
    } else {
        assert(p[k] == line_phase(cmds, fb)[k - a - b - c - d]);
        assert(line_phase(cmds, fb)[k - a - b - c - d].phase() == 4);
        assert(false);
    }
}

/// Dedup invariant: two mesh draws of one compiled program bind the same
/// descriptor-set group exactly when their commands' materials are equal
/// by texture identity.
pub proof fn lemma_mesh_draw_dedup(cmds: Seq<Command>, fb: FrameBuffers, k1: int, k2: int)
    requires
        cmds.len() <= usize::MAX as int,
        0 <= k1 < compile_program(cmds, fb).len(),
        0 <= k2 < compile_program(cmds, fb).len(),
        compile_program(cmds, fb)[k1] matches Instruction::MeshDraw { .. },
        compile_program(cmds, fb)[k2] matches Instruction::MeshDraw { .. },
    ensures
        ({
            let e1 = compile_program(cmds, fb)[k1];
            let e2 = compile_program(cmds, fb)[k2];
            (cmds[e1->MeshDraw_cmd as int].mesh().material == cmds[e2->MeshDraw_cmd as int].mesh().material)
                <==> e1->MeshDraw_set == e2->MeshDraw_set
        }),
{
    lemma_mesh_draw_group(cmds, fb, k1);
    lemma_mesh_draw_group(cmds, fb, k2);
    lemma_materials_distinct(cmds, cmds.len() as int);
}

/// Compiling an empty command list yields an empty instruction sequence:
/// the frame program then holds nothing but its mandatory bracketing.
pub proof fn lemma_empty_program(fb: FrameBuffers)
    ensures
        compile_program(Seq::empty(), fb) =~= Seq::<Instruction>::empty(),
{
}

/// One mesh command with material `M` compiles to exactly one
/// descriptor-set group holding `M` and exactly one mesh draw, bound to
/// group zero.
pub proof fn lemma_single_mesh_program(m: MeshCommand, fb: FrameBuffers)
    requires
        fb.attr_bufs.len() >= 1,
    ensures
        frame_materials(seq![Command::Mesh(m)]) =~= seq![m.material],
        compile_program(seq![Command::Mesh(m)], fb) =~= seq![
            Instruction::VertexWriteRef {
                buf: m.vertex_buf,
                len: crate::compiler::vertex_len(m),
            },
            Instruction::IndexWriteRef { buf: m.index_buf, len: crate::compiler::index_len(m) },
            Instruction::VertexAttrsBegin { mode: m.spec_attrs_mode() },
            Instruction::VertexAttrsDescriptors { mode: m.spec_attrs_mode(), set: 0 },
            Instruction::VertexAttrsCalc {
                mode: m.spec_attrs_mode(),
                base_vertex: m.base_vertex,
                dispatch: m.vertex_count,
            },
            Instruction::MeshBegin,
            Instruction::MeshDescriptors { set: 0 },
            Instruction::MeshBind {
                index_buf: m.index_buf,
                index_len: crate::compiler::index_len(m),
                index_type: m.index_type,
                vertex_buf: fb.attr_bufs[0],
                vertex_len: crate::compiler::vertex_len(m),
            },
            Instruction::MeshDraw { cmd: 0, set: 0 },
        ],
{
    let cmds = seq![Command::Mesh(m)];
    let mode = m.spec_attrs_mode();
    assert(materials_prefix(cmds, 0) =~= Seq::<Material>::empty());
    assert(frame_materials(cmds) =~= seq![m.material]);
    assert(upload_mesh_instrs(cmds, 0) =~= Seq::<Instruction>::empty());
    assert(crate::compiler::mode_list(cmds, CalcVertexAttrsMode::U16, 0) =~= Seq::<
        usize,
    >::empty());
    assert(crate::compiler::mode_list(cmds, CalcVertexAttrsMode::U16Skin, 0) =~= Seq::<
        usize,
    >::empty());
    assert(crate::compiler::mode_list(cmds, CalcVertexAttrsMode::U32, 0) =~= Seq::<
        usize,
    >::empty());
    assert(crate::compiler::mode_list(cmds, CalcVertexAttrsMode::U32Skin, 0) =~= Seq::<
        usize,
    >::empty());
    assert(crate::compiler::mode_list(cmds, mode, 1) =~= seq![0usize]);
    assert(triads(cmds, mode, 0) =~= Seq::<Instruction>::empty());
    assert(compute_mode_phase(cmds, mode) =~= seq![
        Instruction::VertexAttrsBegin { mode },
        Instruction::VertexAttrsDescriptors { mode, set: 0 },
        Instruction::VertexAttrsCalc {
            mode,
            base_vertex: m.base_vertex,
            dispatch: m.vertex_count,
        },
    ]);
    assert forall|other: CalcVertexAttrsMode| other != mode implies compute_mode_phase(
        cmds,
        other,
    ) =~= Seq::<Instruction>::empty() by {
        assert(crate::compiler::mode_list(cmds, other, 1) =~= Seq::<usize>::empty());
    }
    assert(group_draws(cmds, fb, 0, 0) =~= Seq::<Instruction>::empty());
    assert(mesh_count(cmds, 0) == 0);
    assert(groups_prefix(cmds, fb, 0) =~= Seq::<Instruction>::empty());
    assert(point_count(cmds, 0) == 0 && crate::compiler::rect_count(cmds, 0) == 0
        && crate::compiler::spot_count(cmds, 0) == 0 && crate::compiler::sun_count(cmds, 0) == 0
        && crate::compiler::line_count(cmds, 0) == 0);
    assert(point_count(cmds, 1) == 0 && crate::compiler::rect_count(cmds, 1) == 0
        && crate::compiler::spot_count(cmds, 1) == 0 && crate::compiler::sun_count(cmds, 1) == 0
        && crate::compiler::line_count(cmds, 1) == 0);
    assert(light_phase(cmds, fb) =~= Seq::<Instruction>::empty());
    assert(line_phase(cmds, fb) =~= Seq::<Instruction>::empty());
}

/// Two mesh commands with distinct materials compile to two descriptor-set
/// groups, in first-seen order.
pub proof fn lemma_two_material_groups(m1: MeshCommand, m2: MeshCommand)
    requires
        m1.material != m2.material,
    ensures
        frame_materials(seq![Command::Mesh(m1), Command::Mesh(m2)]) =~= seq![
            m1.material,
            m2.material,
        ],
{
    let cmds = seq![Command::Mesh(m1), Command::Mesh(m2)];
    assert(materials_prefix(cmds, 0) =~= Seq::<Material>::empty());
    assert(materials_prefix(cmds, 1) =~= seq![m1.material]);
}

} // verus!
