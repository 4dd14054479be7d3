//! The command compiler.
//!
//! `compile` consumes one frame's draw command list and produces the
//! ordered, replayable instruction sequence that renders it: data uploads
//! first, then compute-based vertex-attribute calculation, geometry-fill
//! draws grouped by material, light accumulation grouped by light kind,
//! and post-effect line draws last.  Materials are deduplicated by texture
//! identity into descriptor-set groups whose order is first-seen order.
//!
//! The whole output is defined by spec functions over the command list and
//! the identity of the transient buffers the pool handed out; `compile`'s
//! contract says the produced sequence equals that definition.

use vstd::prelude::*;

use crate::command::{BufferId, CalcVertexAttrsMode, Camera, Command, IndexType, MeshCommand};
use crate::def::BufferClass;
use crate::instruction::Instruction;
use crate::material::Material;
use crate::pool::{DataBuf, Lease, Pool};

verus! {

/// Bytes of one computed vertex-attribute record.
pub const VERTEX_STRIDE: u64 = 48;

/// Bytes of one debug line (two vertices of position and color).
pub const LINE_STRIDE: u64 = 32;

/// Bytes of the static point light volume geometry.
pub const LIGHT_VOLUME_LEN: u64 = 4320;

/// Vertices drawn for one point light (the whole volume).
pub const POINT_LIGHT_DRAW_COUNT: u32 = 360;

/// Vertices drawn for one rectangular area light.
pub const RECT_LIGHT_DRAW_COUNT: u32 = 18;

/// Vertices drawn for one spotlight.
pub const SPOTLIGHT_DRAW_COUNT: u32 = 15;

/// Most commands one frame may hold, so that every per-light vertex offset
/// fits the driver's 32-bit draw ranges.
pub const MAX_FRAME_COMMANDS: usize = 0x0100_0000;

/// Bytes of the index data of a mesh.
pub open spec fn index_len(m: MeshCommand) -> u64 {
    (m.index_count as int * if m.index_type is U16 {
        2int
    } else {
        4int
    }) as u64
}

/// Bytes of the vertex-attribute data of a mesh.
pub open spec fn vertex_len(m: MeshCommand) -> u64 {
    (m.vertex_count as int * VERTEX_STRIDE as int) as u64
}

/// Bytes of the write mask driving a mesh's vertex-attribute computation:
/// one bit per vertex, in 32-bit words.
pub open spec fn mask_len(m: MeshCommand) -> u64 {
    ((m.vertex_count as int + 31) / 32 * 4) as u64
}

/// The transient buffers one compilation works with: the identity of the
/// line vertex buffer, of the light volume buffer (and whether its static
/// content still has to be written), and of the computed-attribute and
/// write-mask buffers of each mesh, by mesh ordinal.
pub struct FrameBuffers {
    /// Buffer holding the frame's line vertices.
    pub line_buf: BufferId,
    /// Buffer holding the static light volume geometry.
    pub light_volume: BufferId,
    /// Whether the light volume buffer is brand new and must be written
    /// once before the first draw that reads it.
    pub light_volume_fresh: bool,
    /// Computed vertex-attribute buffer of each mesh, by mesh ordinal.
    pub attr_bufs: Seq<BufferId>,
    /// Write-mask buffer of each mesh, by mesh ordinal.
    pub mask_bufs: Seq<BufferId>,
}

/// Number of mesh commands among the first `n` commands.
pub open spec fn mesh_count(cmds: Seq<Command>, n: int) -> int
    decreases n,
{
    if n <= 0 {
        0
    } else {
        mesh_count(cmds, n - 1) + if cmds[n - 1] is Mesh {
            1int
        } else {
            0int
        }
    }
}

/// Number of point light commands among the first `n` commands.
pub open spec fn point_count(cmds: Seq<Command>, n: int) -> int
    decreases n,
{
    if n <= 0 {
        0
    } else {
        point_count(cmds, n - 1) + if cmds[n - 1] is PointLight {
            1int
        } else {
            0int
        }
    }
}

/// Number of rectangular area light commands among the first `n` commands.
pub open spec fn rect_count(cmds: Seq<Command>, n: int) -> int
    decreases n,
{
    if n <= 0 {
        0
    } else {
        rect_count(cmds, n - 1) + if cmds[n - 1] is RectLight {
            1int
        } else {
            0int
        }
    }
}

/// Number of spotlight commands among the first `n` commands.
pub open spec fn spot_count(cmds: Seq<Command>, n: int) -> int
    decreases n,
{
    if n <= 0 {
        0
    } else {
        spot_count(cmds, n - 1) + if cmds[n - 1] is Spotlight {
            1int
        } else {
            0int
        }
    }
}

/// Number of sunlight commands among the first `n` commands.
pub open spec fn sun_count(cmds: Seq<Command>, n: int) -> int
    decreases n,
{
    if n <= 0 {
        0
    } else {
        sun_count(cmds, n - 1) + if cmds[n - 1] is Sunlight {
            1int
        } else {
            0int
        }
    }
}

/// Number of line commands among the first `n` commands.
pub open spec fn line_count(cmds: Seq<Command>, n: int) -> int
    decreases n,
{
    if n <= 0 {
        0
    } else {
        line_count(cmds, n - 1) + if cmds[n - 1] is Line {
            1int
        } else {
            0int
        }
    }
}

/// Whether the frame draws from the static light volume buffer: it does
/// when it holds point, rectangular or spot lights.
pub open spec fn volume_needed(cmds: Seq<Command>) -> bool {
    point_count(cmds, cmds.len() as int) + rect_count(cmds, cmds.len() as int) + spot_count(
        cmds,
        cmds.len() as int,
    ) > 0
}

/// Number of light commands of any kind in the whole list.
pub open spec fn light_count(cmds: Seq<Command>) -> int {
    point_count(cmds, cmds.len() as int) + rect_count(cmds, cmds.len() as int) + spot_count(
        cmds,
        cmds.len() as int,
    ) + sun_count(cmds, cmds.len() as int)
}

/// The distinct materials of the mesh commands among the first `n`
/// commands, in first-seen order.
pub open spec fn materials_prefix(cmds: Seq<Command>, n: int) -> Seq<Material>
    decreases n,
{
    if n <= 0 {
        Seq::empty()
    } else {
        let prev = materials_prefix(cmds, n - 1);
        if cmds[n - 1] is Mesh && !prev.contains(cmds[n - 1].mesh().material) {
            prev.push(cmds[n - 1].mesh().material)
        } else {
            prev
        }
    }
}

/// The frame's descriptor-set groups: its distinct mesh materials in
/// first-seen order.
pub open spec fn frame_materials(cmds: Seq<Command>) -> Seq<Material> {
    materials_prefix(cmds, cmds.len() as int)
}

/// Indices of the mesh commands of the given compute variant among the
/// first `n` commands, in command order.
pub open spec fn mode_list(cmds: Seq<Command>, mode: CalcVertexAttrsMode, n: int) -> Seq<usize>
    decreases n,
{
    if n <= 0 {
        Seq::empty()
    } else {
        let prev = mode_list(cmds, mode, n - 1);
        if cmds[n - 1] is Mesh && cmds[n - 1].mesh().spec_attrs_mode() == mode {
            prev.push((n - 1) as usize)
        } else {
            prev
        }
    }
}

/// Upload instructions of the mesh commands among the first `n` commands:
/// each mesh's vertex and index data, in command order.
pub open spec fn upload_mesh_instrs(cmds: Seq<Command>, n: int) -> Seq<Instruction>
    decreases n,
{
    if n <= 0 {
        Seq::empty()
    } else {
        upload_mesh_instrs(cmds, n - 1) + if cmds[n - 1] is Mesh {
            let m = cmds[n - 1].mesh();
            seq![
                Instruction::VertexWriteRef { buf: m.vertex_buf, len: vertex_len(m) },
                Instruction::IndexWriteRef { buf: m.index_buf, len: index_len(m) },
            ]
        } else {
            Seq::empty()
        }
    }
}

/// The whole upload phase: mesh data, then the frame's line vertices, then
/// the light volume geometry when its buffer is brand new.
pub open spec fn upload_phase(cmds: Seq<Command>, fb: FrameBuffers) -> Seq<Instruction> {
    let n = cmds.len() as int;
    upload_mesh_instrs(cmds, n) + (if line_count(cmds, n) > 0 {
        seq![
            Instruction::VertexWrite {
                buf: fb.line_buf,
                len: (line_count(cmds, n) * LINE_STRIDE as int) as u64,
            },
        ]
    } else {
        Seq::empty()
    }) + (if volume_needed(cmds) && fb.light_volume_fresh {
        seq![Instruction::VertexWrite { buf: fb.light_volume, len: LIGHT_VOLUME_LEN }]
    } else {
        Seq::empty()
    })
}

/// The descriptor-and-dispatch pairs of the first `k` meshes of a compute
/// variant: slot order equals command order within the variant.
pub open spec fn triads(cmds: Seq<Command>, mode: CalcVertexAttrsMode, k: int) -> Seq<Instruction>
    decreases k,
{
    if k <= 0 {
        Seq::empty()
    } else {
        let l = mode_list(cmds, mode, cmds.len() as int);
        let m = cmds[l[k - 1] as int].mesh();
        triads(cmds, mode, k - 1) + seq![
            Instruction::VertexAttrsDescriptors { mode, set: (k - 1) as usize },
            Instruction::VertexAttrsCalc {
                mode,
                base_vertex: m.base_vertex,
                dispatch: m.vertex_count,
            },
        ]
    }
}

/// The compute instructions of one variant: nothing when no mesh uses it,
/// else a begin instruction followed by one descriptor-and-dispatch pair
/// per mesh.
pub open spec fn compute_mode_phase(cmds: Seq<Command>, mode: CalcVertexAttrsMode) -> Seq<
    Instruction,
> {
    let l = mode_list(cmds, mode, cmds.len() as int);
    if l.len() == 0 {
        Seq::empty()
    } else {
        seq![Instruction::VertexAttrsBegin { mode }] + triads(cmds, mode, l.len() as int)
    }
}

/// The whole compute phase: the four variants in fixed order.
pub open spec fn compute_phase(cmds: Seq<Command>) -> Seq<Instruction> {
    compute_mode_phase(cmds, CalcVertexAttrsMode::U16) + compute_mode_phase(
        cmds,
        CalcVertexAttrsMode::U16Skin,
    ) + compute_mode_phase(cmds, CalcVertexAttrsMode::U32) + compute_mode_phase(
        cmds,
        CalcVertexAttrsMode::U32Skin,
    )
}

/// The bind-and-draw pairs of material group `g` among the first `n`
/// commands, in command order.
pub open spec fn group_draws(cmds: Seq<Command>, fb: FrameBuffers, g: int, n: int) -> Seq<
    Instruction,
>
    decreases n,
{
    if n <= 0 {
        Seq::empty()
    } else {
        group_draws(cmds, fb, g, n - 1) + if cmds[n - 1] is Mesh && cmds[n - 1].mesh().material
            == frame_materials(cmds)[g] {
            let m = cmds[n - 1].mesh();
            seq![
                Instruction::MeshBind {
                    index_buf: m.index_buf,
                    index_len: index_len(m),
                    index_type: m.index_type,
                    vertex_buf: fb.attr_bufs[mesh_count(cmds, n - 1)],
                    vertex_len: vertex_len(m),
                },
                Instruction::MeshDraw { cmd: (n - 1) as usize, set: g as usize },
            ]
        } else {
            Seq::empty()
        }
    }
}

/// The geometry-fill instructions of the first `g` material groups: each
/// group binds its descriptor set once, then draws its meshes.
pub open spec fn groups_prefix(cmds: Seq<Command>, fb: FrameBuffers, g: int) -> Seq<Instruction>
    decreases g,
{
    if g <= 0 {
        Seq::empty()
    } else {
        groups_prefix(cmds, fb, g - 1) + seq![Instruction::MeshDescriptors {
            set: (g - 1) as usize,
        }] + group_draws(cmds, fb, g - 1, cmds.len() as int)
    }
}

/// The whole geometry-fill phase.
pub open spec fn mesh_phase(cmds: Seq<Command>, fb: FrameBuffers) -> Seq<Instruction> {
    if mesh_count(cmds, cmds.len() as int) == 0 {
        Seq::empty()
    } else {
        seq![Instruction::MeshBegin] + groups_prefix(cmds, fb, frame_materials(cmds).len() as int)
    }
}

/// One draw per point light among the first `n` commands, in command order.
pub open spec fn point_draws(cmds: Seq<Command>, n: int) -> Seq<Instruction>
    decreases n,
{
    if n <= 0 {
        Seq::empty()
    } else {
        point_draws(cmds, n - 1) + if cmds[n - 1] is PointLight {
            seq![Instruction::PointLightDraw { cmd: (n - 1) as usize }]
        } else {
            Seq::empty()
        }
    }
}

/// One draw per rectangular area light among the first `n` commands; each
/// light owns the next region of the shared volume buffer.
pub open spec fn rect_draws(cmds: Seq<Command>, n: int) -> Seq<Instruction>
    decreases n,
{
    if n <= 0 {
        Seq::empty()
    } else {
        rect_draws(cmds, n - 1) + if cmds[n - 1] is RectLight {
            seq![
                Instruction::RectLightDraw {
                    cmd: (n - 1) as usize,
                    offset: (rect_count(cmds, n - 1) * RECT_LIGHT_DRAW_COUNT as int) as u32,
                },
            ]
        } else {
            Seq::empty()
        }
    }
}

/// One draw per spotlight among the first `n` commands; each light owns
/// the next region of the shared volume buffer.
pub open spec fn spot_draws(cmds: Seq<Command>, n: int) -> Seq<Instruction>
    decreases n,
{
    if n <= 0 {
        Seq::empty()
    } else {
        spot_draws(cmds, n - 1) + if cmds[n - 1] is Spotlight {
            seq![
                Instruction::SpotlightDraw {
                    cmd: (n - 1) as usize,
                    offset: (spot_count(cmds, n - 1) * SPOTLIGHT_DRAW_COUNT as int) as u32,
                },
            ]
        } else {
            Seq::empty()
        }
    }
}

/// One draw per sunlight among the first `n` commands, in command order.
pub open spec fn sun_draws(cmds: Seq<Command>, n: int) -> Seq<Instruction>
    decreases n,
{
    if n <= 0 {
        Seq::empty()
    } else {
        sun_draws(cmds, n - 1) + if cmds[n - 1] is Sunlight {
            seq![Instruction::SunlightDraw { cmd: (n - 1) as usize }]
        } else {
            Seq::empty()
        }
    }
}

/// The whole light accumulation phase: nothing without lights, else one
/// begin instruction, then the light kinds in fixed order, each opened by
/// its own begin instruction and followed by one draw per light instance.
pub open spec fn light_phase(cmds: Seq<Command>, fb: FrameBuffers) -> Seq<Instruction> {
    let n = cmds.len() as int;
    if light_count(cmds) == 0 {
        Seq::empty()
    } else {
        seq![Instruction::LightBegin] + (if point_count(cmds, n) > 0 {
            seq![
                Instruction::PointLightBegin,
                Instruction::LightBind { buf: fb.light_volume, len: LIGHT_VOLUME_LEN },
            ] + point_draws(cmds, n)
        } else {
            Seq::empty()
        }) + (if rect_count(cmds, n) > 0 {
            seq![Instruction::RectLightBegin { buf: fb.light_volume }] + rect_draws(cmds, n)
        } else {
            Seq::empty()
        }) + (if spot_count(cmds, n) > 0 {
            seq![Instruction::SpotlightBegin { buf: fb.light_volume }] + spot_draws(cmds, n)
        } else {
            Seq::empty()
        }) + (if sun_count(cmds, n) > 0 {
            seq![Instruction::SunlightBegin] + sun_draws(cmds, n)
        } else {
            Seq::empty()
        })
    }
}

/// The post-effect phase: the frame's debug lines, drawn in one call.
pub open spec fn line_phase(cmds: Seq<Command>, fb: FrameBuffers) -> Seq<Instruction> {
    let n = cmds.len() as int;
    if line_count(cmds, n) > 0 {
        seq![
            Instruction::LineDraw { buf: fb.line_buf, line_count: line_count(cmds, n) as u32 },
        ]
    } else {
        Seq::empty()
    }
}

/// The complete compiled program of one frame: the five phases in their
/// fixed causal order.
pub open spec fn compile_program(cmds: Seq<Command>, fb: FrameBuffers) -> Seq<Instruction> {
    upload_phase(cmds, fb) + compute_phase(cmds) + mesh_phase(cmds, fb) + light_phase(cmds, fb)
        + line_phase(cmds, fb)
}

/// The buffers that one vertex-attribute computation reads and writes:
/// the mesh's index and source vertex data, the computed-attribute buffer
/// the draw stage later binds, and the write mask.
#[derive(Clone, Copy, Debug, PartialEq, Eq, Structural)]
pub struct VertexBuffers {
    /// Index data buffer of the mesh.
    pub idx: BufferId,
    /// Bytes of index data read.
    pub idx_len: u64,
    /// Source vertex data buffer of the mesh.
    pub src: BufferId,
    /// Bytes of source vertex data read.
    pub src_len: u64,
    /// Computed vertex-attribute buffer written.
    pub dst: BufferId,
    /// Bytes of attribute data written.
    pub dst_len: u64,
    /// Write mask buffer driving the computation.
    pub write_mask: BufferId,
    /// Bytes of the write mask.
    pub write_mask_len: u64,
}

/// The descriptor contents of the first `n` commands' meshes of one
/// compute variant, slot after slot.
pub open spec fn vertex_bufs_upto(
    cmds: Seq<Command>,
    attr_ids: Seq<BufferId>,
    mask_ids: Seq<BufferId>,
    mode: CalcVertexAttrsMode,
    n: int,
) -> Seq<VertexBuffers>
    decreases n,
{
    if n <= 0 {
        Seq::empty()
    } else {
        let prev = vertex_bufs_upto(cmds, attr_ids, mask_ids, mode, n - 1);
        if cmds[n - 1] is Mesh && cmds[n - 1].mesh().spec_attrs_mode() == mode {
            let m = cmds[n - 1].mesh();
            prev.push(
                VertexBuffers {
                    idx: m.index_buf,
                    idx_len: index_len(m),
                    src: m.vertex_buf,
                    src_len: vertex_len(m),
                    dst: attr_ids[mesh_count(cmds, n - 1)],
                    dst_len: vertex_len(m),
                    write_mask: mask_ids[mesh_count(cmds, n - 1)],
                    write_mask_len: mask_len(m),
                },
            )
        } else {
            prev
        }
    }
}

/// The buffer handles of a list of leases, in order.
pub open spec fn lease_ids(s: Seq<Lease<DataBuf>>) -> Seq<BufferId> {
    s.map(|i: int, l: Lease<DataBuf>| l@.id)
}

/// Counting meshes is monotone in the prefix length, and each step adds at
/// most one.
pub proof fn lemma_mesh_count_bounds(cmds: Seq<Command>, a: int, b: int)
    requires
        0 <= a <= b,
    ensures
        mesh_count(cmds, a) <= mesh_count(cmds, b) <= mesh_count(cmds, a) + (b - a),
        mesh_count(cmds, a) >= 0,
    decreases b,
{
    if a < b {
        lemma_mesh_count_bounds(cmds, a, b - 1);
    } else {
        if a > 0 {
            lemma_mesh_count_bounds(cmds, a - 1, a - 1);
        }
    }
}

/// Every entry of a compute-variant list is the index of a mesh command of
/// that variant, and the entries are the variant's meshes in command
/// order.
pub proof fn lemma_mode_list_elems(cmds: Seq<Command>, mode: CalcVertexAttrsMode, n: int)
    requires
        0 <= n <= cmds.len(),
        n <= usize::MAX as int,
    ensures
        mode_list(cmds, mode, n).len() <= n,
        forall|k: int|
            0 <= k < mode_list(cmds, mode, n).len() ==> {
                let i = #[trigger] mode_list(cmds, mode, n)[k] as int;
                &&& 0 <= i < n
                &&& cmds[i] is Mesh
                &&& cmds[i].mesh().spec_attrs_mode() == mode
            },
    decreases n,
{
    if n > 0 {
        lemma_mode_list_elems(cmds, mode, n - 1);
        let prev = mode_list(cmds, mode, n - 1);
        let cur = mode_list(cmds, mode, n);
        assert forall|k: int| 0 <= k < cur.len() implies {
            let i = #[trigger] cur[k] as int;
            &&& 0 <= i < n
            &&& cmds[i] is Mesh
            &&& cmds[i].mesh().spec_attrs_mode() == mode
        } by {
            if k < prev.len() {
                assert(cur[k] == prev[k]);
            }
        }
    }
}

/// What one pass over the command list finds: the deduplicated materials,
/// the meshes of each compute variant, and how many commands of each kind
/// the frame holds.
struct Scan {
    materials: Vec<Material>,
    u16_list: Vec<usize>,
    u16_skin_list: Vec<usize>,
    u32_list: Vec<usize>,
    u32_skin_list: Vec<usize>,
    n_mesh: usize,
    n_point: usize,
    n_rect: usize,
    n_spot: usize,
    n_sun: usize,
    n_line: usize,
}

fn scan_commands(cmds: &Vec<Command>) -> (s: Scan)
    ensures
        s.materials@ == frame_materials(cmds@),
        s.u16_list@ == mode_list(cmds@, CalcVertexAttrsMode::U16, cmds@.len() as int),
        s.u16_skin_list@ == mode_list(cmds@, CalcVertexAttrsMode::U16Skin, cmds@.len() as int),
        s.u32_list@ == mode_list(cmds@, CalcVertexAttrsMode::U32, cmds@.len() as int),
        s.u32_skin_list@ == mode_list(cmds@, CalcVertexAttrsMode::U32Skin, cmds@.len() as int),
        s.n_mesh == mesh_count(cmds@, cmds@.len() as int),
        s.n_point == point_count(cmds@, cmds@.len() as int),
        s.n_rect == rect_count(cmds@, cmds@.len() as int),
        s.n_spot == spot_count(cmds@, cmds@.len() as int),
        s.n_sun == sun_count(cmds@, cmds@.len() as int),
        s.n_line == line_count(cmds@, cmds@.len() as int),
        s.n_mesh <= cmds@.len() && s.n_point <= cmds@.len() && s.n_rect <= cmds@.len()
            && s.n_spot <= cmds@.len() && s.n_sun <= cmds@.len() && s.n_line <= cmds@.len(),
{
    let n = cmds.len();
    let mut s = Scan {
        materials: Vec::new(),
        u16_list: Vec::new(),
        u16_skin_list: Vec::new(),
        u32_list: Vec::new(),
        u32_skin_list: Vec::new(),
        n_mesh: 0,
        n_point: 0,
        n_rect: 0,
        n_spot: 0,
        n_sun: 0,
        n_line: 0,
    };
    let mut i: usize = 0;
    while i < n
        invariant
            0 <= i <= n,
            n == cmds@.len(),
            s.materials@ == materials_prefix(cmds@, i as int),
            s.u16_list@ == mode_list(cmds@, CalcVertexAttrsMode::U16, i as int),
            s.u16_skin_list@ == mode_list(cmds@, CalcVertexAttrsMode::U16Skin, i as int),
            s.u32_list@ == mode_list(cmds@, CalcVertexAttrsMode::U32, i as int),
            s.u32_skin_list@ == mode_list(cmds@, CalcVertexAttrsMode::U32Skin, i as int),
            s.n_mesh == mesh_count(cmds@, i as int),
            s.n_point == point_count(cmds@, i as int),
            s.n_rect == rect_count(cmds@, i as int),
            s.n_spot == spot_count(cmds@, i as int),
            s.n_sun == sun_count(cmds@, i as int),
            s.n_line == line_count(cmds@, i as int),
            s.n_mesh <= i && s.n_point <= i && s.n_rect <= i && s.n_spot <= i && s.n_sun <= i
                && s.n_line <= i,
        decreases n - i,
    {
        match cmds[i] {
            Command::Mesh(m) => {
                let mut found = false;
                let mut j: usize = 0;
                while j < s.materials.len() && !found
                    invariant
                        0 <= j <= s.materials@.len(),
                        found ==> s.materials@.contains(m.material),
                        !found ==> forall|k: int| 0 <= k < j ==> s.materials@[k] != m.material,
                    decreases s.materials@.len() - j,
                {
                    if s.materials[j].same_identity(&m.material) {
                        found = true;
                    }
                    j = j + 1;
                }
                if !found {
                    proof {
                        assert(!s.materials@.contains(m.material));
                    }
                    s.materials.push(m.material);
                }
                match m.attrs_mode() {
                    CalcVertexAttrsMode::U16 => s.u16_list.push(i),
                    CalcVertexAttrsMode::U16Skin => s.u16_skin_list.push(i),
                    CalcVertexAttrsMode::U32 => s.u32_list.push(i),
                    CalcVertexAttrsMode::U32Skin => s.u32_skin_list.push(i),
                }
                s.n_mesh = s.n_mesh + 1;
            },
            Command::PointLight(_) => {
                s.n_point = s.n_point + 1;
            },
            Command::RectLight(_) => {
                s.n_rect = s.n_rect + 1;
            },
            Command::Spotlight(_) => {
                s.n_spot = s.n_spot + 1;
            },
            Command::Sunlight(_) => {
                s.n_sun = s.n_sun + 1;
            },
            Command::Line(_) => {
                s.n_line = s.n_line + 1;
            },
        }
        i = i + 1;
    }
    s
}

fn index_len_of(m: &MeshCommand) -> (r: u64)
    ensures
        r == index_len(*m),
{
    match m.index_type {
        IndexType::U16 => (m.index_count as u64) * 2,
        IndexType::U32 => (m.index_count as u64) * 4,
    }
}

fn vertex_len_of(m: &MeshCommand) -> (r: u64)
    ensures
        r == vertex_len(*m),
{
    (m.vertex_count as u64) * VERTEX_STRIDE
}

fn mask_len_of(m: &MeshCommand) -> (r: u64)
    ensures
        r == mask_len(*m),
{
    ((m.vertex_count as u64) + 31) / 32 * 4
}

fn acquire_mesh_buffers(pool: &mut Pool, cmds: &Vec<Command>) -> (r: (
    Vec<Lease<DataBuf>>,
    Vec<Lease<DataBuf>>,
    Vec<BufferId>,
    Vec<BufferId>,
))
    ensures
        r.0@.len() == mesh_count(cmds@, cmds@.len() as int),
        r.1@.len() == mesh_count(cmds@, cmds@.len() as int),
        r.2@ == lease_ids(r.0@),
        r.3@ == lease_ids(r.1@),
        final(pool).idle_cmd_pools() == old(pool).idle_cmd_pools(),
        final(pool).idle_fences() == old(pool).idle_fences(),
        final(pool).idle_graphics() == old(pool).idle_graphics(),
        final(pool).idle_computes() == old(pool).idle_computes(),
{
    let n = cmds.len();
    let mut attr_leases: Vec<Lease<DataBuf>> = Vec::new();
    let mut mask_leases: Vec<Lease<DataBuf>> = Vec::new();
    let mut attr_ids: Vec<BufferId> = Vec::new();
    let mut mask_ids: Vec<BufferId> = Vec::new();
    let mut i: usize = 0;
    while i < n
        invariant
            0 <= i <= n,
            n == cmds@.len(),
            attr_leases@.len() == mesh_count(cmds@, i as int),
            mask_leases@.len() == mesh_count(cmds@, i as int),
            attr_ids@ == lease_ids(attr_leases@),
            mask_ids@ == lease_ids(mask_leases@),
            pool.idle_cmd_pools() == old(pool).idle_cmd_pools(),
            pool.idle_fences() == old(pool).idle_fences(),
            pool.idle_graphics() == old(pool).idle_graphics(),
            pool.idle_computes() == old(pool).idle_computes(),
        decreases n - i,
    {
        if let Command::Mesh(m) = cmds[i] {
            let (attr, _) = pool.data_buffer(BufferClass::VertexAttrs, vertex_len_of(&m));
            let (mask, _) = pool.data_buffer(BufferClass::WriteMask, mask_len_of(&m));
            attr_ids.push(attr.item().id);
            mask_ids.push(mask.item().id);
            attr_leases.push(attr);
            mask_leases.push(mask);
            proof {
                assert(attr_ids@ =~= lease_ids(attr_leases@));
                assert(mask_ids@ =~= lease_ids(mask_leases@));
            }
        }
        i = i + 1;
    }
    (attr_leases, mask_leases, attr_ids, mask_ids)
}

fn build_vertex_bufs(
    cmds: &Vec<Command>,
    attr_ids: &Vec<BufferId>,
    mask_ids: &Vec<BufferId>,
    mode: CalcVertexAttrsMode,
) -> (v: Vec<VertexBuffers>)
    requires
        attr_ids@.len() == mesh_count(cmds@, cmds@.len() as int),
        mask_ids@.len() == mesh_count(cmds@, cmds@.len() as int),
    ensures
        v@ == vertex_bufs_upto(cmds@, attr_ids@, mask_ids@, mode, cmds@.len() as int),
{
    let n = cmds.len();
    let mut v: Vec<VertexBuffers> = Vec::new();
    let mut ord: usize = 0;
    let mut i: usize = 0;
    while i < n
        invariant
            0 <= i <= n,
            n == cmds@.len(),
            attr_ids@.len() == mesh_count(cmds@, n as int),
            mask_ids@.len() == mesh_count(cmds@, n as int),
            ord == mesh_count(cmds@, i as int),
            ord <= i,
            v@ == vertex_bufs_upto(cmds@, attr_ids@, mask_ids@, mode, i as int),
        decreases n - i,
    {
        if let Command::Mesh(m) = cmds[i] {
            proof {
                lemma_mesh_count_bounds(cmds@, i as int + 1, n as int);
            }
            if m.attrs_mode() == mode {
                v.push(
                    VertexBuffers {
                        idx: m.index_buf,
                        idx_len: index_len_of(&m),
                        src: m.vertex_buf,
                        src_len: vertex_len_of(&m),
                        dst: attr_ids[ord],
                        dst_len: vertex_len_of(&m),
                        write_mask: mask_ids[ord],
                        write_mask_len: mask_len_of(&m),
                    },
                );
            }
            ord = ord + 1;
        }
        i = i + 1;
    }
    v
}

fn emit_upload_meshes(out: &mut Vec<Instruction>, cmds: &Vec<Command>)
    ensures
        final(out)@ == old(out)@ + upload_mesh_instrs(cmds@, cmds@.len() as int),
{
    let n = cmds.len();
    let mut i: usize = 0;
    while i < n
        invariant
            0 <= i <= n,
            n == cmds@.len(),
            out@ == old(out)@ + upload_mesh_instrs(cmds@, i as int),
        decreases n - i,
    {
        if let Command::Mesh(m) = cmds[i] {
            out.push(Instruction::VertexWriteRef { buf: m.vertex_buf, len: vertex_len_of(&m) });
            out.push(Instruction::IndexWriteRef { buf: m.index_buf, len: index_len_of(&m) });
        }
        proof {
            assert(out@ =~= old(out)@ + upload_mesh_instrs(cmds@, i as int + 1));
        }
        i = i + 1;
    }
    proof {
        assert(out@ =~= old(out)@ + upload_mesh_instrs(cmds@, n as int));
    }
}

fn emit_compute_mode(
    out: &mut Vec<Instruction>,
    cmds: &Vec<Command>,
    list: &Vec<usize>,
    mode: CalcVertexAttrsMode,
)
    requires
        list@ == mode_list(cmds@, mode, cmds@.len() as int),
    ensures
        final(out)@ == old(out)@ + compute_mode_phase(cmds@, mode),
{
    let n_cmds = cmds.len();
    proof {
        assert(cmds@.len() == n_cmds as int);
        lemma_mode_list_elems(cmds@, mode, cmds@.len() as int);
    }
    let n = list.len();
    if n == 0 {
        proof {
            assert(out@ =~= old(out)@ + compute_mode_phase(cmds@, mode));
        }
        return ;
    }
    out.push(Instruction::VertexAttrsBegin { mode });
    let mut k: usize = 0;
    while k < n
        invariant
            0 <= k <= n,
            n == list@.len(),
            list@ == mode_list(cmds@, mode, cmds@.len() as int),
            forall|j: int|
                0 <= j < list@.len() ==> {
                    let i = #[trigger] list@[j] as int;
                    &&& 0 <= i < cmds@.len()
                    &&& cmds@[i] is Mesh
                    &&& cmds@[i].mesh().spec_attrs_mode() == mode
                },
            out@ == old(out)@ + seq![Instruction::VertexAttrsBegin { mode }] + triads(
                cmds@,
                mode,
                k as int,
            ),
        decreases n - k,
    {
        let idx = list[k];
        match cmds[idx] {
            Command::Mesh(m) => {
                out.push(Instruction::VertexAttrsDescriptors { mode, set: k });
                out.push(
                    Instruction::VertexAttrsCalc {
                        mode,
                        base_vertex: m.base_vertex,
                        dispatch: m.vertex_count,
                    },
                );
                proof {
                    assert(out@ =~= old(out)@ + seq![Instruction::VertexAttrsBegin { mode }]
                        + triads(cmds@, mode, k as int + 1));
                }
            },
            _ => {
                proof {
                    assert(false);
                }
            },
        }
        k = k + 1;
    }
    proof {
        assert(out@ =~= old(out)@ + compute_mode_phase(cmds@, mode));
    }
}

fn emit_mesh_phase(
    out: &mut Vec<Instruction>,
    cmds: &Vec<Command>,
    materials: &Vec<Material>,
    attr_ids: &Vec<BufferId>,
    n_mesh: usize,
    Ghost(fb): Ghost<FrameBuffers>,
)
    requires
        materials@ == frame_materials(cmds@),
        attr_ids@.len() == mesh_count(cmds@, cmds@.len() as int),
        n_mesh == mesh_count(cmds@, cmds@.len() as int),
        fb.attr_bufs == attr_ids@,
    ensures
        final(out)@ == old(out)@ + mesh_phase(cmds@, fb),
{
    let n = cmds.len();
    if n_mesh == 0 {
        proof {
            assert(out@ =~= old(out)@ + mesh_phase(cmds@, fb));
        }
        return ;
    }
    out.push(Instruction::MeshBegin);
    let n_groups = materials.len();
    let mut g: usize = 0;
    while g < n_groups
        invariant
            0 <= g <= n_groups,
            n == cmds@.len(),
            n_groups == materials@.len(),
            materials@ == frame_materials(cmds@),
            attr_ids@.len() == mesh_count(cmds@, n as int),
            fb.attr_bufs == attr_ids@,
            out@ == old(out)@ + seq![Instruction::MeshBegin] + groups_prefix(cmds@, fb, g as int),
        decreases n_groups - g,
    {
        out.push(Instruction::MeshDescriptors { set: g });
        let ghost base = old(out)@ + seq![Instruction::MeshBegin] + groups_prefix(
            cmds@,
            fb,
            g as int,
        ) + seq![Instruction::MeshDescriptors { set: g }];
        proof {
            assert(out@ =~= base);
        }
        let mut ord: usize = 0;
        let mut i: usize = 0;
        while i < n
            invariant
                0 <= i <= n,
                n == cmds@.len(),
                0 <= g < materials@.len(),
                materials@ == frame_materials(cmds@),
                attr_ids@.len() == mesh_count(cmds@, n as int),
                fb.attr_bufs == attr_ids@,
                ord == mesh_count(cmds@, i as int),
                ord <= i,
                out@ == base + group_draws(cmds@, fb, g as int, i as int),
            decreases n - i,
        {
            if let Command::Mesh(m) = cmds[i] {
                proof {
                    lemma_mesh_count_bounds(cmds@, i as int + 1, n as int);
                }
                if materials[g].same_identity(&m.material) {
                    out.push(
                        Instruction::MeshBind {
                            index_buf: m.index_buf,
                            index_len: index_len_of(&m),
                            index_type: m.index_type,
                            vertex_buf: attr_ids[ord],
                            vertex_len: vertex_len_of(&m),
                        },
                    );
                    out.push(Instruction::MeshDraw { cmd: i, set: g });
                    proof {
                        assert(out@ =~= base + group_draws(cmds@, fb, g as int, i as int + 1));
                    }
                }
                ord = ord + 1;
            }
            i = i + 1;
        }
        g = g + 1;
        proof {
            assert(out@ =~= old(out)@ + seq![Instruction::MeshBegin] + groups_prefix(
                cmds@,
                fb,
                g as int,
            ));
        }
    }
    proof {
        assert(out@ =~= old(out)@ + mesh_phase(cmds@, fb));
    }
}

fn emit_point_lights(
    out: &mut Vec<Instruction>,
    cmds: &Vec<Command>,
    volume_id: BufferId,
    n_point: usize,
    Ghost(fb): Ghost<FrameBuffers>,
)
    requires
        n_point == point_count(cmds@, cmds@.len() as int),
        fb.light_volume == volume_id,
    ensures
        final(out)@ == old(out)@ + if point_count(cmds@, cmds@.len() as int) > 0 {
            seq![
                Instruction::PointLightBegin,
                Instruction::LightBind { buf: fb.light_volume, len: LIGHT_VOLUME_LEN },
            ] + point_draws(cmds@, cmds@.len() as int)
        } else {
            Seq::empty()
        },
{
    let n = cmds.len();
    if n_point == 0 {
        proof {
            assert(out@ =~= old(out)@ + Seq::<Instruction>::empty());
        }
        return ;
    }
    out.push(Instruction::PointLightBegin);
    out.push(Instruction::LightBind { buf: volume_id, len: LIGHT_VOLUME_LEN });
    let ghost base = old(out)@ + seq![
        Instruction::PointLightBegin,
        Instruction::LightBind { buf: fb.light_volume, len: LIGHT_VOLUME_LEN },
    ];
    proof {
        assert(out@ =~= base);
    }
    let mut i: usize = 0;
    while i < n
        invariant
            0 <= i <= n,
            n == cmds@.len(),
            out@ == base + point_draws(cmds@, i as int),
        decreases n - i,
    {
        if let Command::PointLight(_) = cmds[i] {
            out.push(Instruction::PointLightDraw { cmd: i });
            proof {
                assert(out@ =~= base + point_draws(cmds@, i as int + 1));
            }
        }
        i = i + 1;
    }
}

fn emit_rect_lights(
    out: &mut Vec<Instruction>,
    cmds: &Vec<Command>,
    volume_id: BufferId,
    n_rect: usize,
    Ghost(fb): Ghost<FrameBuffers>,
)
    requires
        cmds@.len() <= MAX_FRAME_COMMANDS,
        n_rect == rect_count(cmds@, cmds@.len() as int),
        fb.light_volume == volume_id,
    ensures
        final(out)@ == old(out)@ + if rect_count(cmds@, cmds@.len() as int) > 0 {
            seq![Instruction::RectLightBegin { buf: fb.light_volume }] + rect_draws(
                cmds@,
                cmds@.len() as int,
            )
        } else {
            Seq::empty()
        },
{
    let n = cmds.len();
    if n_rect == 0 {
        proof {
            assert(out@ =~= old(out)@ + Seq::<Instruction>::empty());
        }
        return ;
    }
    out.push(Instruction::RectLightBegin { buf: volume_id });
    let ghost base = old(out)@ + seq![Instruction::RectLightBegin { buf: fb.light_volume }];
    let mut k: usize = 0;
    let mut i: usize = 0;
    while i < n
        invariant
            0 <= i <= n,
            n == cmds@.len() <= MAX_FRAME_COMMANDS,
            k == rect_count(cmds@, i as int),
            k <= i,
            out@ == base + rect_draws(cmds@, i as int),
        decreases n - i,
    {
        if let Command::RectLight(_) = cmds[i] {
            let offset: u32 = (k as u32) * RECT_LIGHT_DRAW_COUNT;
            out.push(Instruction::RectLightDraw { cmd: i, offset });
            k = k + 1;
            proof {
                assert(out@ =~= base + rect_draws(cmds@, i as int + 1));
            }
        }
        i = i + 1;
    }
}

fn emit_spotlights(
    out: &mut Vec<Instruction>,
    cmds: &Vec<Command>,
    volume_id: BufferId,
    n_spot: usize,
    Ghost(fb): Ghost<FrameBuffers>,
)
    requires
        cmds@.len() <= MAX_FRAME_COMMANDS,
        n_spot == spot_count(cmds@, cmds@.len() as int),
        fb.light_volume == volume_id,
    ensures
        final(out)@ == old(out)@ + if spot_count(cmds@, cmds@.len() as int) > 0 {
            seq![Instruction::SpotlightBegin { buf: fb.light_volume }] + spot_draws(
                cmds@,
                cmds@.len() as int,
            )
        } else {
            Seq::empty()
        },
{
    let n = cmds.len();
    if n_spot == 0 {
        proof {
            assert(out@ =~= old(out)@ + Seq::<Instruction>::empty());
        }
        return ;
    }
    out.push(Instruction::SpotlightBegin { buf: volume_id });
    let ghost base = old(out)@ + seq![Instruction::SpotlightBegin { buf: fb.light_volume }];
    let mut k: usize = 0;
    let mut i: usize = 0;
    while i < n
        invariant
            0 <= i <= n,
            n == cmds@.len() <= MAX_FRAME_COMMANDS,
            k == spot_count(cmds@, i as int),
            k <= i,
            out@ == base + spot_draws(cmds@, i as int),
        decreases n - i,
    {
        if let Command::Spotlight(_) = cmds[i] {
            let offset: u32 = (k as u32) * SPOTLIGHT_DRAW_COUNT;
            out.push(Instruction::SpotlightDraw { cmd: i, offset });
            k = k + 1;
            proof {
                assert(out@ =~= base + spot_draws(cmds@, i as int + 1));
            }
        }
        i = i + 1;
    }
}

fn emit_sunlights(out: &mut Vec<Instruction>, cmds: &Vec<Command>, n_sun: usize)
    requires
        n_sun == sun_count(cmds@, cmds@.len() as int),
    ensures
        final(out)@ == old(out)@ + if sun_count(cmds@, cmds@.len() as int) > 0 {
            seq![Instruction::SunlightBegin] + sun_draws(cmds@, cmds@.len() as int)
        } else {
            Seq::empty()
        },
{
    let n = cmds.len();
    if n_sun == 0 {
        proof {
            assert(out@ =~= old(out)@ + Seq::<Instruction>::empty());
        }
        return ;
    }
    out.push(Instruction::SunlightBegin);
    let ghost base = old(out)@ + seq![Instruction::SunlightBegin];
    let mut i: usize = 0;
    while i < n
        invariant
            0 <= i <= n,
            n == cmds@.len(),
            out@ == base + sun_draws(cmds@, i as int),
        decreases n - i,
    {
        if let Command::Sunlight(_) = cmds[i] {
            out.push(Instruction::SunlightDraw { cmd: i });
            proof {
                assert(out@ =~= base + sun_draws(cmds@, i as int + 1));
            }
        }
        i = i + 1;
    }
}

fn emit_light_phase(
    out: &mut Vec<Instruction>,
    cmds: &Vec<Command>,
    volume_id: BufferId,
    n_point: usize,
    n_rect: usize,
    n_spot: usize,
    n_sun: usize,
    Ghost(fb): Ghost<FrameBuffers>,
)
    requires
        cmds@.len() <= MAX_FRAME_COMMANDS,
        n_point == point_count(cmds@, cmds@.len() as int),
        n_rect == rect_count(cmds@, cmds@.len() as int),
        n_spot == spot_count(cmds@, cmds@.len() as int),
        n_sun == sun_count(cmds@, cmds@.len() as int),
        fb.light_volume == volume_id,
    ensures
        final(out)@ == old(out)@ + light_phase(cmds@, fb),
{
    if n_point == 0 && n_rect == 0 && n_spot == 0 && n_sun == 0 {
        proof {
            assert(out@ =~= old(out)@ + light_phase(cmds@, fb));
        }
        return ;
    }
    out.push(Instruction::LightBegin);
    emit_point_lights(out, cmds, volume_id, n_point, Ghost(fb));
    emit_rect_lights(out, cmds, volume_id, n_rect, Ghost(fb));
    emit_spotlights(out, cmds, volume_id, n_spot, Ghost(fb));
    emit_sunlights(out, cmds, n_sun);
    proof {
        assert(out@ =~= old(out)@ + light_phase(cmds@, fb));
    }
}

/// The result of compiling one frame: the instruction sequence, the
/// deduplicated materials in first-seen order, the descriptor contents of
/// each compute variant, and the leases of the transient buffers the
/// instructions reference.  The leases stay here until the frame's fence
/// has signaled; `reset` then returns them to the pool.
pub struct Compilation {
    instrs: Vec<Instruction>,
    materials: Vec<Material>,
    u16_bufs: Vec<VertexBuffers>,
    u16_skin_bufs: Vec<VertexBuffers>,
    u32_bufs: Vec<VertexBuffers>,
    u32_skin_bufs: Vec<VertexBuffers>,
    line_buf: Option<Lease<DataBuf>>,
    light_volume_buf: Option<Lease<DataBuf>>,
    attr_leases: Vec<Lease<DataBuf>>,
    mask_leases: Vec<Lease<DataBuf>>,
    line_present: bool,
    point_present: bool,
    rect_present: bool,
    spot_present: bool,
    sun_present: bool,
    fb: Ghost<FrameBuffers>,
}

impl Compilation {
    /// The compiled instruction sequence.
    pub closed spec fn spec_instrs(self) -> Seq<Instruction> {
        self.instrs@
    }

    /// The descriptor-set groups: distinct materials in first-seen order.
    pub closed spec fn spec_materials(self) -> Seq<Material> {
        self.materials@
    }

    /// The transient buffers the instructions reference.
    pub closed spec fn spec_fb(self) -> FrameBuffers {
        self.fb@
    }

    /// Whether the frame draws any debug lines.
    pub closed spec fn spec_contains_lines(self) -> bool {
        self.line_present
    }

    /// Whether the frame holds point lights.
    pub closed spec fn spec_has_point_lights(self) -> bool {
        self.point_present
    }

    /// Whether the frame holds rectangular area lights.
    pub closed spec fn spec_has_rect_lights(self) -> bool {
        self.rect_present
    }

    /// Whether the frame holds spotlights.
    pub closed spec fn spec_has_spotlights(self) -> bool {
        self.spot_present
    }

    /// Whether the frame holds sunlights.
    pub closed spec fn spec_has_sunlights(self) -> bool {
        self.sun_present
    }

    /// How many transient buffer leases the compilation holds.
    pub closed spec fn spec_lease_count(self) -> nat {
        self.attr_leases@.len() + self.mask_leases@.len() + (if self.line_buf is Some {
            1nat
        } else {
            0nat
        }) + (if self.light_volume_buf is Some {
            1nat
        } else {
            0nat
        })
    }

    /// The descriptor contents of one compute variant, slot after slot.
    pub closed spec fn spec_vertex_bufs(self, mode: CalcVertexAttrsMode) -> Seq<VertexBuffers> {
        match mode {
            CalcVertexAttrsMode::U16 => self.u16_bufs@,
            CalcVertexAttrsMode::U16Skin => self.u16_skin_bufs@,
            CalcVertexAttrsMode::U32 => self.u32_bufs@,
            CalcVertexAttrsMode::U32Skin => self.u32_skin_bufs@,
        }
    }

    /// The compiled instruction sequence.
    pub fn instrs(&self) -> (r: &Vec<Instruction>)
        ensures
            r@ == self.spec_instrs(),
    {
        &self.instrs
    }

    /// The deduplicated materials, in first-seen order.
    pub fn materials(&self) -> (r: &Vec<Material>)
        ensures
            r@ == self.spec_materials(),
    {
        &self.materials
    }

    /// Whether the frame draws any debug lines (it then needs the
    /// post-effect subpass).
    pub fn contains_lines(&self) -> (r: bool)
        ensures
            r == self.spec_contains_lines(),
    {
        self.line_present
    }

    /// Whether the frame holds point lights.
    pub fn has_point_lights(&self) -> (r: bool)
        ensures
            r == self.spec_has_point_lights(),
    {
        self.point_present
    }

    /// Whether the frame holds rectangular area lights.
    pub fn has_rect_lights(&self) -> (r: bool)
        ensures
            r == self.spec_has_rect_lights(),
    {
        self.rect_present
    }

    /// Whether the frame holds spotlights.
    pub fn has_spotlights(&self) -> (r: bool)
        ensures
            r == self.spec_has_spotlights(),
    {
        self.spot_present
    }

    /// Whether the frame holds sunlights.
    pub fn has_sunlights(&self) -> (r: bool)
        ensures
            r == self.spec_has_sunlights(),
    {
        self.sun_present
    }

    /// The descriptor contents of one compute variant, slot after slot.
    pub fn vertex_bufs(&self, mode: CalcVertexAttrsMode) -> (r: &Vec<VertexBuffers>)
        ensures
            r@ == self.spec_vertex_bufs(mode),
    {
        match mode {
            CalcVertexAttrsMode::U16 => &self.u16_bufs,
            CalcVertexAttrsMode::U16Skin => &self.u16_skin_bufs,
            CalcVertexAttrsMode::U32 => &self.u32_bufs,
            CalcVertexAttrsMode::U32Skin => &self.u32_skin_bufs,
        }
    }

    /// Returns every transient buffer lease to the pool.  Called only once
    /// the frame's fence has signaled: resources referenced by in-flight
    /// GPU work must never be reclaimed earlier.
    pub fn reset(self, pool: &mut Pool)
        ensures
            final(pool).idle_buffers().len() == old(pool).idle_buffers().len()
                + self.spec_lease_count(),
            final(pool).allocations() == old(pool).allocations(),
            final(pool).idle_cmd_pools() == old(pool).idle_cmd_pools(),
            final(pool).idle_fences() == old(pool).idle_fences(),
            final(pool).idle_graphics() == old(pool).idle_graphics(),
            final(pool).idle_computes() == old(pool).idle_computes(),
    {
        let ghost total = self.spec_lease_count();
        let ghost base = old(pool).idle_buffers().len();
        let Compilation { line_buf, light_volume_buf, mut attr_leases, mut mask_leases, .. } = self;
        if let Some(l) = line_buf {
            pool.release_data_buffer(l);
        }
        if let Some(l) = light_volume_buf {
            pool.release_data_buffer(l);
        }
        while attr_leases.len() > 0
            invariant
                pool.idle_buffers().len() + attr_leases@.len() + mask_leases@.len() == base
                    + total,
                pool.allocations() == old(pool).allocations(),
                pool.idle_cmd_pools() == old(pool).idle_cmd_pools(),
                pool.idle_fences() == old(pool).idle_fences(),
                pool.idle_graphics() == old(pool).idle_graphics(),
                pool.idle_computes() == old(pool).idle_computes(),
            decreases attr_leases@.len(),
        {
            let l = attr_leases.pop().unwrap();
            pool.release_data_buffer(l);
        }
        while mask_leases.len() > 0
            invariant
                pool.idle_buffers().len() + mask_leases@.len() == base + total,
                pool.allocations() == old(pool).allocations(),
                pool.idle_cmd_pools() == old(pool).idle_cmd_pools(),
                pool.idle_fences() == old(pool).idle_fences(),
                pool.idle_graphics() == old(pool).idle_graphics(),
                pool.idle_computes() == old(pool).idle_computes(),
            decreases mask_leases@.len(),
        {
            let l = mask_leases.pop().unwrap();
            pool.release_data_buffer(l);
        }
    }
}

/// Compiles one frame: deduplicates and orders the draw commands into the
/// single replayable instruction sequence `compile_program` defines, over
/// the transient buffers leased from the pool.  The camera does not affect
/// instruction order; it is consulted again when the instructions are
/// replayed.
pub fn compile(pool: &mut Pool, _camera: &Camera, cmds: &Vec<Command>) -> (c: Compilation)
    requires
        cmds@.len() <= MAX_FRAME_COMMANDS,
    ensures
        c.spec_instrs() == compile_program(cmds@, c.spec_fb()),
        c.spec_materials() == frame_materials(cmds@),
        c.spec_contains_lines() == (line_count(cmds@, cmds@.len() as int) > 0),
        c.spec_has_point_lights() == (point_count(cmds@, cmds@.len() as int) > 0),
        c.spec_has_rect_lights() == (rect_count(cmds@, cmds@.len() as int) > 0),
        c.spec_has_spotlights() == (spot_count(cmds@, cmds@.len() as int) > 0),
        c.spec_has_sunlights() == (sun_count(cmds@, cmds@.len() as int) > 0),
        c.spec_fb().attr_bufs.len() == mesh_count(cmds@, cmds@.len() as int),
        c.spec_fb().mask_bufs.len() == mesh_count(cmds@, cmds@.len() as int),
        c.spec_lease_count() == 2 * mesh_count(cmds@, cmds@.len() as int) + (
        if line_count(cmds@, cmds@.len() as int) > 0 {
            1int
        } else {
            0int
        }) + (
        if volume_needed(cmds@) {
            1int
        } else {
            0int
        }),
        forall|mode: CalcVertexAttrsMode| #[trigger]
            c.spec_vertex_bufs(mode) == vertex_bufs_upto(
                cmds@,
                c.spec_fb().attr_bufs,
                c.spec_fb().mask_bufs,
                mode,
                cmds@.len() as int,
            ),
        final(pool).idle_cmd_pools() == old(pool).idle_cmd_pools(),
        final(pool).idle_fences() == old(pool).idle_fences(),
        final(pool).idle_graphics() == old(pool).idle_graphics(),
        final(pool).idle_computes() == old(pool).idle_computes(),
{
    let s = scan_commands(cmds);
    let (attr_leases, mask_leases, attr_ids, mask_ids) = acquire_mesh_buffers(pool, cmds);

    let mut line_buf: Option<Lease<DataBuf>> = None;
    let mut line_id: BufferId = 0;
    if s.n_line > 0 {
        let (lease, _) = pool.data_buffer(BufferClass::Line, (s.n_line as u64) * LINE_STRIDE);
        line_id = lease.item().id;
        line_buf = Some(lease);
    }

    let mut light_volume_buf: Option<Lease<DataBuf>> = None;
    let mut volume_id: BufferId = 0;
    let mut volume_fresh = false;
    if s.n_point > 0 || s.n_rect > 0 || s.n_spot > 0 {
        let (lease, fresh) = pool.data_buffer(BufferClass::LightVolume, LIGHT_VOLUME_LEN);
        volume_id = lease.item().id;
        volume_fresh = fresh;
        light_volume_buf = Some(lease);
    }

    let ghost fb = FrameBuffers {
        line_buf: line_id,
        light_volume: volume_id,
        light_volume_fresh: volume_fresh,
        attr_bufs: attr_ids@,
        mask_bufs: mask_ids@,
    };

    let mut instrs: Vec<Instruction> = Vec::new();
    emit_upload_meshes(&mut instrs, cmds);
    if s.n_line > 0 {
        instrs.push(
            Instruction::VertexWrite { buf: line_id, len: (s.n_line as u64) * LINE_STRIDE },
        );
    }
    if (s.n_point > 0 || s.n_rect > 0 || s.n_spot > 0) && volume_fresh {
        instrs.push(Instruction::VertexWrite { buf: volume_id, len: LIGHT_VOLUME_LEN });
    }
    let ghost acc0 = upload_phase(cmds@, fb);
    proof {
        assert(instrs@ =~= acc0);
    }

    emit_compute_mode(&mut instrs, cmds, &s.u16_list, CalcVertexAttrsMode::U16);
    emit_compute_mode(&mut instrs, cmds, &s.u16_skin_list, CalcVertexAttrsMode::U16Skin);
    emit_compute_mode(&mut instrs, cmds, &s.u32_list, CalcVertexAttrsMode::U32);
    emit_compute_mode(&mut instrs, cmds, &s.u32_skin_list, CalcVertexAttrsMode::U32Skin);
    let ghost acc1 = acc0 + compute_phase(cmds@);
    proof {
        assert(instrs@ =~= acc1);
    }

    emit_mesh_phase(&mut instrs, cmds, &s.materials, &attr_ids, s.n_mesh, Ghost(fb));
    let ghost acc2 = acc1 + mesh_phase(cmds@, fb);
    proof {
        assert(instrs@ =~= acc2);
    }

    emit_light_phase(
        &mut instrs,
        cmds,
        volume_id,
        s.n_point,
        s.n_rect,
        s.n_spot,
        s.n_sun,
        Ghost(fb),
    );
    let ghost acc3 = acc2 + light_phase(cmds@, fb);
    proof {
        assert(instrs@ =~= acc3);
    }

    if s.n_line > 0 {
        instrs.push(Instruction::LineDraw { buf: line_id, line_count: s.n_line as u32 });
    }
    proof {
        assert(instrs@ =~= compile_program(cmds@, fb));
    }

    let u16_bufs = build_vertex_bufs(cmds, &attr_ids, &mask_ids, CalcVertexAttrsMode::U16);
    let u16_skin_bufs = build_vertex_bufs(cmds, &attr_ids, &mask_ids, CalcVertexAttrsMode::U16Skin);
    let u32_bufs = build_vertex_bufs(cmds, &attr_ids, &mask_ids, CalcVertexAttrsMode::U32);
    let u32_skin_bufs = build_vertex_bufs(cmds, &attr_ids, &mask_ids, CalcVertexAttrsMode::U32Skin);

    Compilation {
        instrs,
        materials: s.materials,
        u16_bufs,
        u16_skin_bufs,
        u32_bufs,
        u32_skin_bufs,
        line_buf,
        light_volume_buf,
        attr_leases,
        mask_leases,
        line_present: s.n_line > 0,
        point_present: s.n_point > 0,
        rect_present: s.n_rect > 0,
        spot_present: s.n_spot > 0,
        sun_present: s.n_sun > 0,
        fb: Ghost(fb),
    }
}

} // verus!
