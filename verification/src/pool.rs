//! The leased-resource pool.
//!
//! The pool owns idle GPU-side objects keyed by a structural descriptor and
//! lends them out as exclusively-owned leases.  Releasing a lease returns
//! the object to the idle set, where a later frame with the same descriptor
//! can reuse it.  Transient data buffers follow a grow-only policy: a
//! reused buffer whose capacity does not reach the requested size is
//! replaced by a strictly larger one, and capacity never shrinks.

use vstd::prelude::*;

use crate::command::CalcVertexAttrsMode;
use crate::def::{BufferClass, DrawRenderPassMode, GraphicsMode};

verus! {

/// A transient data buffer: a stable handle, the size class it serves, and
/// its capacity in bytes.
#[derive(Clone, Copy, Debug, PartialEq, Eq, Structural)]
pub struct DataBuf {
    /// Stable handle of the buffer.
    pub id: u64,
    /// Size class the buffer was acquired for.
    pub class: BufferClass,
    /// Capacity in bytes.
    pub capacity: u64,
}

/// A command pool bound to one queue family.
#[derive(Clone, Copy, Debug, PartialEq, Eq, Structural)]
pub struct CmdPool {
    /// Stable handle of the command pool.
    pub id: u64,
    /// Queue family the pool allocates for.
    pub family: u32,
}

/// A completion fence.
#[derive(Clone, Copy, Debug, PartialEq, Eq, Structural)]
pub struct Fence {
    /// Stable handle of the fence.
    pub id: u64,
}

/// A graphics pipeline together with its allocated descriptor sets.
#[derive(Clone, Copy, Debug, PartialEq, Eq, Structural)]
pub struct GraphicsSets {
    /// Stable handle of the pipeline object.
    pub id: u64,
    /// Render pass the pipeline was compiled against.
    pub pass: DrawRenderPassMode,
    /// Subpass the pipeline draws in.
    pub subpass: u8,
    /// Fixed-function mode of the pipeline.
    pub mode: GraphicsMode,
    /// Number of descriptor sets allocated with the pipeline.
    pub desc_sets: usize,
}

/// A compute pipeline together with its allocated descriptor sets.
#[derive(Clone, Copy, Debug, PartialEq, Eq, Structural)]
pub struct ComputeSets {
    /// Stable handle of the pipeline object.
    pub id: u64,
    /// Vertex-attribute variant the pipeline computes.
    pub mode: CalcVertexAttrsMode,
    /// Number of descriptor sets allocated with the pipeline.
    pub desc_sets: usize,
}

/// An exclusively-owned, scoped handle to a pool-resident resource.
/// Exactly one owner at a time; it returns to the pool only through the
/// pool's release methods.
#[derive(Debug)]
pub struct Lease<T> {
    item: T,
}

impl<T> View for Lease<T> {
    type V = T;

    closed spec fn view(&self) -> T {
        self.item
    }
}

impl<T> Lease<T> {
    /// Read access to the leased resource.
    pub fn item(&self) -> (r: &T)
        ensures
            *r == self@,
    {
        &self.item
    }
}

/// Index of the first idle buffer of the given class, scanning from the
/// front of the idle list.
pub open spec fn first_match(s: Seq<DataBuf>, class: BufferClass, i: int) -> Option<int>
    decreases s.len() - i,
{
    if i < 0 || i >= s.len() {
        None
    } else if s[i].class == class {
        Some(i)
    } else {
        first_match(s, class, i + 1)
    }
}

/// Whether an idle buffer of the class exists.
pub open spec fn has_idle(s: Seq<DataBuf>, class: BufferClass) -> bool {
    first_match(s, class, 0) is Some
}

/// Capacity of the buffer an acquire for `(class, size)` hands out: the
/// idle buffer's capacity when it suffices, else exactly the requested
/// size (of a strictly larger replacement or a fresh allocation).
pub open spec fn take_capacity(s: Seq<DataBuf>, class: BufferClass, size: u64) -> u64 {
    match first_match(s, class, 0) {
        Some(i) => if s[i].capacity >= size {
            s[i].capacity
        } else {
            size
        },
        None => size,
    }
}

/// The idle list after an acquire of the class: the first matching entry
/// leaves the idle set; nothing else moves.
pub open spec fn take_buffers(s: Seq<DataBuf>, class: BufferClass) -> Seq<DataBuf> {
    match first_match(s, class, 0) {
        Some(i) => s.remove(i),
        None => s,
    }
}

/// Whether an acquire of `(class, size)` constructs a new buffer: it does
/// exactly when no idle buffer of the class has enough capacity.
pub open spec fn allocates(s: Seq<DataBuf>, class: BufferClass, size: u64) -> bool {
    match first_match(s, class, 0) {
        Some(i) => s[i].capacity < size,
        None => true,
    }
}

/// The idle list after a release: the buffer returns to the front of the
/// idle set, so the next acquire of its class finds it first.
pub open spec fn give_back(s: Seq<DataBuf>, b: DataBuf) -> Seq<DataBuf> {
    seq![b] + s
}

/// Whether an idle command pool serves the queue family.
pub open spec fn has_cmd_pool_match(s: Seq<CmdPool>, family: u32) -> bool {
    exists|i: int| 0 <= i < s.len() && s[i].family == family
}

/// Whether an idle graphics pipeline matches the whole descriptor.
pub open spec fn has_graphics_match(
    s: Seq<GraphicsSets>,
    pass: DrawRenderPassMode,
    subpass: u8,
    mode: GraphicsMode,
    desc_sets: usize,
) -> bool {
    exists|i: int|
        0 <= i < s.len() && s[i].pass == pass && s[i].subpass == subpass && s[i].mode == mode
            && s[i].desc_sets == desc_sets
}

/// Whether an idle compute pipeline matches the whole descriptor.
pub open spec fn has_compute_match(
    s: Seq<ComputeSets>,
    mode: CalcVertexAttrsMode,
    desc_sets: usize,
) -> bool {
    exists|i: int| 0 <= i < s.len() && s[i].mode == mode && s[i].desc_sets == desc_sets
}

/// The pool of idle GPU objects.
pub struct Pool {
    next_id: u64,
    idle_buffers: Vec<DataBuf>,
    idle_cmd_pools: Vec<CmdPool>,
    idle_fences: Vec<Fence>,
    idle_graphics: Vec<GraphicsSets>,
    idle_computes: Vec<ComputeSets>,
    alloc_caps: Ghost<Seq<u64>>,
}

impl Pool {
    /// The idle data buffers, front first.
    pub closed spec fn idle_buffers(self) -> Seq<DataBuf> {
        self.idle_buffers@
    }

    /// The idle command pools, front first.
    pub closed spec fn cmd_pool_list(self) -> Seq<CmdPool> {
        self.idle_cmd_pools@
    }

    /// Number of idle command pools.
    pub closed spec fn idle_cmd_pools(self) -> nat {
        self.idle_cmd_pools@.len()
    }

    /// Number of idle fences.
    pub closed spec fn idle_fences(self) -> nat {
        self.idle_fences@.len()
    }

    /// The idle graphics pipelines, front first.
    pub closed spec fn graphics_list(self) -> Seq<GraphicsSets> {
        self.idle_graphics@
    }

    /// Number of idle graphics pipelines.
    pub closed spec fn idle_graphics(self) -> nat {
        self.idle_graphics@.len()
    }

    /// The idle compute pipelines, front first.
    pub closed spec fn compute_list(self) -> Seq<ComputeSets> {
        self.idle_computes@
    }

    /// Number of idle compute pipelines.
    pub closed spec fn idle_computes(self) -> nat {
        self.idle_computes@.len()
    }

    /// Capacity of every data buffer the pool has constructed, in order.
    pub closed spec fn allocations(self) -> Seq<u64> {
        self.alloc_caps@
    }

    /// An empty pool: no idle resources, no allocations yet.
    pub fn new() -> (r: Pool)
        ensures
            r.idle_buffers() == Seq::<DataBuf>::empty(),
            r.idle_cmd_pools() == 0,
            r.idle_fences() == 0,
            r.idle_graphics() == 0,
            r.idle_computes() == 0,
            r.allocations() == Seq::<u64>::empty(),
    {
        Pool {
            next_id: 0,
            idle_buffers: Vec::new(),
            idle_cmd_pools: Vec::new(),
            idle_fences: Vec::new(),
            idle_graphics: Vec::new(),
            idle_computes: Vec::new(),
            alloc_caps: Ghost(Seq::empty()),
        }
    }

    fn fresh_id(&mut self) -> (r: u64)
        ensures
            final(self).idle_buffers == old(self).idle_buffers,
            final(self).idle_cmd_pools == old(self).idle_cmd_pools,
            final(self).idle_fences == old(self).idle_fences,
            final(self).idle_graphics == old(self).idle_graphics,
            final(self).idle_computes == old(self).idle_computes,
            final(self).alloc_caps == old(self).alloc_caps,
    {
        let id = self.next_id;
        self.next_id = self.next_id.wrapping_add(1);
        id
    }

    /// Hands out a block of `count` fresh image handles and returns the
    /// first; the caller's driver creates the images under these handles.
    pub fn image_ids(&mut self, count: u64) -> (r: u64)
        ensures
            final(self).idle_buffers() == old(self).idle_buffers(),
            final(self).allocations() == old(self).allocations(),
            final(self).idle_cmd_pools() == old(self).idle_cmd_pools(),
            final(self).idle_fences() == old(self).idle_fences(),
            final(self).idle_graphics() == old(self).idle_graphics(),
            final(self).idle_computes() == old(self).idle_computes(),
    {
        let id = self.next_id;
        self.next_id = self.next_id.wrapping_add(count);
        id
    }

    /// Number of idle data buffers, for callers that watch reuse.
    pub fn idle_buffer_count(&self) -> (r: usize)
        ensures
            r == self.idle_buffers().len(),
    {
        self.idle_buffers.len()
    }

    /// Number of idle fences, for callers that watch reuse.
    pub fn idle_fence_count(&self) -> (r: usize)
        ensures
            r == self.idle_fences(),
    {
        self.idle_fences.len()
    }

    /// Number of idle command pools, for callers that watch reuse.
    pub fn idle_cmd_pool_count(&self) -> (r: usize)
        ensures
            r == self.idle_cmd_pools(),
    {
        self.idle_cmd_pools.len()
    }

    /// Acquires a transient data buffer of the class, able to hold `size`
    /// bytes.  An idle buffer of the class is reused when its capacity
    /// suffices; an undersized idle buffer is replaced by a strictly
    /// larger one; otherwise a fresh buffer is constructed.  The second
    /// result says whether the returned buffer is newly constructed, so
    /// its content still has to be written.
    pub fn data_buffer(&mut self, class: BufferClass, size: u64) -> (r: (Lease<DataBuf>, bool))
        ensures
            ({
                let (lease, fresh) = r;
                &&& lease@.class == class
                &&& lease@.capacity == take_capacity(old(self).idle_buffers(), class, size)
                &&& lease@.capacity >= size
                &&& fresh == allocates(old(self).idle_buffers(), class, size)
            }),
            final(self).idle_buffers() == take_buffers(old(self).idle_buffers(), class),
            final(self).allocations() == if allocates(old(self).idle_buffers(), class, size) {
                old(self).allocations().push(size)
            } else {
                old(self).allocations()
            },
            final(self).idle_cmd_pools() == old(self).idle_cmd_pools(),
            final(self).idle_fences() == old(self).idle_fences(),
            final(self).idle_graphics() == old(self).idle_graphics(),
            final(self).idle_computes() == old(self).idle_computes(),
    {
        let n = self.idle_buffers.len();
        let mut i: usize = 0;
        while i < n
            invariant
                n == self.idle_buffers@.len(),
                0 <= i <= n,
                *self == *old(self),
                first_match(self.idle_buffers@, class, 0) == first_match(
                    self.idle_buffers@,
                    class,
                    i as int,
                ),
            decreases n - i,
        {
            if self.idle_buffers[i].class == class {
                proof {
                    assert(first_match(old(self).idle_buffers(), class, i as int) == Some(i as int));
                }
                let found = self.idle_buffers.remove(i);
                if found.capacity >= size {
                    return (Lease { item: found }, false);
                } else {
                    // Grow-only replacement: the undersized buffer is
                    // discarded and a strictly larger one takes its place.
                    let id = self.fresh_id();
                    proof {
                        self.alloc_caps@ = self.alloc_caps@.push(size);
                    }
                    return (Lease { item: DataBuf { id, class, capacity: size } }, true);
                }
            }
            i = i + 1;
        }
        proof {
            assert(first_match(old(self).idle_buffers(), class, n as int) is None);
        }
        let id = self.fresh_id();
        proof {
            self.alloc_caps@ = self.alloc_caps@.push(size);
        }
        (Lease { item: DataBuf { id, class, capacity: size } }, true)
    }

    /// Returns a data buffer to the front of the idle set.
    pub fn release_data_buffer(&mut self, lease: Lease<DataBuf>)
        ensures
            final(self).idle_buffers() == give_back(old(self).idle_buffers(), lease@),
            final(self).allocations() == old(self).allocations(),
            final(self).idle_cmd_pools() == old(self).idle_cmd_pools(),
            final(self).idle_fences() == old(self).idle_fences(),
            final(self).idle_graphics() == old(self).idle_graphics(),
            final(self).idle_computes() == old(self).idle_computes(),
    {
        self.idle_buffers.insert(0, lease.item);
        proof {
            assert(self.idle_buffers@ =~= give_back(old(self).idle_buffers(), lease@));
        }
    }

    /// Acquires a command pool for the queue family, reusing an idle one
    /// when a matching one exists.
    pub fn cmd_pool(&mut self, family: u32) -> (lease: Lease<CmdPool>)
        ensures
            lease@.family == family,
            final(self).idle_cmd_pools() == old(self).idle_cmd_pools() - (
            if has_cmd_pool_match(old(self).cmd_pool_list(), family) {
                1nat
            } else {
                0nat
            }),
            final(self).idle_buffers() == old(self).idle_buffers(),
            final(self).allocations() == old(self).allocations(),
            final(self).idle_fences() == old(self).idle_fences(),
            final(self).idle_graphics() == old(self).idle_graphics(),
            final(self).idle_computes() == old(self).idle_computes(),
    {
        let n = self.idle_cmd_pools.len();
        let mut i: usize = 0;
        while i < n
            invariant
                n == self.idle_cmd_pools@.len(),
                0 <= i <= n,
                self.idle_buffers == old(self).idle_buffers,
                self.idle_cmd_pools@ == old(self).idle_cmd_pools@,
                forall|k: int| 0 <= k < i ==> self.idle_cmd_pools@[k].family != family,
                self.idle_fences == old(self).idle_fences,
                self.idle_graphics == old(self).idle_graphics,
                self.idle_computes == old(self).idle_computes,
                self.alloc_caps == old(self).alloc_caps,
            decreases n - i,
        {
            if self.idle_cmd_pools[i].family == family {
                let found = self.idle_cmd_pools.remove(i);
                return Lease { item: found };
            }
            i = i + 1;
        }
        let id = self.fresh_id();
        Lease { item: CmdPool { id, family } }
    }

    /// Returns a command pool to the idle set.
    pub fn release_cmd_pool(&mut self, lease: Lease<CmdPool>)
        ensures
            final(self).idle_cmd_pools() == old(self).idle_cmd_pools() + 1,
            final(self).idle_buffers() == old(self).idle_buffers(),
            final(self).allocations() == old(self).allocations(),
            final(self).idle_fences() == old(self).idle_fences(),
            final(self).idle_graphics() == old(self).idle_graphics(),
            final(self).idle_computes() == old(self).idle_computes(),
    {
        self.idle_cmd_pools.push(lease.item);
    }

    /// Acquires a fence, reusing an idle one when the pool has any.
    pub fn fence(&mut self) -> (lease: Lease<Fence>)
        ensures
            final(self).idle_fences() == if old(self).idle_fences() == 0 {
                0nat
            } else {
                (old(self).idle_fences() - 1) as nat
            },
            final(self).idle_buffers() == old(self).idle_buffers(),
            final(self).allocations() == old(self).allocations(),
            final(self).idle_cmd_pools() == old(self).idle_cmd_pools(),
            final(self).idle_graphics() == old(self).idle_graphics(),
            final(self).idle_computes() == old(self).idle_computes(),
    {
        if self.idle_fences.len() > 0 {
            let found = self.idle_fences.remove(0);
            Lease { item: found }
        } else {
            let id = self.fresh_id();
            Lease { item: Fence { id } }
        }
    }

    /// Returns a fence to the idle set.
    pub fn release_fence(&mut self, lease: Lease<Fence>)
        ensures
            final(self).idle_fences() == old(self).idle_fences() + 1,
            final(self).idle_buffers() == old(self).idle_buffers(),
            final(self).allocations() == old(self).allocations(),
            final(self).idle_cmd_pools() == old(self).idle_cmd_pools(),
            final(self).idle_graphics() == old(self).idle_graphics(),
            final(self).idle_computes() == old(self).idle_computes(),
    {
        self.idle_fences.push(lease.item);
    }

    /// Acquires a graphics pipeline with descriptor sets for the exact
    /// descriptor `(pass, subpass, mode, desc_sets)`, reusing an idle one
    /// that matches it, else constructing a new one.
    pub fn graphics_desc_sets(
        &mut self,
        pass: DrawRenderPassMode,
        subpass: u8,
        mode: GraphicsMode,
        desc_sets: usize,
    ) -> (lease: Lease<GraphicsSets>)
        ensures
            lease@.pass == pass,
            lease@.subpass == subpass,
            lease@.mode == mode,
            lease@.desc_sets == desc_sets,
            final(self).idle_graphics() == old(self).idle_graphics() - (
            if has_graphics_match(old(self).graphics_list(), pass, subpass, mode, desc_sets) {
                1nat
            } else {
                0nat
            }),
            final(self).idle_buffers() == old(self).idle_buffers(),
            final(self).allocations() == old(self).allocations(),
            final(self).idle_cmd_pools() == old(self).idle_cmd_pools(),
            final(self).idle_fences() == old(self).idle_fences(),
            final(self).idle_computes() == old(self).idle_computes(),
    {
        let n = self.idle_graphics.len();
        let mut i: usize = 0;
        while i < n
            invariant
                n == self.idle_graphics@.len(),
                0 <= i <= n,
                self.idle_buffers == old(self).idle_buffers,
                self.idle_cmd_pools == old(self).idle_cmd_pools,
                self.idle_fences == old(self).idle_fences,
                self.idle_graphics@ == old(self).idle_graphics@,
                forall|k: int|
                    0 <= k < i ==> !(self.idle_graphics@[k].pass == pass
                        && self.idle_graphics@[k].subpass == subpass && self.idle_graphics@[k].mode
                        == mode && self.idle_graphics@[k].desc_sets == desc_sets),
                self.idle_computes == old(self).idle_computes,
                self.alloc_caps == old(self).alloc_caps,
            decreases n - i,
        {
            let g = &self.idle_graphics[i];
            if g.pass == pass && g.subpass == subpass && g.mode == mode && g.desc_sets == desc_sets
            {
                let found = self.idle_graphics.remove(i);
                return Lease { item: found };
            }
            i = i + 1;
        }
        let id = self.fresh_id();
        Lease { item: GraphicsSets { id, pass, subpass, mode, desc_sets } }
    }

    /// Returns a graphics pipeline to the idle set.
    pub fn release_graphics(&mut self, lease: Lease<GraphicsSets>)
        ensures
            final(self).idle_graphics() == old(self).idle_graphics() + 1,
            final(self).idle_buffers() == old(self).idle_buffers(),
            final(self).allocations() == old(self).allocations(),
            final(self).idle_cmd_pools() == old(self).idle_cmd_pools(),
            final(self).idle_fences() == old(self).idle_fences(),
            final(self).idle_computes() == old(self).idle_computes(),
    {
        self.idle_graphics.push(lease.item);
    }

    /// Acquires a compute pipeline with descriptor sets for the exact
    /// descriptor `(mode, desc_sets)`, reusing an idle match.
    pub fn compute_desc_sets(
        &mut self,
        mode: CalcVertexAttrsMode,
        desc_sets: usize,
    ) -> (lease: Lease<ComputeSets>)
        ensures
            lease@.mode == mode,
            lease@.desc_sets == desc_sets,
            final(self).idle_computes() == old(self).idle_computes() - (
            if has_compute_match(old(self).compute_list(), mode, desc_sets) {
                1nat
            } else {
                0nat
            }),
            final(self).idle_buffers() == old(self).idle_buffers(),
            final(self).allocations() == old(self).allocations(),
            final(self).idle_cmd_pools() == old(self).idle_cmd_pools(),
            final(self).idle_fences() == old(self).idle_fences(),
            final(self).idle_graphics() == old(self).idle_graphics(),
    {
        let n = self.idle_computes.len();
        let mut i: usize = 0;
        while i < n
            invariant
                n == self.idle_computes@.len(),
                0 <= i <= n,
                self.idle_buffers == old(self).idle_buffers,
                self.idle_cmd_pools == old(self).idle_cmd_pools,
                self.idle_fences == old(self).idle_fences,
                self.idle_graphics == old(self).idle_graphics,
                self.idle_computes@ == old(self).idle_computes@,
                forall|k: int|
                    0 <= k < i ==> !(self.idle_computes@[k].mode == mode
                        && self.idle_computes@[k].desc_sets == desc_sets),
                self.alloc_caps == old(self).alloc_caps,
            decreases n - i,
        {
            let c = &self.idle_computes[i];
            if c.mode == mode && c.desc_sets == desc_sets {
                let found = self.idle_computes.remove(i);
                return Lease { item: found };
            }
            i = i + 1;
        }
        let id = self.fresh_id();
        Lease { item: ComputeSets { id, mode, desc_sets } }
    }

    /// Returns a compute pipeline to the idle set.
    pub fn release_compute(&mut self, lease: Lease<ComputeSets>)
        ensures
            final(self).idle_computes() == old(self).idle_computes() + 1,
            final(self).idle_buffers() == old(self).idle_buffers(),
            final(self).allocations() == old(self).allocations(),
            final(self).idle_cmd_pools() == old(self).idle_cmd_pools(),
            final(self).idle_fences() == old(self).idle_fences(),
            final(self).idle_graphics() == old(self).idle_graphics(),
    {
        self.idle_computes.push(lease.item);
    }
}

/// Pool round trip: a released buffer is the first of its class the next
/// acquire finds, so acquiring again with the same descriptor returns a
/// capacity at least the capacity of the released buffer — the pool never
/// shrinks a size class.
pub proof fn lemma_pool_round_trip(s: Seq<DataBuf>, b: DataBuf, size: u64)
    ensures
        take_capacity(give_back(s, b), b.class, size) >= b.capacity,
{
    assert(give_back(s, b)[0] == b);
    assert(first_match(give_back(s, b), b.class, 0) == Some(0int));
}

/// Monotonic growth: starting with no idle buffer of the class, requesting
/// sizes `s1 < s2 < s3` in turn (releasing the lease between requests)
/// constructs three buffers of capacities exactly `s1`, `s2`, `s3` — so
/// only the last allocation, one in total, reaches capacity `s3`.
pub proof fn lemma_monotonic_growth(idle: Seq<DataBuf>, class: BufferClass, s1: u64, s2: u64, s3: u64, b1: DataBuf, b2: DataBuf)
    requires
        first_match(idle, class, 0) is None,
        s1 < s2 < s3,
        b1.class == class,
        b1.capacity == take_capacity(idle, class, s1),
        b2.class == class,
        b2.capacity == take_capacity(give_back(take_buffers(idle, class), b1), class, s2),
    ensures
        allocates(idle, class, s1),
        b1.capacity == s1,
        allocates(give_back(take_buffers(idle, class), b1), class, s2),
        b2.capacity == s2,
        allocates(
            give_back(take_buffers(give_back(take_buffers(idle, class), b1), class), b2),
            class,
            s3,
        ),
        take_capacity(
            give_back(take_buffers(give_back(take_buffers(idle, class), b1), class), b2),
            class,
            s3,
        ) == s3,
        b1.capacity < s3,
        b2.capacity < s3,
{
    let after1 = give_back(take_buffers(idle, class), b1);
    assert(after1[0] == b1);
    assert(first_match(after1, class, 0) == Some(0int));
    let after2 = give_back(take_buffers(after1, class), b2);
    assert(after2[0] == b2);
    assert(first_match(after2, class, 0) == Some(0int));
}

} // verus!
