//! The raw allocator shim, modelled as a verified arena.
//!
//! The ABI's calling convention hands allocation requests to the runtime as
//! `(old pointer, old length, alignment, new length)` quadruples instead of
//! using the host's native allocation API. This module models the shim's
//! policy over an explicit heap: a pointer is an address-like token, a block
//! is a byte vector, and every operation states exactly what it does to the
//! map from addresses to block contents.
//!
//! Addresses are multiples of [`GRANULE`], so every supported alignment is
//! satisfied, and they start at twice the granule, so the "empty" sentinel
//! (the alignment itself) can never collide with a live block.

use vstd::prelude::*;
use vstd::arithmetic::div_mod::{
    lemma_div_by_multiple, lemma_fundamental_div_mod, lemma_mod_multiples_basic, lemma_small_mod,
};

verus! {

/// Every block address is a multiple of this granule; an alignment is
/// supported exactly when it divides the granule.
pub const GRANULE: usize = 65536;

/// The arena retires a block id on every fresh allocation and never reuses
/// one; past this many ids the model reports allocation failure.
pub const MAX_BLOCKS: usize = 60000;

/// What the heap remembers about one live block.
pub struct BlockModel {
    /// The alignment the block was requested with.
    pub align: usize,
    /// The block's bytes.
    pub data: Seq<u8>,
}

struct Block {
    align: usize,
    data: Vec<u8>,
}

/// The model heap: a map from block addresses to live blocks, backed by an
/// arena of retired-or-live slots.
pub struct ShimHeap {
    blocks: Vec<Option<Block>>,
}

/// Reported when the arena cannot satisfy a fresh allocation; it names the
/// requested size and alignment, which is what a checked build reports before
/// terminating.
#[derive(Clone, Copy, Debug, PartialEq, Eq, Structural)]
pub struct AllocError {
    pub size: usize,
    pub align: usize,
}

/// The address of the block with the given arena id.
pub closed spec fn block_addr(id: int) -> int {
    (id + 2) * (GRANULE as int)
}

/// The arena id owning the given address.
pub closed spec fn id_of(a: int) -> int {
    a / (GRANULE as int) - 2
}

/// `data` resized to `n` bytes: the old bytes survive up to the smaller of
/// the two lengths, and any grown tail is zero.
pub open spec fn resized(data: Seq<u8>, n: nat) -> Seq<u8> {
    Seq::new(n, |i: int| if i < data.len() { data[i] } else { 0u8 })
}

proof fn lemma_block_addr_props(id: int)
    requires
        0 <= id,
    ensures
        id_of(block_addr(id)) == id,
        block_addr(id) >= 2 * GRANULE,
{
    lemma_div_by_multiple(id + 2, GRANULE as int);
}

/// A supported alignment divides every block address.
proof fn lemma_block_addr_aligned(id: int, align: usize)
    requires
        0 <= id,
        1 <= align,
        GRANULE % align == 0,
    ensures
        block_addr(id) % (align as int) == 0,
{
    let g = GRANULE as int;
    let a = align as int;
    lemma_fundamental_div_mod(g, a);
    assert(g == (g / a) * a);
    assert((id + 2) * g == ((id + 2) * (g / a)) * a) by (nonlinear_arith)
        requires g == (g / a) * a;
    lemma_mod_multiples_basic((id + 2) * (g / a), a);
}

/// A supported alignment is at most the granule.
proof fn lemma_align_le_granule(align: usize)
    requires
        1 <= align,
        GRANULE % align == 0,
    ensures
        align <= GRANULE,
{
    if align > GRANULE {
        lemma_small_mod(GRANULE as nat, align as nat);
    }
}

/// Changing only the arena entry that owns `ptr` leaves every other address's
/// liveness and contents alone.
proof fn lemma_frame_same_len(pre: ShimHeap, post: ShimHeap, ptr: usize)
    requires
        pre.live_at(ptr),
        post.blocks@.len() == pre.blocks@.len(),
        forall|j: int|
            0 <= j < pre.blocks@.len() && j != id_of(ptr as int)
                ==> post.blocks@[j] == pre.blocks@[j],
    ensures
        forall|a: usize| a != ptr ==> #[trigger] post.live_at(a) == pre.live_at(a),
        forall|a: usize|
            a != ptr && pre.live_at(a) ==> #[trigger] post.model_at(a) == pre.model_at(a),
{
    assert forall|a: usize| a != ptr implies #[trigger] post.live_at(a) == pre.live_at(a) by {
        if id_of(a as int) == id_of(ptr as int) {
            if pre.live_at(a) || post.live_at(a) {
                assert(a as int == block_addr(id_of(ptr as int)));
                assert(ptr as int == block_addr(id_of(ptr as int)));
            }
        }
    }
    assert forall|a: usize| a != ptr && pre.live_at(a) implies #[trigger] post.model_at(a)
        == pre.model_at(a) by {
        if id_of(a as int) == id_of(ptr as int) {
            assert(a as int == block_addr(id_of(ptr as int)));
            assert(ptr as int == block_addr(id_of(ptr as int)));
        }
    }
}

/// Appending one arena entry adds at most the one fresh address and leaves
/// every other address's liveness and contents alone.
proof fn lemma_frame_push(pre: ShimHeap, post: ShimHeap, p: usize)
    requires
        post.blocks@.len() == pre.blocks@.len() + 1,
        forall|j: int| 0 <= j < pre.blocks@.len() ==> post.blocks@[j] == pre.blocks@[j],
        p as int == block_addr(pre.blocks@.len() as int),
    ensures
        !pre.live_at(p),
        forall|a: usize| a != p ==> #[trigger] post.live_at(a) == pre.live_at(a),
        forall|a: usize|
            a != p && pre.live_at(a) ==> #[trigger] post.model_at(a) == pre.model_at(a),
{
    let n = pre.blocks@.len() as int;
    lemma_block_addr_props(n);
    assert(!pre.live_at(p));
    assert forall|a: usize| a != p implies #[trigger] post.live_at(a) == pre.live_at(a) by {
        if id_of(a as int) == n {
            if pre.live_at(a) || post.live_at(a) {
                assert(a as int == block_addr(n));
            }
        }
    }
    assert forall|a: usize| a != p && pre.live_at(a) implies #[trigger] post.model_at(a)
        == pre.model_at(a) by {}
}

impl ShimHeap {
    spec fn live_at(&self, a: usize) -> bool {
        let id = id_of(a as int);
        &&& 0 <= id < self.blocks@.len()
        &&& self.blocks@[id] is Some
        &&& a as int == block_addr(id)
    }

    spec fn model_at(&self, a: usize) -> BlockModel {
        let b = self.blocks@[id_of(a as int)].unwrap();
        BlockModel { align: b.align, data: b.data@ }
    }

    /// How many arena ids have been retired or are live; fresh allocation
    /// fails exactly when this reaches [`MAX_BLOCKS`].
    pub closed spec fn used(&self) -> nat {
        self.blocks@.len()
    }

    /// An empty heap.
    pub fn new() -> (h: ShimHeap)
        ensures
            h@ == Map::<usize, BlockModel>::empty(),
            h.used() == 0,
    {
        let h = ShimHeap { blocks: Vec::new() };
        proof {
            assert forall|a: usize| !h.live_at(a) by {}
            assert(h@ =~= Map::<usize, BlockModel>::empty());
        }
        h
    }

    /// The allocator shim's entry point, with the calling convention's
    /// signature over the model heap.
    ///
    /// With no old block and no requested bytes it returns the alignment
    /// itself: a non-null sentinel that is never a live address. With no old
    /// block and a nonzero request it allocates a fresh zeroed block. With an
    /// old block it resizes that block in place, keeping its bytes up to the
    /// smaller of the two lengths and zeroing any grown tail; shrinking a
    /// block to zero bytes is a caller contract violation and is excluded.
    /// Only a fresh allocation can fail, and only when the arena is
    /// exhausted; the error names the requested size and alignment.
    pub fn cabi_realloc(
        &mut self,
        old_ptr: usize,
        old_len: usize,
        align: usize,
        new_len: usize,
    ) -> (r: Result<usize, AllocError>)
        requires
            1 <= align,
            GRANULE % align == 0,
            old_len > 0 ==> new_len > 0,
            old_len > 0 ==> old(self)@.dom().contains(old_ptr)
                && old(self)@[old_ptr].data.len() == old_len
                && old(self)@[old_ptr].align == align,
        ensures
            r is Err <==> (old_len == 0 && new_len > 0 && old(self).used() >= MAX_BLOCKS),
            final(self).used() == if r is Ok && old_len == 0 && new_len > 0 {
                old(self).used() + 1
            } else {
                old(self).used()
            },
            match r {
                Ok(p) => {
                    &&& (old_len == 0 && new_len == 0 ==> p == align && final(self)@ == old(self)@
                        && !final(self)@.dom().contains(p))
                    &&& (old_len == 0 && new_len > 0 ==> {
                        &&& p != 0
                        &&& p % align == 0
                        &&& !old(self)@.dom().contains(p)
                        &&& final(self)@ == old(self)@.insert(
                            p,
                            BlockModel { align, data: Seq::new(new_len as nat, |i: int| 0u8) },
                        )
                    })
                    &&& (old_len > 0 ==> {
                        &&& p == old_ptr
                        &&& final(self)@ == old(self)@.insert(
                            p,
                            BlockModel { align, data: resized(old(self)@[p].data, new_len as nat) },
                        )
                    })
                },
                Err(e) => e.size == new_len && e.align == align && final(self)@ == old(self)@,
            },
    {
        if old_len == 0 {
            if new_len == 0 {
                proof {
                    lemma_align_le_granule(align);
                    if self.live_at(align) {
                        lemma_block_addr_props(id_of(align as int));
                    }
                }
                Ok(align)
            } else {
                self.alloc_fresh(align, new_len)
            }
        } else {
            Ok(self.resize_in_place(old_ptr, new_len))
        }
    }

    /// Releases a block. A zero size is a no-op, mirroring the shim's
    /// zero-length sentinel; otherwise the pointer, size and alignment must be
    /// the ones the block was allocated with, and the block leaves the heap.
    pub fn dealloc(&mut self, ptr: usize, size: usize, align: usize)
        requires
            size > 0 ==> old(self)@.dom().contains(ptr)
                && old(self)@[ptr].data.len() == size
                && old(self)@[ptr].align == align,
        ensures
            size == 0 ==> final(self)@ == old(self)@,
            size > 0 ==> final(self)@ == old(self)@.remove(ptr),
            final(self).used() == old(self).used(),
    {
        if size == 0 {
            return ;
        }
        proof {
            assert(old(self).live_at(ptr));
        }
        let id = ptr / GRANULE - 2;
        self.blocks[id] = None;
        proof {
            let ghost pre = *old(self);
            lemma_frame_same_len(pre, *self, ptr);
            assert(!self.live_at(ptr));
            assert(self@ =~= pre@.remove(ptr));
        }
    }

    /// Reads one byte of a live block.
    pub fn read_byte(&self, ptr: usize, offset: usize) -> (b: u8)
        requires
            self@.dom().contains(ptr),
            offset < self@[ptr].data.len(),
        ensures
            b == self@[ptr].data[offset as int],
    {
        proof {
            assert(self.live_at(ptr));
        }
        let id = ptr / GRANULE - 2;
        match &self.blocks[id] {
            Some(blk) => blk.data[offset],
            None => vstd::pervasive::unreached(),
        }
    }

    /// Writes one byte of a live block.
    pub fn write_byte(&mut self, ptr: usize, offset: usize, value: u8)
        requires
            old(self)@.dom().contains(ptr),
            offset < old(self)@[ptr].data.len(),
        ensures
            final(self)@ == old(self)@.insert(
                ptr,
                BlockModel {
                    align: old(self)@[ptr].align,
                    data: old(self)@[ptr].data.update(offset as int, value),
                },
            ),
            final(self).used() == old(self).used(),
    {
        proof {
            assert(old(self).live_at(ptr));
        }
        let id = ptr / GRANULE - 2;
        let slot = &mut self.blocks[id];
        match slot {
            Some(blk) => {
                blk.data[offset] = value;
            },
            None => {
                proof {
                    assert(false);
                }
            },
        }
        proof {
            let ghost pre = *old(self);
            lemma_frame_same_len(pre, *self, ptr);
            assert(self.live_at(ptr));
            assert(self@ =~= pre@.insert(
                ptr,
                BlockModel {
                    align: pre@[ptr].align,
                    data: pre@[ptr].data.update(offset as int, value),
                },
            ));
        }
    }

    fn alloc_fresh(&mut self, align: usize, new_len: usize) -> (r: Result<usize, AllocError>)
        requires
            1 <= align,
            GRANULE % align == 0,
            new_len > 0,
        ensures
            r is Err <==> old(self).used() >= MAX_BLOCKS,
            final(self).used() == if r is Ok {
                old(self).used() + 1
            } else {
                old(self).used()
            },
            match r {
                Ok(p) => {
                    &&& p != 0
                    &&& p % align == 0
                    &&& !old(self)@.dom().contains(p)
                    &&& final(self)@ == old(self)@.insert(
                        p,
                        BlockModel { align, data: Seq::new(new_len as nat, |i: int| 0u8) },
                    )
                },
                Err(e) => e.size == new_len && e.align == align && final(self)@ == old(self)@,
            },
    {
        if self.blocks.len() >= MAX_BLOCKS {
            return Err(AllocError { size: new_len, align });
        }
        let id = self.blocks.len();
        let p = (id + 2) * GRANULE;
        let data = zero_vec(new_len);
        self.blocks.push(Some(Block { align, data }));
        proof {
            let ghost pre = *old(self);
            lemma_block_addr_props(id as int);
            lemma_block_addr_aligned(id as int, align);
            assert(p as int == block_addr(id as int));
            lemma_frame_push(pre, *self, p);
            assert(self.live_at(p));
            assert(self@ =~= pre@.insert(
                p,
                BlockModel { align, data: Seq::new(new_len as nat, |i: int| 0u8) },
            ));
        }
        Ok(p)
    }

    fn resize_in_place(&mut self, ptr: usize, new_len: usize) -> (p: usize)
        requires
            new_len > 0,
            old(self)@.dom().contains(ptr),
        ensures
            p == ptr,
            final(self)@ == old(self)@.insert(
                ptr,
                BlockModel {
                    align: old(self)@[ptr].align,
                    data: resized(old(self)@[ptr].data, new_len as nat),
                },
            ),
            final(self).used() == old(self).used(),
    {
        proof {
            assert(old(self).live_at(ptr));
        }
        let ghost odata = old(self)@[ptr].data;
        let id = ptr / GRANULE - 2;
        let slot = &mut self.blocks[id];
        let entry = slot.take();
        match entry {
            Some(mut blk) => {
                let ghost oalign = blk.align;
                if new_len <= blk.data.len() {
                    blk.data.truncate(new_len);
                } else {
                    proof {
                        assert(blk.data@ =~= resized(odata, blk.data@.len() as nat));
                    }
                    while blk.data.len() < new_len
                        invariant
                            blk.align == oalign,
                            odata.len() <= blk.data@.len() <= new_len,
                            blk.data@ == resized(odata, blk.data@.len() as nat),
                        decreases new_len - blk.data@.len(),
                    {
                        blk.data.push(0u8);
                        proof {
                            assert(blk.data@ =~= resized(odata, blk.data@.len() as nat));
                        }
                    }
                }
                proof {
                    assert(blk.data@ =~= resized(odata, new_len as nat));
                    assert(blk.align == old(self).blocks@[id as int].unwrap().align);
                }
                self.blocks[id] = Some(blk);
            },
            None => {
                proof {
                    assert(false);
                }
            },
        }
        proof {
            let ghost pre = *old(self);
            lemma_frame_same_len(pre, *self, ptr);
            assert(self.live_at(ptr));
            assert(self.model_at(ptr) == (BlockModel {
                align: pre@[ptr].align,
                data: resized(pre@[ptr].data, new_len as nat),
            }));
            assert(self@ =~= pre@.insert(
                ptr,
                BlockModel {
                    align: pre@[ptr].align,
                    data: resized(pre@[ptr].data, new_len as nat),
                },
            ));
        }
        ptr
    }
}

impl View for ShimHeap {
    type V = Map<usize, BlockModel>;

    closed spec fn view(&self) -> Map<usize, BlockModel> {
        Map::new(|a: usize| self.live_at(a), |a: usize| self.model_at(a))
    }
}

fn zero_vec(n: usize) -> (v: Vec<u8>)
    ensures
        v@ == Seq::new(n as nat, |i: int| 0u8),
{
    let mut v: Vec<u8> = Vec::new();
    while v.len() < n
        invariant
            v@.len() <= n,
            v@ == Seq::new(v@.len(), |i: int| 0u8),
        decreases n - v@.len(),
    {
        v.push(0u8);
        proof {
            assert(v@ =~= Seq::new(v@.len(), |i: int| 0u8));
        }
    }
    proof {
        assert(v@ =~= Seq::new(n as nat, |i: int| 0u8));
    }
    v
}

} // verus!
