//! A bump allocator: owns a contiguous byte range and serves allocation
//! requests by advancing a single cursor; individual deallocations are only
//! counted, and the whole region is reclaimed at once when the count of
//! outstanding allocations returns to zero.

use vstd::prelude::*;

verus! {

/// The address `addr` rounded up to the next multiple of `align`.
pub open spec fn spec_align_up(addr: int, align: int) -> int
    recommends
        align > 0,
{
    if addr % align == 0 {
        addr
    } else {
        addr + (align - addr % align)
    }
}

/// Rounding up to an alignment stays within one alignment unit of the
/// original address and lands on a multiple of the alignment.
pub proof fn lemma_align_up_properties(addr: int, align: int)
    by (nonlinear_arith)
    requires
        0 <= addr,
        0 < align,
    ensures
        addr <= spec_align_up(addr, align) < addr + align,
        spec_align_up(addr, align) % align == 0,
{
}

/// A heap region with a monotonically advancing cursor.
///
/// `heap_start ..= heap_end` bound the region; `next` is the cursor from
/// which the next allocation is carved; `allocations` counts the
/// allocations handed out and not yet returned.
pub struct BumpAllocator {
    pub heap_start: usize,
    pub heap_end: usize,
    pub next: usize,
    pub allocations: usize,
}

impl BumpAllocator {
    /// The cursor always stays inside the heap region.
    pub open spec fn wf(self) -> bool {
        self.heap_start <= self.next <= self.heap_end
    }

    /// The state `init` establishes for a region of `heap_size` bytes at
    /// `heap_start`.
    pub open spec fn spec_fresh(heap_start: usize, heap_size: usize) -> BumpAllocator {
        BumpAllocator {
            heap_start,
            heap_end: (heap_start + heap_size) as usize,
            next: heap_start,
            allocations: 0,
        }
    }

    /// Where the next allocation with the given alignment would start.
    pub open spec fn spec_alloc_start(self, align: int) -> int {
        spec_align_up(self.next as int, align)
    }

    /// Whether a request of `size` bytes at alignment `align` fits in the
    /// remaining part of the region.
    pub open spec fn spec_alloc_fits(self, size: int, align: int) -> bool {
        self.spec_alloc_start(align) + size <= self.heap_end
    }

    /// Creates a new, empty bump allocator that owns no memory yet.
    pub fn new() -> (r: BumpAllocator)
        ensures
            r == (BumpAllocator { heap_start: 0, heap_end: 0, next: 0, allocations: 0 }),
            r.wf(),
    {
        BumpAllocator { heap_start: 0, heap_end: 0, next: 0, allocations: 0 }
    }

    /// Initializes the allocator with the given heap bounds.
    ///
    /// The caller guarantees that `[heap_start, heap_start + heap_size)` is
    /// otherwise unused and that this is called at most once, before any
    /// allocation.
    pub fn init(&mut self, heap_start: usize, heap_size: usize)
        requires
            old(self).allocations == 0,
            heap_start + heap_size <= usize::MAX,
        ensures
            *final(self) == BumpAllocator::spec_fresh(heap_start, heap_size),
            final(self).wf(),
    {
        self.heap_start = heap_start;
        self.heap_end = heap_start + heap_size;
        self.next = heap_start;
    }

    /// Serves one allocation request: rounds the cursor up to `align`,
    /// fails if the rounded start plus `size` would leave the region, and
    /// otherwise advances the cursor past the new allocation.
    ///
    /// Returns the start address of the allocation, or `None` when the
    /// region is exhausted (the out-of-memory case).
    pub fn allocate(&mut self, size: usize, align: usize) -> (r: Option<usize>)
        requires
            old(self).wf(),
            align > 0,
            old(self).allocations < usize::MAX,
        ensures
            final(self).wf(),
            final(self).heap_start == old(self).heap_start,
            final(self).heap_end == old(self).heap_end,
            r is Some <==> old(self).spec_alloc_fits(size as int, align as int),
            r is Some ==> {
                &&& r == Some(old(self).spec_alloc_start(align as int) as usize)
                &&& r.unwrap() as int % align as int == 0
                &&& old(self).next <= r.unwrap()
                &&& final(self).next == old(self).spec_alloc_start(align as int) + size
                &&& final(self).allocations == old(self).allocations + 1
            },
            r is None ==> *final(self) == *old(self),
            final(self).next >= old(self).next,
    {
        proof {
            lemma_align_up_properties(self.next as int, align as int);
        }
        let rem = self.next % align;
        let pad = if rem == 0 {
            0usize
        } else {
            align - rem
        };
        if pad > usize::MAX - self.next {
            return None;
        }
        let alloc_start = self.next + pad;
        if size > usize::MAX - alloc_start {
            return None;
        }
        let alloc_end = alloc_start + size;
        if alloc_end > self.heap_end {
            None
        } else {
            self.next = alloc_end;
            self.allocations = self.allocations + 1;
            Some(alloc_start)
        }
    }

    /// Records the return of one allocation. When the last outstanding
    /// allocation is returned, the cursor is reset to the start of the
    /// region, reclaiming it in one step.
    ///
    /// The address and layout of the returned allocation are not inspected;
    /// the allocator only counts. Returning more allocations than were
    /// handed out is a caller error, excluded by precondition.
    pub fn deallocate(&mut self, _addr: usize, _size: usize, _align: usize)
        requires
            old(self).wf(),
            old(self).allocations >= 1,
        ensures
            final(self).wf(),
            final(self).heap_start == old(self).heap_start,
            final(self).heap_end == old(self).heap_end,
            final(self).allocations == old(self).allocations - 1,
            old(self).allocations == 1 ==> final(self).next == final(self).heap_start,
            old(self).allocations > 1 ==> final(self).next == old(self).next,
    {
        self.allocations = self.allocations - 1;
        if self.allocations == 0 {
            self.next = self.heap_start;
        }
    }
}

/// Alignment: every address the allocator hands out is a multiple of the
/// requested alignment. (The corresponding fact about the executable
/// `alloc` is part of its postcondition.)
pub proof fn lemma_alloc_aligned(b: BumpAllocator, align: int)
    requires
        b.wf(),
        align > 0,
    ensures
        b.spec_alloc_start(align) % align == 0,
{
    lemma_align_up_properties(b.next as int, align);
}

/// Bump monotonicity: a region already served lies entirely below the
/// cursor, so the next allocation starts at or after its end; with a
/// non-empty earlier region the start addresses are strictly increasing,
/// and the two regions never overlap.
pub proof fn lemma_regions_disjoint(b: BumpAllocator, a1: int, s1: int, align: int)
    requires
        b.wf(),
        align > 0,
        0 <= a1,
        0 <= s1,
        a1 + s1 <= b.next,
    ensures
        a1 + s1 <= b.spec_alloc_start(align),
        s1 > 0 ==> a1 < b.spec_alloc_start(align),
{
    lemma_align_up_properties(b.next as int, align);
}

/// Bulk reclaim round-trip: once every outstanding allocation has been
/// returned, the allocator is in exactly the state `init` would produce on
/// the same region, so any subsequent allocation sequence behaves as on a
/// freshly initialized heap.
pub proof fn lemma_reset_equals_fresh(b: BumpAllocator)
    requires
        b.wf(),
        b.allocations == 0,
        b.next == b.heap_start,
    ensures
        b == BumpAllocator::spec_fresh(b.heap_start, (b.heap_end - b.heap_start) as usize),
{
}

/// Out-of-memory boundary: a request whose aligned start plus size passes
/// the end of the region never fits, and one that stays within the region
/// always fits. (Together with the postcondition of `alloc`, which
/// succeeds exactly when the request fits.)
pub proof fn lemma_oom_boundary(b: BumpAllocator, size: int, align: int)
    requires
        b.wf(),
        align > 0,
    ensures
        b.spec_alloc_start(align) + size > b.heap_end ==> !b.spec_alloc_fits(size, align),
        b.spec_alloc_start(align) + size <= b.heap_end ==> b.spec_alloc_fits(size, align),
{
}

} // verus!
