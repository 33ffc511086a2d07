//! The physical frame allocator: a bitmap with one bit per 4 KiB frame of the
//! first 16 GiB of host memory. A set bit marks a free frame.
use vstd::prelude::*;

use crate::bits::{bit64, lemma_bit64_update, lemma_bit64_zero};

verus! {

/// Size of a physical frame in bytes.
pub const PAGE_SIZE: usize = 4096;

/// Number of frames described by one word of the bitmap.
pub const BITS_PER_ENTRY: usize = 64;

/// Highest physical address (exclusive) that the allocator manages.
pub const MAX_MEMORY: u64 = 0x4_0000_0000;

/// Number of frames the bitmap describes.
pub const FRAME_COUNT: usize = 0x40_0000;

/// Number of words of the bitmap.
pub const ENTRY_COUNT: usize = 0x1_0000;

/// Bytes of memory that the bitmap itself occupies.
pub const BITMAP_SIZE: usize = 0x8_0000;

/// A usable range of physical memory, `start` inclusive and `end` exclusive.
#[derive(Clone, Copy, Debug)]
pub struct Range {
    pub start: u64,
    pub end: u64,
}

/// The usable ranges of physical memory reported by the firmware.
pub struct UsableMemory {
    pub ranges: Vec<Range>,
}

impl UsableMemory {
    /// The ranges, in the order the firmware reported them.
    pub fn ranges(&self) -> (r: &Vec<Range>)
        ensures
            r@ == self.ranges@,
    {
        &self.ranges
    }
}

/// A range that the allocator can describe.
pub open spec fn range_ok(r: Range) -> bool {
    r.start <= r.end && r.end / 4096 <= FRAME_COUNT
}

/// The frames that `set_range` marks free for `r`: as many whole frames as
/// the range is long, starting at the frame that holds `r.start`.
pub open spec fn in_range_pages(r: Range, f: int) -> bool {
    let first = r.start as int / PAGE_SIZE as int;
    first <= f < first + (r.end - r.start) / PAGE_SIZE as int
}

/// Whether frame `f` lies in one of the first `k` ranges.
pub open spec fn in_some_range(ranges: Seq<Range>, k: int, f: int) -> bool
    decreases k,
{
    if k <= 0 {
        false
    } else {
        in_some_range(ranges, k - 1, f) || in_range_pages(ranges[k - 1], f)
    }
}

/// Whether frame `f` lies in one of the usable ranges.
pub open spec fn in_usable(ranges: Seq<Range>, f: int) -> bool {
    in_some_range(ranges, ranges.len() as int, f)
}

/// The largest end address among the first `k` ranges (0 for none).
pub open spec fn max_end(ranges: Seq<Range>, k: int) -> u64
    decreases k,
{
    if k <= 0 {
        0
    } else {
        let m = max_end(ranges, k - 1);
        if ranges[k - 1].end > m {
            ranges[k - 1].end
        } else {
            m
        }
    }
}

/// Where the bitmap is placed: the highest page-aligned address below the
/// end of the highest usable range that leaves room for it.
pub open spec fn bitmap_location(ranges: Seq<Range>) -> u64 {
    let m = max_end(ranges, ranges.len() as int);
    if m >= BITMAP_SIZE {
        ((m - BITMAP_SIZE) as u64 / 4096 * 4096) as u64
    } else {
        0
    }
}

/// Whether frame `f` holds part of a bitmap stored at `bitmap_addr`.
pub open spec fn in_bitmap(bitmap_addr: u64, f: int) -> bool {
    let first = bitmap_addr as int / PAGE_SIZE as int;
    first <= f < first + BITMAP_SIZE as int / PAGE_SIZE as int
}

/// The largest end address lies in a frame no higher than `FRAME_COUNT`.
proof fn lemma_max_end_bound(ranges: Seq<Range>, k: int)
    requires
        k <= ranges.len(),
        forall|i: int| 0 <= i < ranges.len() ==> range_ok(#[trigger] ranges[i]),
    ensures
        max_end(ranges, k) / 4096 <= FRAME_COUNT,
    decreases k,
{
    if k > 0 {
        lemma_max_end_bound(ranges, k - 1);
    }
}

/// What one call of `allocate_frame` does: it takes the lowest free frame,
/// which lies below `end`, marks it in use and returns its address, or
/// returns `None` and changes nothing when no frame below `end` is free. The
/// hints and the bitmap's place do not change.
pub open spec fn allocation_step(pre: BitmapMemoryTable, post: BitmapMemoryTable, r: Option<u64>) -> bool {
    match r {
        Some(a) => {
            &&& a % 4096 == 0
            &&& pre.available(a as int / 4096)
            &&& post.end == pre.end
            &&& post.bitmap_addr == pre.bitmap_addr
            &&& forall|g: int| 0 <= g < a as int / 4096 ==> !#[trigger] pre.is_free(g)
            &&& forall|f: int|
                #![trigger post.is_free(f)]
                post.is_free(f) == (f != a as int / 4096 && pre.is_free(f))
        },
        None => {
            &&& forall|g: int| !#[trigger] pre.available(g)
            &&& post == pre
        },
    }
}

/// Over any run of allocations, the frames still free were free at the
/// start, and each frame handed out was free at the start and is in use now.
proof fn lemma_allocation_run(tables: Seq<BitmapMemoryTable>, results: Seq<Option<u64>>, k: int)
    requires
        tables.len() == results.len() + 1,
        0 <= k < tables.len(),
        forall|i: int| 0 <= i < results.len() ==> allocation_step(#[trigger] tables[i], tables[i + 1], results[i]),
    ensures
        forall|f: int| #[trigger] tables[k].is_free(f) ==> tables[0].is_free(f),
        forall|i: int|
            0 <= i < k && (#[trigger] results[i]).is_some() ==> {
                let f = results[i].unwrap() as int / 4096;
                &&& !tables[k].is_free(f)
                &&& tables[0].is_free(f)
                &&& results[i].unwrap() % 4096 == 0
            },
    decreases k,
{
    if k > 0 {
        lemma_allocation_run(tables, results, k - 1);
        assert(allocation_step(tables[k - 1], tables[k], results[k - 1]));
    }
}

/// No run of allocations hands out a frame twice, and every address handed
/// out is 4 KiB aligned and lies in a frame that was free when the run
/// began; when every free frame then lay in a usable range (as `init`
/// ensures), so does every frame handed out.
pub proof fn lemma_allocations_unique(
    ranges: Seq<Range>,
    tables: Seq<BitmapMemoryTable>,
    results: Seq<Option<u64>>,
)
    requires
        tables.len() == results.len() + 1,
        forall|i: int| 0 <= i < results.len() ==> allocation_step(#[trigger] tables[i], tables[i + 1], results[i]),
        forall|f: int| #[trigger] tables[0].is_free(f) ==> in_usable(ranges, f),
    ensures
        forall|i: int, j: int|
            0 <= i < j < results.len() && (#[trigger] results[i]).is_some() && (#[trigger] results[j]).is_some()
                ==> results[i] != results[j],
        forall|i: int|
            0 <= i < results.len() && (#[trigger] results[i]).is_some() ==> {
                &&& results[i].unwrap() % 4096 == 0
                &&& in_usable(ranges, results[i].unwrap() as int / 4096)
            },
{
    assert forall|i: int, j: int|
        0 <= i < j < results.len() && (#[trigger] results[i]).is_some() && (#[trigger] results[j]).is_some()
            implies results[i] != results[j] by {
        lemma_allocation_run(tables, results, j);
        assert(allocation_step(tables[j], tables[j + 1], results[j]));
    }
    assert forall|i: int| 0 <= i < results.len() && (#[trigger] results[i]).is_some() implies {
        &&& results[i].unwrap() % 4096 == 0
        &&& in_usable(ranges, results[i].unwrap() as int / 4096)
    } by {
        lemma_allocation_run(tables, results, i);
        assert(allocation_step(tables[i], tables[i + 1], results[i]));
    }
}

/// What `set_range` does: the frames of `r` become free, and no other
/// frame changes.
pub open spec fn range_freed(pre: BitmapMemoryTable, post: BitmapMemoryTable, r: Range) -> bool {
    forall|f: int| #![trigger post.is_free(f)] post.is_free(f) == (pre.is_free(f) || in_range_pages(r, f))
}

/// Marking a range free and then reading back its bits finds every page of
/// the range free, and no bit outside it newly set; after `init`, the free
/// frames are exactly the usable pages but the bitmap's own.
pub proof fn lemma_bitmap_round_trip(
    pre: BitmapMemoryTable,
    post: BitmapMemoryTable,
    r: Range,
    ranges: Seq<Range>,
    fresh: BitmapMemoryTable,
)
    requires
        range_freed(pre, post, r),
        forall|f: int|
            #![trigger fresh.is_free(f)]
            fresh.is_free(f) == (in_usable(ranges, f) && !in_bitmap(fresh.bitmap_addr, f)),
    ensures
        forall|f: int| in_range_pages(r, f) && 0 <= f < FRAME_COUNT ==> #[trigger] post.is_free(f),
        forall|f: int| !in_range_pages(r, f) && !pre.is_free(f) ==> !#[trigger] post.is_free(f),
        forall|f: int| !in_usable(ranges, f) ==> !#[trigger] fresh.is_free(f),
        forall|f: int| in_bitmap(fresh.bitmap_addr, f) ==> !#[trigger] fresh.is_free(f),
{
    assert forall|f: int| in_range_pages(r, f) && 0 <= f < FRAME_COUNT implies #[trigger] post.is_free(f) by {
        assert(post.is_free(f) == (pre.is_free(f) || in_range_pages(r, f)));
    }
}

/// At least two frames below `end` are free.
pub open spec fn two_free(t: BitmapMemoryTable) -> bool {
    exists|f1: int, f2: int| f1 != f2 && #[trigger] t.available(f1) && #[trigger] t.available(f2)
}

/// Two allocations in a row succeed exactly when two frames were free.
pub proof fn lemma_two_allocations(t0: BitmapMemoryTable, t1: BitmapMemoryTable, t2: BitmapMemoryTable, r1: Option<u64>, r2: Option<u64>)
    requires
        allocation_step(t0, t1, r1),
        r1 is Some ==> allocation_step(t1, t2, r2),
    ensures
        (r1 is Some && r2 is Some) <==> two_free(t0),
        r1 is Some && r2 is Some ==> r1.unwrap() != r2.unwrap() && r2.unwrap() % 4096 == 0 && r2.unwrap() as int / 4096 < FRAME_COUNT,
{
    if r1 is Some && r2 is Some {
        let f1 = r1.unwrap() as int / 4096;
        let f2 = r2.unwrap() as int / 4096;
        assert(t0.available(f1) && t0.available(f2) && f1 != f2);
    } else if two_free(t0) {
        let (f1, f2) = choose|f1: int, f2: int| f1 != f2 && #[trigger] t0.available(f1) && #[trigger] t0.available(f2);
        if r1 is Some {
            let a = r1.unwrap() as int / 4096;
            if f1 != a {
                assert(t1.available(f1));
            } else {
                assert(t1.available(f2));
            }
        } else {
            assert(!t0.available(f1));
        }
    }
}

/// The bitmap lies inside the usable range that ends highest, when that
/// range starts on a page boundary and holds at least the bitmap's 512 KiB.
pub proof fn lemma_bitmap_in_highest_range(ranges: Seq<Range>, i: int)
    requires
        0 <= i < ranges.len(),
        ranges[i].end == max_end(ranges, ranges.len() as int),
        ranges[i].start % 4096 == 0,
        ranges[i].end - ranges[i].start >= BITMAP_SIZE,
    ensures
        ranges[i].start <= bitmap_location(ranges),
        bitmap_location(ranges) + BITMAP_SIZE <= ranges[i].end,
{
    let m = ranges[i].end as int;
    let x = m - BITMAP_SIZE;
    let st = ranges[i].start as int;
    assert(x / 4096 * 4096 <= x && st <= x / 4096 * 4096) by (nonlinear_arith)
        requires
            st % 4096 == 0,
            0 <= st <= x,
    ;
}

/// The frame allocator.
pub struct BitmapMemoryTable {
    /// One bit per frame; bit `f % 64` of word `f / 64` is set when frame
    /// `f` is free.
    pub used_map: Vec<u64>,
    /// No frame below `start` is free.
    pub start: usize,
    /// One past the highest frame free at initialisation; allocation looks
    /// no higher.
    pub end: usize,
    /// Physical address of the memory reserved for the bitmap.
    pub bitmap_addr: u64,
}

impl BitmapMemoryTable {
    /// Whether frame `f` is free.
    pub open spec fn is_free(&self, f: int) -> bool {
        0 <= f < FRAME_COUNT && bit64(self.used_map@[f / 64], (f % 64) as u64)
    }

    /// Frame `f` is free and below `end`, where allocation finds it.
    pub open spec fn available(&self, f: int) -> bool {
        self.is_free(f) && f < self.end
    }

    /// The bitmap has its full size, and no free frame lies below `start`.
    pub open spec fn wf(&self) -> bool {
        &&& self.used_map@.len() == ENTRY_COUNT
        &&& self.start <= FRAME_COUNT
        &&& self.end <= FRAME_COUNT
        &&& forall|f: int| #[trigger] self.is_free(f) ==> self.start <= f
    }

    /// Builds the allocator for the usable ranges: every frame inside a
    /// range is free, except the frames that hold the bitmap itself, which
    /// sit at the top of the highest range.
    pub fn init(usable_memory: &UsableMemory) -> (r: Self)
        requires
            forall|i: int| 0 <= i < usable_memory.ranges@.len() ==> range_ok(#[trigger] usable_memory.ranges@[i]),
        ensures
            r.wf(),
            r.bitmap_addr == bitmap_location(usable_memory.ranges@),
            forall|f: int|
                #![trigger r.is_free(f)]
                r.is_free(f) == (in_usable(usable_memory.ranges@, f) && !in_bitmap(r.bitmap_addr, f)),
            r.end == 0 || r.is_free(r.end - 1),
            forall|f: int| #[trigger] r.is_free(f) ==> f < r.end,
    {
        let ranges = usable_memory.ranges();
        let ghost rs = ranges@;
        let mut max_addr: u64 = 0;
        let mut k: usize = 0;
        while k < ranges.len()
            invariant
                k <= ranges@.len(),
                rs == ranges@,
                max_addr == max_end(rs, k as int),
            decreases ranges@.len() - k,
        {
            if ranges[k].end > max_addr {
                max_addr = ranges[k].end;
            }
            k = k + 1;
        }
        let bitmap_addr: u64 = if max_addr >= BITMAP_SIZE as u64 {
            (max_addr - BITMAP_SIZE as u64) / 4096 * 4096
        } else {
            0
        };
        let mut table = BitmapMemoryTable {
            used_map: vec![0u64; ENTRY_COUNT],
            start: 0,
            end: FRAME_COUNT,
            bitmap_addr,
        };
        assert forall|f: int| !#[trigger] table.is_free(f) by {
            if 0 <= f < FRAME_COUNT {
                lemma_bit64_zero((f % 64) as u64);
            }
        }
        let mut k: usize = 0;
        while k < ranges.len()
            invariant
                k <= ranges@.len(),
                rs == ranges@,
                forall|i: int| 0 <= i < rs.len() ==> range_ok(#[trigger] rs[i]),
                table.wf(),
                table.bitmap_addr == bitmap_addr,
                forall|f: int|
                    #![trigger table.is_free(f)]
                    table.is_free(f) == in_some_range(rs, k as int, f),
            decreases ranges@.len() - k,
        {
            table.set_range(&ranges[k]);
            k = k + 1;
        }
        let first = bitmap_addr / PAGE_SIZE as u64;
        assert(first + 128 <= FRAME_COUNT) by {
            lemma_max_end_bound(rs, rs.len() as int);
        }
        let mut i: u64 = 0;
        while i < 128
            invariant
                i <= 128,
                first == bitmap_addr / 4096,
                first + 128 <= FRAME_COUNT,
                table.wf(),
                table.bitmap_addr == bitmap_addr,
                forall|f: int|
                    #![trigger table.is_free(f)]
                    table.is_free(f) == (in_usable(rs, f) && !(first <= f < first + i)),
            decreases 128 - i,
        {
            table.set_frame((first + i) as usize, false);
            i = i + 1;
        }
        let end = table.free_end();
        let ghost before = table;
        table.end = end;
        assert forall|f: int| #[trigger] table.is_free(f) == before.is_free(f) by {}
        assert forall|f: int| #[trigger] table.is_free(f) implies table.start <= f && f < table.end by {
            assert(before.is_free(f) ==> f < end);
        }
        table
    }

    /// One past the highest free frame, or 0 when no frame is free.
    fn free_end(&self) -> (r: usize)
        requires
            self.wf(),
        ensures
            r <= FRAME_COUNT,
            r == 0 || self.is_free(r - 1),
            forall|f: int| r <= f ==> !#[trigger] self.is_free(f),
    {
        let mut f = FRAME_COUNT;
        while f > 0
            invariant
                f <= FRAME_COUNT,
                self.wf(),
                forall|g: int| f <= g ==> !#[trigger] self.is_free(g),
            decreases f,
        {
            if self.get_bit(f - 1) {
                return f;
            }
            f = f - 1;
        }
        0
    }

    /// The frame that holds physical address `addr`.
    pub fn addr_to_pfn(addr: usize) -> (r: usize)
        ensures
            r == addr / PAGE_SIZE,
    {
        addr / PAGE_SIZE
    }

    /// The physical address at which frame `frame` starts.
    pub fn pfn_to_addr(frame: usize) -> (r: usize)
        requires
            frame * PAGE_SIZE <= usize::MAX,
        ensures
            r == frame * PAGE_SIZE,
    {
        frame * PAGE_SIZE
    }

    /// The bitmap word that describes `frame`.
    pub fn frame_to_index(frame: usize) -> (r: usize)
        ensures
            r == frame / BITS_PER_ENTRY,
    {
        frame / BITS_PER_ENTRY
    }

    /// The bit within its word that describes `frame`.
    pub fn frame_to_offset(frame: usize) -> (r: usize)
        ensures
            r == frame % BITS_PER_ENTRY,
            r < 64,
    {
        frame % BITS_PER_ENTRY
    }

    /// Whether `frame` is free.
    pub fn get_bit(&self, frame: usize) -> (r: bool)
        requires
            self.used_map@.len() == ENTRY_COUNT,
            frame < FRAME_COUNT,
        ensures
            r == self.is_free(frame as int),
    {
        let index = Self::frame_to_index(frame);
        let offset = Self::frame_to_offset(frame);
        (self.used_map[index] & (1u64 << offset as u64)) != 0
    }

    /// Marks `frame` free (`state`) or in use (`!state`). Freeing lowers the
    /// `start` hint to the frame; taking the frame at `start` moves `start`
    /// past it. `end`, fixed at initialisation, stays.
    pub fn set_frame(&mut self, frame: usize, state: bool)
        requires
            old(self).wf(),
            frame < FRAME_COUNT,
        ensures
            final(self).wf(),
            final(self).bitmap_addr == old(self).bitmap_addr,
            state ==> final(self).start == (if frame < old(self).start { frame } else { old(self).start }),
            !state ==> final(self).start == (if old(self).start == frame { (frame + 1) as usize } else { old(self).start }),
            final(self).end == old(self).end,
            forall|f: int|
                #![trigger final(self).is_free(f)]
                final(self).is_free(f) == if f == frame {
                    state
                } else {
                    old(self).is_free(f)
                },
    {
        let index = Self::frame_to_index(frame);
        let offset = Self::frame_to_offset(frame);
        let word = self.used_map[index];
        let ghost pre = *self;
        if state {
            self.used_map.set(index, word | (1u64 << offset as u64));
            if frame < self.start {
                self.start = frame;
            }
        } else {
            self.used_map.set(index, word & !(1u64 << offset as u64));
            if self.start == frame {
                self.start = self.start + 1;
            }
        }
        assert forall|f: int| #![trigger self.is_free(f)]
            self.is_free(f) == if f == frame {
                state
            } else {
                pre.is_free(f)
            } by {
            if 0 <= f < FRAME_COUNT {
                if f / 64 == index as int {
                    lemma_bit64_update(word, offset as u64, (f % 64) as u64);
                    assert((f % 64 == offset as int) == (f == frame as int));
                }
            }
        }
    }

    /// Marks every frame of `range` free, lowering the `start` hint to cover
    /// them; `end` stays.
    pub fn set_range(&mut self, range: &Range)
        requires
            old(self).wf(),
            range_ok(*range),
        ensures
            final(self).wf(),
            final(self).bitmap_addr == old(self).bitmap_addr,
            ({
                let first = range.start / 4096;
                let n = (range.end - range.start) / 4096;
                &&& final(self).start == if n > 0 && first < old(self).start {
                    first as usize
                } else {
                    old(self).start
                }
                &&& final(self).end == old(self).end
            }),
            range_freed(*old(self), *final(self), *range),
    {
        let start = (range.start / PAGE_SIZE as u64) as usize;
        let size = (range.end - range.start) / PAGE_SIZE as u64;
        let ghost pre = *self;
        let mut i: u64 = 0;
        while i < size
            invariant
                self.wf(),
                self.bitmap_addr == pre.bitmap_addr,
                i <= size,
                start == range.start / 4096,
                size == (range.end - range.start) / 4096,
                range_ok(*range),
                forall|f: int|
                    #![trigger self.is_free(f)]
                    self.is_free(f) == (pre.is_free(f) || (start <= f < start + i)),
                self.start == if i > 0 && start < pre.start {
                    start
                } else {
                    pre.start
                },
                self.end == pre.end,
            decreases size - i,
        {
            assert(start + i < FRAME_COUNT);
            self.set_frame(start + i as usize, true);
            i = i + 1;
        }
    }

    /// The lowest free frame, if there is one below `end`.
    pub fn get_free_pfn(&self) -> (r: Option<usize>)
        requires
            self.wf(),
        ensures
            match r {
                Some(f) => self.available(f as int) && forall|g: int| 0 <= g < f ==> !#[trigger] self.is_free(g),
                None => forall|g: int| !#[trigger] self.available(g),
            },
    {
        let mut i = self.start;
        while i < self.end
            invariant
                self.wf(),
                self.start <= i,
                forall|g: int| 0 <= g < i ==> !#[trigger] self.is_free(g),
            decreases self.end - i,
        {
            if self.get_bit(i) {
                return Some(i);
            }
            i = i + 1;
        }
        None
    }

    /// Takes the lowest free frame and returns its physical address, or
    /// `None` when no frame below `end` is free.
    pub fn allocate_frame(&mut self) -> (r: Option<u64>)
        requires
            old(self).wf(),
        ensures
            final(self).wf(),
            final(self).bitmap_addr == old(self).bitmap_addr,
            allocation_step(*old(self), *final(self), r),
    {
        match self.get_free_pfn() {
            Some(frame) => {
                self.set_frame(frame, false);
                let addr = frame as u64 * PAGE_SIZE as u64;
                assert(addr / 4096 == frame);
                Some(addr)
            },
            None => None,
        }
    }
}

} // verus!
