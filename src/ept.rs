//! Extended page tables: the guest-physical to host-physical translation of
//! the Intel back-end, four levels of 512-entry tables.
use vstd::prelude::*;

use crate::memory::{allocation_step, BitmapMemoryTable};
use crate::table::{find_addr, lemma_find_addr, lemma_find_addr_push, TableStore, MAX_TABLES, TABLE_ENTRIES};

verus! {

/// Bits 51:12 and above of an entry: the physical frame it points to.
pub const ADDR_MASK: u64 = 0xFFFF_FFFF_FFFF_F000;

/// Bits an entry keeps when it is rewritten: ignore-PAT, accessed, dirty,
/// user-execute and the reserved bit.
pub const KEEP_MASK: u64 = 0xF40;

/// Read, write and supervisor-execute; memory type 0.
pub const TABLE_FLAGS: u64 = 0x7;

/// Read, write, supervisor-execute and map-memory; memory type 0.
pub const LEAF_FLAGS: u64 = 0x87;

/// An entry is present when any of read, write or execute is set.
pub open spec fn entry_present(e: u64) -> bool {
    e & 0x7 != 0
}

/// The map-memory bit: the entry maps a page rather than a table.
pub open spec fn entry_leaf(e: u64) -> bool {
    e & 0x80 != 0
}

/// The physical address an entry points to.
pub open spec fn entry_address(e: u64) -> u64 {
    e & ADDR_MASK
}

/// `e` rewritten to point at `addr` with the access bits of `flags`.
pub open spec fn rewrite_entry(e: u64, addr: u64, flags: u64) -> u64 {
    (e & KEEP_MASK) | (addr & ADDR_MASK) | flags
}

proof fn lemma_rewrite_entry(e: u64, addr: u64, flags: u64)
    by (bit_vector)
    requires
        flags == 0x7 || flags == 0x87,
    ensures
        rewrite_entry(e, addr, flags) & 0x7 != 0,
        (rewrite_entry(e, addr, flags) & 0x80 != 0) == (flags == 0x87),
        rewrite_entry(e, addr, flags) & ADDR_MASK == addr & ADDR_MASK,
        rewrite_entry(e, addr, flags) & 0x3F == 0x7,
{
}

/// A frame address is its own entry address.
pub proof fn lemma_aligned_address(a: u64)
    by (bit_vector)
    requires
        a % 4096 == 0,
    ensures
        a & ADDR_MASK == a,
{
}

pub proof fn lemma_index_bounds(gpa: u64)
    by (bit_vector)
    ensures
        (gpa >> 39) & 0x1FF < 512,
        (gpa >> 30) & 0x1FF < 512,
        (gpa >> 21) & 0x1FF < 512,
        (gpa >> 12) & 0x1FF < 512,
{
}

/// Index into the level-4 table.
pub open spec fn lv4_index(gpa: u64) -> int {
    ((gpa >> 39) & 0x1FF) as int
}

/// Index into a level-3 table.
pub open spec fn lv3_index(gpa: u64) -> int {
    ((gpa >> 30) & 0x1FF) as int
}

/// Index into a level-2 table.
pub open spec fn lv2_index(gpa: u64) -> int {
    ((gpa >> 21) & 0x1FF) as int
}

/// Index into a level-1 table.
pub open spec fn lv1_index(gpa: u64) -> int {
    ((gpa >> 12) & 0x1FF) as int
}

/// One EPT entry.
#[derive(Clone, Copy)]
pub struct EntryBase {
    pub raw: u64,
}

impl EntryBase {
    /// Any of read, write or supervisor-execute is set.
    pub fn is_present(&self) -> (r: bool)
        ensures
            r == entry_present(self.raw),
    {
        self.raw & 0x7 != 0
    }

    /// The map-memory bit.
    pub fn map_memory(&self) -> (r: bool)
        ensures
            r == entry_leaf(self.raw),
    {
        self.raw & 0x80 != 0
    }

    /// The physical address the entry points to.
    pub fn address(&self) -> (r: u64)
        ensures
            r == entry_address(self.raw),
    {
        self.raw & ADDR_MASK
    }
}

/// Lookup after mapping: where `map_4k(gpa, hpa)` left `gpa` (its
/// `ensures`) and `hpa` is 4 KiB aligned, `gpa` translates to
/// `hpa | (gpa & 0xFFF)`; where `map_2m` left it and `hpa` is 2 MiB
/// aligned, to `hpa | (gpa & 0x1F_FFFF)`.
pub proof fn lemma_map_lookup(s: EPT, gpa: u64, hpa: u64)
    ensures
        hpa % 0x1000 == 0 && s.translate(gpa) == Some((hpa & ADDR_MASK) | (gpa & 0xFFF)) ==> s.translate(gpa) == Some(
            hpa | (gpa & 0xFFF),
        ),
        hpa % 0x20_0000 == 0 && s.translate(gpa) == Some((hpa & ADDR_MASK) | (gpa & 0x1F_FFFF)) ==> s.translate(gpa)
            == Some(hpa | (gpa & 0x1F_FFFF)),
{
    if hpa % 0x1000 == 0 {
        lemma_aligned_address(hpa);
    }
    if hpa % 0x20_0000 == 0 {
        assert(hpa % 0x1000 == 0);
        lemma_aligned_address(hpa);
    }
}

/// Addresses below 2^48 lie in the same 2 MiB region exactly when their
/// walks share the level-4, level-3 and level-2 indices, and in the same
/// 4 KiB page exactly when they share all four.
pub proof fn lemma_region_indices(a: u64, b: u64)
    requires
        a < 0x1_0000_0000_0000,
        b < 0x1_0000_0000_0000,
    ensures
        (a >> 21u64 == b >> 21u64) == (lv4_index(a) == lv4_index(b) && lv3_index(a) == lv3_index(b) && lv2_index(a)
            == lv2_index(b)),
        (a >> 21u64 == b >> 21u64 && a >> 12u64 != b >> 12u64) ==> lv1_index(a) != lv1_index(b),
{
    assert(((a >> 21u64 == b >> 21u64) == (((a >> 39u64) & 0x1FF) == ((b >> 39u64) & 0x1FF) && ((a >> 30u64) & 0x1FF)
        == ((b >> 30u64) & 0x1FF) && ((a >> 21u64) & 0x1FF) == ((b >> 21u64) & 0x1FF))) && ((a >> 21u64 == b >> 21u64
        && a >> 12u64 != b >> 12u64) ==> ((a >> 12u64) & 0x1FF) != ((b >> 12u64) & 0x1FF))) by (bit_vector)
        requires
            a < 0x1_0000_0000_0000,
            b < 0x1_0000_0000_0000,
    ;
}

/// The EPT pointer written to the VMCS.
#[derive(Clone, Copy)]
pub struct EPTP {
    pub raw: u64,
}

impl EPTP {
    /// Write-back memory type, a four-level walk, accessed and dirty flags
    /// enabled, and the level-4 table at `lv4_table`.
    pub fn init(lv4_table: u64) -> (r: Self)
        ensures
            r.raw == (6u64 | (3u64 << 3u64) | (1u64 << 6u64)) | (lv4_table & ADDR_MASK),
    {
        EPTP { raw: (6u64 | (3u64 << 3u64) | (1u64 << 6u64)) | (lv4_table & ADDR_MASK) }
    }

    /// The memory type field.
    pub fn typ(&self) -> (r: u64)
        ensures
            r == self.raw & 0x7,
    {
        self.raw & 0x7
    }

    /// The walk length minus one.
    pub fn level(&self) -> (r: u64)
        ensures
            r == (self.raw >> 3u64) & 0x7,
    {
        (self.raw >> 3u64) & 0x7
    }

    /// The physical address of the level-4 table.
    pub fn lv4_table(&self) -> (r: u64)
        ensures
            r == self.raw & ADDR_MASK,
    {
        self.raw & ADDR_MASK
    }
}

/// An entry on a mapped walk: one that was there stays as it was; one that
/// was made points to a table with read, write and supervisor-execute set,
/// the map bit clear and memory type 0.
pub open spec fn made_or_kept(before: Option<u64>, after: u64) -> bool {
    match before {
        Some(o) => if entry_present(o) {
            after == o
        } else {
            after & 0x3F == 0x7 && !entry_leaf(after)
        },
        None => after & 0x3F == 0x7 && !entry_leaf(after),
    }
}

/// Whether a parent entry points to a child table: present, and not a
/// leaf where leaves are possible.
pub open spec fn linked(e: u64, leaf_level: bool) -> bool {
    entry_present(e) && !(leaf_level && entry_leaf(e))
}

/// Every linked entry of `parents` points to a table of `child`, and no
/// two point to the same one.
pub open spec fn links_ok(parents: Seq<u64>, child: TableStore, leaf_level: bool) -> bool {
    &&& forall|k: int|
        0 <= k < parents.len() && linked(parents[k], leaf_level) ==> (#[trigger] child.find(entry_address(parents[k])))
            is Some
    &&& forall|k1: int, k2: int|
        0 <= k1 < parents.len() && 0 <= k2 < parents.len() && k1 != k2 && linked(parents[k1], leaf_level) && linked(
            parents[k2],
            leaf_level,
        ) ==> entry_address(#[trigger] parents[k1]) != entry_address(#[trigger] parents[k2])
}

/// `c2` keeps the tables of `c`, found at the same positions, with the
/// same entries except perhaps the one at flat position `q`.
pub open spec fn keeps(c: TableStore, c2: TableStore, q: int) -> bool {
    &&& forall|a: u64| (#[trigger] c.find(a)) is Some ==> c2.find(a) == c.find(a)
    &&& forall|p: int| 0 <= p < c.entries@.len() && p != q ==> #[trigger] c2.entries@[p] == c.entries@[p]
}

proof fn lemma_flat_index(t1: int, i1: int, t2: int, i2: int)
    requires
        0 <= i1 < 512,
        0 <= i2 < 512,
        0 <= t1,
        0 <= t2,
        t1 * 512 + i1 == t2 * 512 + i2,
    ensures
        t1 == t2 && i1 == i2,
{
    assert(t1 == t2) by (nonlinear_arith)
        requires
            0 <= i1 < 512,
            0 <= i2 < 512,
            t1 * 512 + i1 == t2 * 512 + i2,
    ;
}

proof fn lemma_entry_in_range(c: TableStore, t: int, i: int)
    requires
        c.wf(),
        0 <= t < c.addrs@.len(),
        0 <= i < 512,
    ensures
        0 <= t * 512 + i < c.entries@.len(),
{
    assert(0 <= t * 512 + i < c.addrs@.len() * 512) by (nonlinear_arith)
        requires
            0 <= t < c.addrs@.len(),
            0 <= i < 512,
    ;
}

/// A walk that reads none of the entries that changed translates as before,
/// when the tables were a tree and the stores kept their tables.
proof fn lemma_walk_kept(s: EPT, s2: EPT, gpa: u64, q4: int, q3: int, q2: int, q1: int)
    requires
        s.wf(),
        s2.wf(),
        s.tree_ok(),
        keeps(s.lv3, s2.lv3, q3),
        keeps(s.lv2, s2.lv2, q2),
        keeps(s.lv1, s2.lv1, q1),
        forall|j: int| 0 <= j < 512 && j != q4 ==> s2.lv4@[j] == s.lv4@[j],
        s.avoids(gpa, q4, q3, q2, q1),
    ensures
        s2.translate(gpa) == s.translate(gpa),
{
    lemma_index_bounds(gpa);
    let i4 = lv4_index(gpa);
    let i3 = lv3_index(gpa);
    let i2 = lv2_index(gpa);
    let i1 = lv1_index(gpa);
    let e4 = s.lv4@[i4];
    assert(s2.lv4@[i4] == e4);
    if entry_present(e4) {
        assert(linked(s.lv4@[i4], false));
        assert(s.lv3.find(entry_address(s.lv4@[i4])) is Some);
        let t3 = s.lv3.find(entry_address(e4)).unwrap();
        lemma_find_addr(s.lv3.addrs@, entry_address(e4));
        lemma_entry_in_range(s.lv3, t3, i3);
        assert(s2.lv3.find(entry_address(e4)) == Some(t3));
        assert(s2.lv3.entries@[t3 * 512 + i3] == s.lv3.entries@[t3 * 512 + i3]);
        let e3 = s.lv3.entry(t3, i3);
        if entry_present(e3) {
            assert(linked(s.lv3.entries@[t3 * 512 + i3], false));
            assert(s.lv2.find(entry_address(s.lv3.entries@[t3 * 512 + i3])) is Some);
            let t2 = s.lv2.find(entry_address(e3)).unwrap();
            lemma_find_addr(s.lv2.addrs@, entry_address(e3));
            lemma_entry_in_range(s.lv2, t2, i2);
            assert(s2.lv2.find(entry_address(e3)) == Some(t2));
            assert(s2.lv2.entries@[t2 * 512 + i2] == s.lv2.entries@[t2 * 512 + i2]);
            let e2 = s.lv2.entry(t2, i2);
            if entry_present(e2) && !entry_leaf(e2) {
                assert(linked(s.lv2.entries@[t2 * 512 + i2], true));
                assert(s.lv1.find(entry_address(s.lv2.entries@[t2 * 512 + i2])) is Some);
                let t1 = s.lv1.find(entry_address(e2)).unwrap();
                lemma_find_addr(s.lv1.addrs@, entry_address(e2));
                lemma_entry_in_range(s.lv1, t1, i1);
                assert(s2.lv1.find(entry_address(e2)) == Some(t1));
                assert(s2.lv1.entries@[t1 * 512 + i1] == s.lv1.entries@[t1 * 512 + i1]);
            }
        }
    }
}

/// What one level of a mapping does to a store: it either finds the table
/// at `a` at position `t`, or appends a fresh zeroed table there; then it
/// writes `v` at flat position `q`.
pub open spec fn updated(c0: TableStore, c4: TableStore, fresh: bool, a: u64, t: int, q: int, v: u64) -> bool {
    &&& c4.wf()
    &&& if fresh {
        c0.find(a) is None && t == c0.addrs@.len() && c4.addrs@ == c0.addrs@.push(a)
    } else {
        c0.find(a) == Some(t) && c4.addrs@ == c0.addrs@
    }
    &&& forall|p: int|
        0 <= p < c4.entries@.len() ==> #[trigger] c4.entries@[p] == if p == q {
            v
        } else if p < c0.entries@.len() {
            c0.entries@[p]
        } else {
            0
        }
}

proof fn lemma_updated_find(c0: TableStore, c4: TableStore, fresh: bool, a: u64, t: int, q: int, v: u64)
    requires
        c0.wf(),
        updated(c0, c4, fresh, a, t, q, v),
    ensures
        c4.find(a) == Some(t),
        forall|x: u64| (#[trigger] c0.find(x)) is Some ==> c4.find(x) == c0.find(x),
        0 <= t < c4.addrs@.len(),
        c0.addrs@.len() <= c4.addrs@.len(),
        c0.entries@.len() <= c4.entries@.len(),
{
    if fresh {
        assert forall|x: u64| #[trigger] c4.find(x) == if x == a { Some(t) } else { c0.find(x) } by {
            lemma_find_addr_push(c0.addrs@, a, x);
        }
    } else {
        lemma_find_addr(c0.addrs@, a);
    }
}

/// Walks that end in the same table took the same way there.
proof fn lemma_path_injective(s: EPT, g: u64, h: u64)
    requires
        s.wf(),
        s.tree_ok(),
    ensures
        s.path3(g) is Some && s.path3(g) == s.path3(h) ==> lv4_index(g) == lv4_index(h),
        s.path2(g) is Some && s.path2(g) == s.path2(h) ==> lv4_index(g) == lv4_index(h) && lv3_index(g)
            == lv3_index(h),
        s.path1(g) is Some && s.path1(g) == s.path1(h) ==> lv4_index(g) == lv4_index(h) && lv3_index(g)
            == lv3_index(h) && lv2_index(g) == lv2_index(h),
{
    lemma_index_bounds(g);
    lemma_index_bounds(h);
    if s.path3(g) is Some && s.path3(g) == s.path3(h) {
        let a = entry_address(s.lv4@[lv4_index(g)]);
        let b = entry_address(s.lv4@[lv4_index(h)]);
        lemma_find_addr(s.lv3.addrs@, a);
        lemma_find_addr(s.lv3.addrs@, b);
        if lv4_index(g) != lv4_index(h) {
            assert(linked(s.lv4@[lv4_index(g)], false) && linked(s.lv4@[lv4_index(h)], false));
        }
    }
    if s.path2(g) is Some && s.path2(g) == s.path2(h) {
        let t3g = s.path3(g).unwrap();
        let t3h = s.path3(h).unwrap();
        let pg = t3g * 512 + lv3_index(g);
        let ph = t3h * 512 + lv3_index(h);
        lemma_find_addr(s.lv3.addrs@, entry_address(s.lv4@[lv4_index(g)]));
        lemma_find_addr(s.lv3.addrs@, entry_address(s.lv4@[lv4_index(h)]));
        lemma_entry_in_range(s.lv3, t3g, lv3_index(g));
        lemma_entry_in_range(s.lv3, t3h, lv3_index(h));
        lemma_find_addr(s.lv2.addrs@, entry_address(s.lv3.entries@[pg]));
        lemma_find_addr(s.lv2.addrs@, entry_address(s.lv3.entries@[ph]));
        if pg != ph {
            assert(linked(s.lv3.entries@[pg], false) && linked(s.lv3.entries@[ph], false));
        } else {
            lemma_flat_index(t3g, lv3_index(g), t3h, lv3_index(h));
        }
    }
    if s.path1(g) is Some && s.path1(g) == s.path1(h) {
        let t2g = s.path2(g).unwrap();
        let t2h = s.path2(h).unwrap();
        let t3g = s.path3(g).unwrap();
        let t3h = s.path3(h).unwrap();
        lemma_find_addr(s.lv3.addrs@, entry_address(s.lv4@[lv4_index(g)]));
        lemma_find_addr(s.lv3.addrs@, entry_address(s.lv4@[lv4_index(h)]));
        lemma_entry_in_range(s.lv3, t3g, lv3_index(g));
        lemma_entry_in_range(s.lv3, t3h, lv3_index(h));
        lemma_find_addr(s.lv2.addrs@, entry_address(s.lv3.entries@[t3g * 512 + lv3_index(g)]));
        lemma_find_addr(s.lv2.addrs@, entry_address(s.lv3.entries@[t3h * 512 + lv3_index(h)]));
        let pg = t2g * 512 + lv2_index(g);
        let ph = t2h * 512 + lv2_index(h);
        lemma_entry_in_range(s.lv2, t2g, lv2_index(g));
        lemma_entry_in_range(s.lv2, t2h, lv2_index(h));
        lemma_find_addr(s.lv1.addrs@, entry_address(s.lv2.entries@[pg]));
        lemma_find_addr(s.lv1.addrs@, entry_address(s.lv2.entries@[ph]));
        if pg != ph {
            assert(linked(s.lv2.entries@[pg], true) && linked(s.lv2.entries@[ph], true));
        } else {
            lemma_flat_index(t2g, lv2_index(g), t2h, lv2_index(h));
        }
    }
}

/// Where the walk of `g` meets an entry that one 4 KiB mapping changed, it
/// passed through a fresh, zeroed table: `g` translated to nothing before
/// and, unless it lies in the mapped page's 2 MiB region, translates to
/// nothing after.
proof fn lemma_fresh_walks(
    s0: EPT,
    s4: EPT,
    g: u64,
    gpa: u64,
    fresh4: bool,
    fresh3: bool,
    fresh2: bool,
    t3: int,
    t2: int,
    t1: int,
    n4: u64,
    n3: u64,
    n2: u64,
    leaf: u64,
)
    requires
        s0.wf(),
        s0.tree_ok(),
        s4.wf(),
        s4.lv4@ == s0.lv4@.update(lv4_index(gpa), n4),
        fresh4 == !entry_present(s0.lv4@[lv4_index(gpa)]),
        !fresh4 ==> n4 == s0.lv4@[lv4_index(gpa)],
        entry_present(n4),
        updated(s0.lv3, s4.lv3, fresh4, entry_address(n4), t3, t3 * 512 + lv3_index(gpa), n3),
        fresh3 == !entry_present(if fresh4 { 0 } else { s0.lv3.entry(t3, lv3_index(gpa)) }),
        !fresh3 ==> n3 == s0.lv3.entry(t3, lv3_index(gpa)),
        entry_present(n3),
        updated(s0.lv2, s4.lv2, fresh3, entry_address(n3), t2, t2 * 512 + lv2_index(gpa), n2),
        fresh2 == !linked(if fresh3 { 0 } else { s0.lv2.entry(t2, lv2_index(gpa)) }, true),
        !fresh2 ==> n2 == s0.lv2.entry(t2, lv2_index(gpa)),
        entry_present(n2) && !entry_leaf(n2),
        updated(s0.lv1, s4.lv1, fresh2, entry_address(n2), t1, t1 * 512 + lv1_index(gpa), leaf),
        lv4_index(g) != lv4_index(gpa) || lv3_index(g) != lv3_index(gpa) || lv2_index(g) != lv2_index(gpa) || (
        !s0.is_2m_leaf(gpa) && lv1_index(g) != lv1_index(gpa)),
        !s0.avoids(
            g,
            if fresh4 { lv4_index(gpa) } else { -1 },
            if fresh3 { t3 * 512 + lv3_index(gpa) } else { -1 },
            if fresh2 { t2 * 512 + lv2_index(gpa) } else { -1 },
            t1 * 512 + lv1_index(gpa),
        ),
    ensures
        s4.translate(g) == s0.translate(g),
{
    let i4 = lv4_index(gpa);
    let i3 = lv3_index(gpa);
    let i2 = lv2_index(gpa);
    let i1 = lv1_index(gpa);
    lemma_index_bounds(gpa);
    lemma_index_bounds(g);
    let p3 = t3 * 512 + i3;
    let p2 = t2 * 512 + i2;
    lemma_updated_find(s0.lv3, s4.lv3, fresh4, entry_address(n4), t3, p3, n3);
    lemma_updated_find(s0.lv2, s4.lv2, fresh3, entry_address(n3), t2, p2, n2);
    lemma_updated_find(s0.lv1, s4.lv1, fresh2, entry_address(n2), t1, t1 * 512 + i1, leaf);
    lemma_path_injective(s0, g, gpa);
    assert(0u64 & 0x7 == 0) by (bit_vector);
    if !fresh4 {
        lemma_find_addr(s0.lv3.addrs@, entry_address(n4));
        assert(s0.path3(gpa) == Some(t3));
    }
    if !fresh3 {
        assert(!fresh4);
        lemma_find_addr(s0.lv2.addrs@, entry_address(n3));
        assert(s0.path2(gpa) == Some(t2));
    }
    if !fresh2 {
        assert(!fresh3);
        lemma_find_addr(s0.lv1.addrs@, entry_address(n2));
        assert(s0.path1(gpa) == Some(t1));
    }
    if let Some(t) = s0.path3(g) {
        lemma_find_addr(s0.lv3.addrs@, entry_address(s0.lv4@[lv4_index(g)]));
    }
    if let Some(t) = s0.path2(g) {
        lemma_find_addr(s0.lv2.addrs@, entry_address(s0.lv3.entry(s0.path3(g).unwrap(), lv3_index(g))));
    }
    if let Some(t) = s0.path1(g) {
        lemma_find_addr(s0.lv1.addrs@, entry_address(s0.lv2.entry(s0.path2(g).unwrap(), lv2_index(g))));
        if t * 512 + lv1_index(g) == t1 * 512 + i1 {
            lemma_flat_index(t, lv1_index(g), t1, i1);
        }
    }
    if let Some(t) = s0.path2(g) {
        if fresh2 && t * 512 + lv2_index(g) == p2 {
            lemma_flat_index(t, lv2_index(g), t2, i2);
        }
    }
    if let Some(t) = s0.path3(g) {
        if fresh3 && t * 512 + lv3_index(g) == p3 {
            lemma_flat_index(t, lv3_index(g), t3, i3);
        }
    }
    lemma_entry_in_range(s4.lv3, t3, lv3_index(g));
    lemma_entry_in_range(s4.lv2, t2, lv2_index(g));
    lemma_entry_in_range(s4.lv1, t1, lv1_index(g));
    if lv4_index(g) == i4 && lv3_index(g) == i3 && lv2_index(g) == i2 {
        // The walk of `g` goes through the fresh level-1 table.
        assert(fresh2);
        assert(lv1_index(g) != i1);
        if !fresh3 {
            assert(s0.leaf_2m(gpa) == Some(s0.lv2.entry(t2, i2)));
        }
        assert(s0.translate(g) is None);
        assert(s4.lv3.entries@[p3] == n3);
        assert(s4.lv2.entries@[p2] == n2);
        assert(s4.lv1.entries@[t1 * 512 + lv1_index(g)] == 0);
    } else {
        // The walk of `g` goes through the fresh level-3 or level-2 table.
        assert(fresh3);
        assert(s0.translate(g) is None);
        if fresh4 {
            assert(lv4_index(g) == i4);
            if lv3_index(g) != i3 {
                assert(s4.lv3.entries@[t3 * 512 + lv3_index(g)] == 0);
            } else {
                assert(s4.lv3.entries@[p3] == n3);
                assert(lv2_index(g) != i2);
                assert(s4.lv2.entries@[t2 * 512 + lv2_index(g)] == 0);
            }
        } else {
            assert(lv4_index(g) == i4 && lv3_index(g) == i3);
            assert(s4.lv3.entries@[p3] == n3);
            assert(lv2_index(g) != i2);
            assert(s4.lv2.entries@[t2 * 512 + lv2_index(g)] == 0);
        }
    }
}

/// The frame of one 4 KiB mapping, from the state before (`s0`) to the
/// state after (`s4`): the tables stay a tree, and every walk that leaves
/// the mapped page's 2 MiB region, or stays in it where that region was
/// already split into 4 KiB pages, translates as before.
proof fn lemma_map_4k_frame(
    s0: EPT,
    s4: EPT,
    gpa: u64,
    fresh4: bool,
    fresh3: bool,
    fresh2: bool,
    t3: int,
    t2: int,
    t1: int,
    n4: u64,
    n3: u64,
    n2: u64,
    leaf: u64,
)
    requires
        s0.wf(),
        s0.tree_ok(),
        s4.wf(),
        s4.lv4@ == s0.lv4@.update(lv4_index(gpa), n4),
        fresh4 == !entry_present(s0.lv4@[lv4_index(gpa)]),
        !fresh4 ==> n4 == s0.lv4@[lv4_index(gpa)],
        entry_present(n4),
        updated(s0.lv3, s4.lv3, fresh4, entry_address(n4), t3, t3 * 512 + lv3_index(gpa), n3),
        fresh3 == !entry_present(if fresh4 { 0 } else { s0.lv3.entry(t3, lv3_index(gpa)) }),
        !fresh3 ==> n3 == s0.lv3.entry(t3, lv3_index(gpa)),
        entry_present(n3),
        updated(s0.lv2, s4.lv2, fresh3, entry_address(n3), t2, t2 * 512 + lv2_index(gpa), n2),
        fresh2 == !linked(if fresh3 { 0 } else { s0.lv2.entry(t2, lv2_index(gpa)) }, true),
        !fresh2 ==> n2 == s0.lv2.entry(t2, lv2_index(gpa)),
        entry_present(n2) && !entry_leaf(n2),
        updated(s0.lv1, s4.lv1, fresh2, entry_address(n2), t1, t1 * 512 + lv1_index(gpa), leaf),
    ensures
        s4.tree_ok(),
        forall|g: u64|
            (lv4_index(g) != lv4_index(gpa) || lv3_index(g) != lv3_index(gpa) || lv2_index(g) != lv2_index(gpa)
                || (!s0.is_2m_leaf(gpa) && lv1_index(g) != lv1_index(gpa))) ==> #[trigger] s4.translate(g)
                == s0.translate(g),
{
    let i4 = lv4_index(gpa);
    let i3 = lv3_index(gpa);
    let i2 = lv2_index(gpa);
    let i1 = lv1_index(gpa);
    lemma_index_bounds(gpa);
    let p3 = t3 * 512 + i3;
    let p2 = t2 * 512 + i2;
    let q4 = if fresh4 { i4 } else { -1 };
    let q3 = if fresh3 { p3 } else { -1 };
    let q2 = if fresh2 { p2 } else { -1 };
    let q1 = t1 * 512 + i1;
    lemma_updated_find(s0.lv3, s4.lv3, fresh4, entry_address(n4), t3, p3, n3);
    lemma_updated_find(s0.lv2, s4.lv2, fresh3, entry_address(n3), t2, p2, n2);
    lemma_updated_find(s0.lv1, s4.lv1, fresh2, entry_address(n2), t1, q1, leaf);
    lemma_entry_in_range(s4.lv3, t3, i3);
    lemma_entry_in_range(s4.lv2, t2, i2);
    lemma_entry_in_range(s4.lv1, t1, i1);
    if !fresh4 {
        lemma_find_addr(s0.lv3.addrs@, entry_address(n4));
        lemma_entry_in_range(s0.lv3, t3, i3);
    }
    if !fresh3 {
        lemma_find_addr(s0.lv2.addrs@, entry_address(n3));
        lemma_entry_in_range(s0.lv2, t2, i2);
    }
    if !fresh2 {
        lemma_find_addr(s0.lv1.addrs@, entry_address(n2));
        lemma_entry_in_range(s0.lv1, t1, i1);
    }
    // The tables stay a tree.
    assert(0u64 & 0x7 == 0) by (bit_vector);
    assert(!entry_present(0u64));
    assert forall|k: int|
        0 <= k < 512 && linked(s4.lv4@[k], false) implies (#[trigger] s4.lv3.find(entry_address(s4.lv4@[k]))) is Some by {
        if k != i4 {
            assert(linked(s0.lv4@[k], false));
            assert(s0.lv3.find(entry_address(s0.lv4@[k])) is Some);
        }
    }
    assert forall|k1: int, k2: int|
        0 <= k1 < 512 && 0 <= k2 < 512 && k1 != k2 && linked(s4.lv4@[k1], false) && linked(s4.lv4@[k2], false)
            implies entry_address(#[trigger] s4.lv4@[k1]) != entry_address(#[trigger] s4.lv4@[k2]) by {
        if k1 != i4 && k2 != i4 {
            assert(linked(s0.lv4@[k1], false) && linked(s0.lv4@[k2], false));
        } else if k1 == i4 {
            assert(linked(s0.lv4@[k2], false));
            assert(s0.lv3.find(entry_address(s0.lv4@[k2])) is Some);
        } else {
            assert(linked(s0.lv4@[k1], false));
            assert(s0.lv3.find(entry_address(s0.lv4@[k1])) is Some);
        }
    }
    let l3 = s4.lv3.entries@;
    assert forall|k: int|
        0 <= k < l3.len() && linked(l3[k], false) implies (#[trigger] s4.lv2.find(entry_address(l3[k]))) is Some by {
        if k != p3 && k < s0.lv3.entries@.len() {
            assert(linked(s0.lv3.entries@[k], false));
            assert(s0.lv2.find(entry_address(s0.lv3.entries@[k])) is Some);
        }
    }
    assert forall|k1: int, k2: int|
        0 <= k1 < l3.len() && 0 <= k2 < l3.len() && k1 != k2 && linked(l3[k1], false) && linked(l3[k2], false)
            implies entry_address(#[trigger] l3[k1]) != entry_address(#[trigger] l3[k2]) by {
        if k1 != p3 && k2 != p3 {
            if k1 < s0.lv3.entries@.len() && k2 < s0.lv3.entries@.len() {
                assert(linked(s0.lv3.entries@[k1], false) && linked(s0.lv3.entries@[k2], false));
            }
        } else if k1 == p3 {
            assert(k2 < s0.lv3.entries@.len());
            assert(linked(s0.lv3.entries@[k2], false));
            assert(s0.lv2.find(entry_address(s0.lv3.entries@[k2])) is Some);
        } else {
            assert(k1 < s0.lv3.entries@.len());
            assert(linked(s0.lv3.entries@[k1], false));
            assert(s0.lv2.find(entry_address(s0.lv3.entries@[k1])) is Some);
        }
    }
    let l2 = s4.lv2.entries@;
    assert forall|k: int|
        0 <= k < l2.len() && linked(l2[k], true) implies (#[trigger] s4.lv1.find(entry_address(l2[k]))) is Some by {
        if k != p2 && k < s0.lv2.entries@.len() {
            assert(linked(s0.lv2.entries@[k], true));
            assert(s0.lv1.find(entry_address(s0.lv2.entries@[k])) is Some);
        }
    }
    assert forall|k1: int, k2: int|
        0 <= k1 < l2.len() && 0 <= k2 < l2.len() && k1 != k2 && linked(l2[k1], true) && linked(l2[k2], true)
            implies entry_address(#[trigger] l2[k1]) != entry_address(#[trigger] l2[k2]) by {
        if k1 != p2 && k2 != p2 {
            if k1 < s0.lv2.entries@.len() && k2 < s0.lv2.entries@.len() {
                assert(linked(s0.lv2.entries@[k1], true) && linked(s0.lv2.entries@[k2], true));
            }
        } else if k1 == p2 {
            assert(k2 < s0.lv2.entries@.len());
            assert(linked(s0.lv2.entries@[k2], true));
            assert(s0.lv1.find(entry_address(s0.lv2.entries@[k2])) is Some);
        } else {
            assert(k1 < s0.lv2.entries@.len());
            assert(linked(s0.lv2.entries@[k1], true));
            assert(s0.lv1.find(entry_address(s0.lv2.entries@[k1])) is Some);
        }
    }
    assert(s4.tree_ok());
    // Walks elsewhere translate as before.
    assert forall|g: u64|
        (lv4_index(g) != i4 || lv3_index(g) != i3 || lv2_index(g) != i2 || (!s0.is_2m_leaf(gpa) && lv1_index(g)
            != i1)) implies #[trigger] s4.translate(g) == s0.translate(g) by {
        lemma_index_bounds(g);
        lemma_path_injective(s0, g, gpa);
        assert forall|j: int| 0 <= j < 512 && j != q4 implies s4.lv4@[j] == s0.lv4@[j] by {}
        assert(keeps(s0.lv3, s4.lv3, q3));
        assert(keeps(s0.lv2, s4.lv2, q2));
        assert(keeps(s0.lv1, s4.lv1, q1));
        if s0.avoids(g, q4, q3, q2, q1) {
            lemma_walk_kept(s0, s4, g, q4, q3, q2, q1);
        } else {
            // The walk of `g` meets a changed entry only where it leaves a
            // fresh, zeroed table: there is nothing there before or after.
            lemma_fresh_walks(s0, s4, g, gpa, fresh4, fresh3, fresh2, t3, t2, t1, n4, n3, n2, leaf);
        }
    }
}

/// The frame of one 2 MiB mapping, from the state before (`s0`) to the
/// state after (`s4`): the tables stay a tree, and every walk that leaves
/// the mapped region translates as before.
proof fn lemma_map_2m_frame(
    s0: EPT,
    s4: EPT,
    gpa: u64,
    fresh4: bool,
    fresh3: bool,
    t3: int,
    t2: int,
    n4: u64,
    n3: u64,
    leaf: u64,
)
    requires
        s0.wf(),
        s0.tree_ok(),
        s4.wf(),
        s4.lv4@ == s0.lv4@.update(lv4_index(gpa), n4),
        fresh4 == !entry_present(s0.lv4@[lv4_index(gpa)]),
        !fresh4 ==> n4 == s0.lv4@[lv4_index(gpa)],
        entry_present(n4),
        updated(s0.lv3, s4.lv3, fresh4, entry_address(n4), t3, t3 * 512 + lv3_index(gpa), n3),
        fresh3 == !entry_present(if fresh4 { 0 } else { s0.lv3.entry(t3, lv3_index(gpa)) }),
        !fresh3 ==> n3 == s0.lv3.entry(t3, lv3_index(gpa)),
        entry_present(n3),
        updated(s0.lv2, s4.lv2, fresh3, entry_address(n3), t2, t2 * 512 + lv2_index(gpa), leaf),
        entry_leaf(leaf),
        s4.lv1 == s0.lv1,
    ensures
        s4.tree_ok(),
        forall|g: u64|
            (lv4_index(g) != lv4_index(gpa) || lv3_index(g) != lv3_index(gpa) || lv2_index(g) != lv2_index(gpa))
                ==> #[trigger] s4.translate(g) == s0.translate(g),
{
    let i4 = lv4_index(gpa);
    let i3 = lv3_index(gpa);
    let i2 = lv2_index(gpa);
    lemma_index_bounds(gpa);
    let p3 = t3 * 512 + i3;
    let p2 = t2 * 512 + i2;
    let q4 = if fresh4 { i4 } else { -1 };
    let q3 = if fresh3 { p3 } else { -1 };
    lemma_updated_find(s0.lv3, s4.lv3, fresh4, entry_address(n4), t3, p3, n3);
    lemma_updated_find(s0.lv2, s4.lv2, fresh3, entry_address(n3), t2, p2, leaf);
    lemma_entry_in_range(s4.lv3, t3, i3);
    lemma_entry_in_range(s4.lv2, t2, i2);
    assert(0u64 & 0x7 == 0) by (bit_vector);
    assert(!entry_present(0u64));
    if !fresh4 {
        lemma_find_addr(s0.lv3.addrs@, entry_address(n4));
        lemma_entry_in_range(s0.lv3, t3, i3);
        assert(s0.path3(gpa) == Some(t3));
    }
    if !fresh3 {
        assert(!fresh4);
        lemma_find_addr(s0.lv2.addrs@, entry_address(n3));
        lemma_entry_in_range(s0.lv2, t2, i2);
        assert(s0.path2(gpa) == Some(t2));
    }
    assert forall|k: int|
        0 <= k < 512 && linked(s4.lv4@[k], false) implies (#[trigger] s4.lv3.find(entry_address(s4.lv4@[k]))) is Some by {
        if k != i4 {
            assert(linked(s0.lv4@[k], false));
            assert(s0.lv3.find(entry_address(s0.lv4@[k])) is Some);
        }
    }
    assert forall|k1: int, k2: int|
        0 <= k1 < 512 && 0 <= k2 < 512 && k1 != k2 && linked(s4.lv4@[k1], false) && linked(s4.lv4@[k2], false)
            implies entry_address(#[trigger] s4.lv4@[k1]) != entry_address(#[trigger] s4.lv4@[k2]) by {
        if k1 != i4 && k2 != i4 {
            assert(linked(s0.lv4@[k1], false) && linked(s0.lv4@[k2], false));
        } else if k1 == i4 {
            assert(linked(s0.lv4@[k2], false));
            assert(s0.lv3.find(entry_address(s0.lv4@[k2])) is Some);
        } else {
            assert(linked(s0.lv4@[k1], false));
            assert(s0.lv3.find(entry_address(s0.lv4@[k1])) is Some);
        }
    }
    let l3 = s4.lv3.entries@;
    assert forall|k: int|
        0 <= k < l3.len() && linked(l3[k], false) implies (#[trigger] s4.lv2.find(entry_address(l3[k]))) is Some by {
        if k != p3 && k < s0.lv3.entries@.len() {
            assert(linked(s0.lv3.entries@[k], false));
            assert(s0.lv2.find(entry_address(s0.lv3.entries@[k])) is Some);
        }
    }
    assert forall|k1: int, k2: int|
        0 <= k1 < l3.len() && 0 <= k2 < l3.len() && k1 != k2 && linked(l3[k1], false) && linked(l3[k2], false)
            implies entry_address(#[trigger] l3[k1]) != entry_address(#[trigger] l3[k2]) by {
        if k1 != p3 && k2 != p3 {
            if k1 < s0.lv3.entries@.len() && k2 < s0.lv3.entries@.len() {
                assert(linked(s0.lv3.entries@[k1], false) && linked(s0.lv3.entries@[k2], false));
            }
        } else if k1 == p3 {
            assert(k2 < s0.lv3.entries@.len());
            assert(linked(s0.lv3.entries@[k2], false));
            assert(s0.lv2.find(entry_address(s0.lv3.entries@[k2])) is Some);
        } else {
            assert(k1 < s0.lv3.entries@.len());
            assert(linked(s0.lv3.entries@[k1], false));
            assert(s0.lv2.find(entry_address(s0.lv3.entries@[k1])) is Some);
        }
    }
    let l2 = s4.lv2.entries@;
    assert forall|k: int|
        0 <= k < l2.len() && linked(l2[k], true) implies (#[trigger] s4.lv1.find(entry_address(l2[k]))) is Some by {
        if k != p2 && k < s0.lv2.entries@.len() {
            assert(linked(s0.lv2.entries@[k], true));
        }
    }
    assert forall|k1: int, k2: int|
        0 <= k1 < l2.len() && 0 <= k2 < l2.len() && k1 != k2 && linked(l2[k1], true) && linked(l2[k2], true)
            implies entry_address(#[trigger] l2[k1]) != entry_address(#[trigger] l2[k2]) by {
        if k1 < s0.lv2.entries@.len() && k2 < s0.lv2.entries@.len() {
            assert(linked(s0.lv2.entries@[k1], true) && linked(s0.lv2.entries@[k2], true));
        }
    }
    assert(s4.tree_ok());
    assert forall|g: u64|
        (lv4_index(g) != i4 || lv3_index(g) != i3 || lv2_index(g) != i2) implies #[trigger] s4.translate(g)
            == s0.translate(g) by {
        lemma_index_bounds(g);
        lemma_path_injective(s0, g, gpa);
        assert forall|j: int| 0 <= j < 512 && j != q4 implies s4.lv4@[j] == s0.lv4@[j] by {}
        assert(keeps(s0.lv3, s4.lv3, q3));
        assert(keeps(s0.lv2, s4.lv2, p2));
        assert(keeps(s0.lv1, s4.lv1, -1));
        if s0.avoids(g, q4, q3, p2, -1) {
            lemma_walk_kept(s0, s4, g, q4, q3, p2, -1);
        } else {
            if let Some(t) = s0.path3(g) {
                lemma_find_addr(s0.lv3.addrs@, entry_address(s0.lv4@[lv4_index(g)]));
                if fresh3 && t * 512 + lv3_index(g) == p3 {
                    lemma_flat_index(t, lv3_index(g), t3, i3);
                }
            }
            if let Some(t) = s0.path2(g) {
                lemma_find_addr(s0.lv2.addrs@, entry_address(s0.lv3.entry(s0.path3(g).unwrap(), lv3_index(g))));
                if t * 512 + lv2_index(g) == p2 {
                    lemma_flat_index(t, lv2_index(g), t2, i2);
                }
            }
            if let Some(t) = s0.path1(g) {
                lemma_find_addr(s0.lv1.addrs@, entry_address(s0.lv2.entry(s0.path2(g).unwrap(), lv2_index(g))));
            }
            assert(fresh3);
            assert(s0.translate(g) is None);
            lemma_entry_in_range(s4.lv3, t3, lv3_index(g));
            lemma_entry_in_range(s4.lv2, t2, lv2_index(g));
            if fresh4 {
                assert(lv4_index(g) == i4);
                if lv3_index(g) != i3 {
                    assert(s4.lv3.entries@[t3 * 512 + lv3_index(g)] == 0);
                } else {
                    assert(s4.lv3.entries@[p3] == n3);
                    assert(s4.lv2.entries@[t2 * 512 + lv2_index(g)] == 0);
                }
            } else {
                assert(lv4_index(g) == i4 && lv3_index(g) == i3);
                assert(s4.lv3.entries@[p3] == n3);
                assert(s4.lv2.entries@[t2 * 512 + lv2_index(g)] == 0);
            }
        }
    }
}

/// The extended page tables of one guest.
pub struct EPT {
    /// Physical address of the level-4 table.
    pub root_table: u64,
    /// The level-4 table.
    pub lv4: Vec<u64>,
    /// Level-3 tables.
    pub lv3: TableStore,
    /// Level-2 tables.
    pub lv2: TableStore,
    /// Level-1 tables.
    pub lv1: TableStore,
}

/// Entry `i` of the table that `parent` points to in `store`.
pub open spec fn child_entry(store: TableStore, parent: u64, i: int) -> Option<u64> {
    match store.find(entry_address(parent)) {
        Some(t) => Some(store.entry(t, i)),
        None => None,
    }
}

impl EPT {
    pub open spec fn wf(&self) -> bool {
        &&& self.lv4@.len() == 512
        &&& self.lv3.wf()
        &&& self.lv2.wf()
        &&& self.lv1.wf()
    }

    /// Every table of the lower levels sits in a frame the allocator holds
    /// as in use.
    pub open spec fn tables_in_use(&self, alloc: BitmapMemoryTable) -> bool {
        &&& forall|a: u64| (#[trigger] self.lv3.find(a)) is Some ==> !alloc.is_free(a as int / 4096)
        &&& forall|a: u64| (#[trigger] self.lv2.find(a)) is Some ==> !alloc.is_free(a as int / 4096)
        &&& forall|a: u64| (#[trigger] self.lv1.find(a)) is Some ==> !alloc.is_free(a as int / 4096)
    }

    /// Each store has room for one more table.
    pub open spec fn has_room(&self) -> bool {
        &&& self.lv3.addrs@.len() < MAX_TABLES
        &&& self.lv2.addrs@.len() < MAX_TABLES
        &&& self.lv1.addrs@.len() < MAX_TABLES
    }

    /// The tables form a tree: every linked entry points to a table of the
    /// level below, and no table has two parents.
    pub open spec fn tree_ok(&self) -> bool {
        &&& links_ok(self.lv4@, self.lv3, false)
        &&& links_ok(self.lv3.entries@, self.lv2, false)
        &&& links_ok(self.lv2.entries@, self.lv1, true)
    }

    /// The position of the level-3 table on the walk of `gpa`.
    pub open spec fn path3(&self, gpa: u64) -> Option<int> {
        let e4 = self.lv4@[lv4_index(gpa)];
        if !entry_present(e4) {
            None
        } else {
            self.lv3.find(entry_address(e4))
        }
    }

    /// The position of the level-2 table on the walk of `gpa`.
    pub open spec fn path2(&self, gpa: u64) -> Option<int> {
        match self.path3(gpa) {
            None => None,
            Some(t3) => {
                let e3 = self.lv3.entry(t3, lv3_index(gpa));
                if !entry_present(e3) {
                    None
                } else {
                    self.lv2.find(entry_address(e3))
                }
            },
        }
    }

    /// The position of the level-1 table on the walk of `gpa`.
    pub open spec fn path1(&self, gpa: u64) -> Option<int> {
        match self.path2(gpa) {
            None => None,
            Some(t2) => {
                let e2 = self.lv2.entry(t2, lv2_index(gpa));
                if !entry_present(e2) || entry_leaf(e2) {
                    None
                } else {
                    self.lv1.find(entry_address(e2))
                }
            },
        }
    }

    /// The walk of `gpa` reads none of the entries at level-4 index `q4`
    /// and flat positions `q3`, `q2`, `q1` of the lower levels.
    pub open spec fn avoids(&self, gpa: u64, q4: int, q3: int, q2: int, q1: int) -> bool {
        &&& lv4_index(gpa) != q4
        &&& (self.path3(gpa) matches Some(t) ==> t * 512 + lv3_index(gpa) != q3)
        &&& (self.path2(gpa) matches Some(t) ==> t * 512 + lv2_index(gpa) != q2)
        &&& (self.path1(gpa) matches Some(t) ==> t * 512 + lv1_index(gpa) != q1)
    }

    /// The host-physical address that guest-physical `gpa` translates to.
    pub open spec fn translate(&self, gpa: u64) -> Option<u64> {
        let e4 = self.lv4@[lv4_index(gpa)];
        if !entry_present(e4) {
            None
        } else {
            match child_entry(self.lv3, e4, lv3_index(gpa)) {
                None => None,
                Some(e3) => if !entry_present(e3) {
                    None
                } else {
                    match child_entry(self.lv2, e3, lv2_index(gpa)) {
                        None => None,
                        Some(e2) => if !entry_present(e2) {
                            None
                        } else if entry_leaf(e2) {
                            Some(entry_address(e2) | (gpa & 0x1F_FFFF))
                        } else {
                            match child_entry(self.lv1, e2, lv1_index(gpa)) {
                                None => None,
                                Some(e1) => if !entry_present(e1) || !entry_leaf(e1) {
                                    None
                                } else {
                                    Some(entry_address(e1) | (gpa & 0xFFF))
                                },
                            }
                        },
                    }
                },
            }
        }
    }

    /// The level-3 entry on the walk of `gpa`, if the walk reaches it.
    pub open spec fn lv3_entry(&self, gpa: u64) -> Option<u64> {
        let e4 = self.lv4@[lv4_index(gpa)];
        if !entry_present(e4) {
            None
        } else {
            child_entry(self.lv3, e4, lv3_index(gpa))
        }
    }

    /// The level-2 entry on the walk of `gpa`, if the walk reaches it.
    pub open spec fn leaf_2m(&self, gpa: u64) -> Option<u64> {
        let e4 = self.lv4@[lv4_index(gpa)];
        if !entry_present(e4) {
            None
        } else {
            match child_entry(self.lv3, e4, lv3_index(gpa)) {
                None => None,
                Some(e3) => if !entry_present(e3) {
                    None
                } else {
                    child_entry(self.lv2, e3, lv2_index(gpa))
                },
            }
        }
    }

    /// The walk of `gpa` ends in a present 2 MiB leaf.
    pub open spec fn is_2m_leaf(&self, gpa: u64) -> bool {
        self.leaf_2m(gpa) matches Some(e) && entry_present(e) && entry_leaf(e)
    }

    /// The level-1 entry on the walk of `gpa`, if the walk reaches it.
    pub open spec fn leaf_4k(&self, gpa: u64) -> Option<u64> {
        match self.leaf_2m(gpa) {
            None => None,
            Some(e2) => if !entry_present(e2) || entry_leaf(e2) {
                None
            } else {
                child_entry(self.lv1, e2, lv1_index(gpa))
            },
        }
    }

    /// Allocates a zeroed level-4 table; no guest address is mapped.
    pub fn new(allocator: &mut BitmapMemoryTable) -> (r: Result<Self, &'static str>)
        requires
            old(allocator).wf(),
        ensures
            final(allocator).wf(),
            r matches Ok(ept) ==> ept.wf() && ept.tree_ok() && forall|gpa: u64| #[trigger] ept.translate(gpa) is None,
            r matches Ok(ept) ==> allocation_step(*old(allocator), *final(allocator), Some(ept.root_table)),
            r matches Ok(ept) ==> ept.lv3.addrs@.len() == 0 && ept.lv2.addrs@.len() == 0 && ept.lv1.addrs@.len() == 0,
            r matches Ok(ept) ==> ept.tables_in_use(*final(allocator)),
            r is Err ==> r == Err::<EPT, &'static str>("Failed to allocate EPT root table frame") && allocation_step(
                *old(allocator),
                *final(allocator),
                None,
            ),
            r is Err <==> forall|g: int| !#[trigger] old(allocator).available(g),
    {
        let root = match allocator.allocate_frame() {
            Some(a) => a,
            None => {
                return Err("Failed to allocate EPT root table frame");
            },
        };
        let mut lv4: Vec<u64> = Vec::new();
        let mut k: usize = 0;
        while k < TABLE_ENTRIES
            invariant
                k <= 512,
                lv4@.len() == k,
                forall|j: int| 0 <= j < k ==> #[trigger] lv4@[j] == 0,
            decreases 512 - k,
        {
            lv4.push(0);
            k = k + 1;
        }
        let ept = EPT { root_table: root, lv4, lv3: TableStore::new(), lv2: TableStore::new(), lv1: TableStore::new() };
        assert(0u64 & 0x7 == 0) by (bit_vector);
        assert forall|gpa: u64| #[trigger] ept.translate(gpa) is None by {
            lemma_index_bounds(gpa);
        }
        Ok(ept)
    }

    /// Maps the 4 KiB guest page holding `gpa` to the host frame holding
    /// `hpa`, readable, writable and executable with memory type 0, taking
    /// from the allocator a zeroed frame for each missing table on the way. A
    /// 2 MiB mapping on the way is replaced by a fresh level-1 table. When
    /// the tables were a tree, they stay one, and every other address
    /// translates as before, except the rest of a 2 MiB region that was
    /// mapped whole, which no longer translates. A failure changes no table;
    /// with the tables a tree, in use in the allocator and not at capacity,
    /// it comes only from the allocator running out of frames.
    pub fn map_4k(&mut self, gpa: u64, hpa: u64, allocator: &mut BitmapMemoryTable) -> (r: Result<(), &'static str>)
        requires
            old(self).wf(),
            old(allocator).wf(),
        ensures
            final(self).wf(),
            final(allocator).wf(),
            final(self).root_table == old(self).root_table,
            forall|f: int| #[trigger] final(allocator).is_free(f) ==> old(allocator).is_free(f),
            final(self).lv3.addrs@.len() <= old(self).lv3.addrs@.len() + 1,
            final(self).lv2.addrs@.len() <= old(self).lv2.addrs@.len() + 1,
            final(self).lv1.addrs@.len() <= old(self).lv1.addrs@.len() + 1,
            r is Err ==> *final(self) == *old(self),
            r is Err && old(self).tree_ok() && old(self).tables_in_use(*old(allocator)) && old(self).has_room()
                ==> forall|f: int| !#[trigger] final(allocator).available(f),
            r is Ok ==> final(self).translate(gpa) == Some((hpa & ADDR_MASK) | (gpa & 0xFFF)),
            r is Ok ==> (final(self).leaf_4k(gpa) matches Some(e) && e & 0x3F == 0x7 && entry_leaf(e) && e & ADDR_MASK
                == hpa & ADDR_MASK),
            r is Ok ==> made_or_kept(Some(old(self).lv4@[lv4_index(gpa)]), final(self).lv4@[lv4_index(gpa)]),
            r is Ok ==> (final(self).lv3_entry(gpa) matches Some(e) && made_or_kept(old(self).lv3_entry(gpa), e)),
            r is Ok ==> (final(self).leaf_2m(gpa) matches Some(e) && match old(self).leaf_2m(gpa) {
                Some(o) => if linked(o, true) {
                    e == o
                } else {
                    e & 0x3F == 0x7 && !entry_leaf(e)
                },
                None => e & 0x3F == 0x7 && !entry_leaf(e),
            }),
            old(self).leaf_4k(gpa) is Some ==> r is Ok,
            old(self).tree_ok() && r is Ok ==> final(self).tree_ok(),
            old(self).tables_in_use(*old(allocator)) ==> final(self).tables_in_use(*final(allocator)),
            old(self).tree_ok() && r is Ok ==> forall|g: u64|
                (lv4_index(g) != lv4_index(gpa) || lv3_index(g) != lv3_index(gpa) || lv2_index(g) != lv2_index(gpa)
                    || (!old(self).is_2m_leaf(gpa) && lv1_index(g) != lv1_index(gpa)))
                    ==> #[trigger] final(self).translate(g) == old(self).translate(g),
    {
        proof {
            lemma_index_bounds(gpa);
        }
        let i4 = ((gpa >> 39) & 0x1FF) as usize;
        let i3 = ((gpa >> 30) & 0x1FF) as usize;
        let i2 = ((gpa >> 21) & 0x1FF) as usize;
        let i1 = ((gpa >> 12) & 0x1FF) as usize;
        let ghost s0 = *self;
        let ghost a0 = *allocator;
        proof {
            assert(0u64 & 0x7 == 0) by (bit_vector);
        }

        // Find the tables on the way, and which are missing.
        let e4 = self.lv4[i4];
        let f4 = e4 & 0x7 == 0;
        let t3 = if f4 {
            self.lv3.addrs.len()
        } else {
            match self.lv3.find_table(e4 & ADDR_MASK) {
                Some(t) => t,
                None => {
                    return Err("EPT entry points to an unknown table");
                },
            }
        };
        let e3 = if f4 {
            0
        } else {
            self.lv3.read(t3, i3)
        };
        let f3 = e3 & 0x7 == 0;
        let t2 = if f3 {
            self.lv2.addrs.len()
        } else {
            match self.lv2.find_table(e3 & ADDR_MASK) {
                Some(t) => t,
                None => {
                    return Err("EPT entry points to an unknown table");
                },
            }
        };
        let e2 = if f3 {
            0
        } else {
            self.lv2.read(t2, i2)
        };
        let f2 = e2 & 0x7 == 0 || e2 & 0x80 != 0;
        let t1 = if f2 {
            self.lv1.addrs.len()
        } else {
            match self.lv1.find_table(e2 & ADDR_MASK) {
                Some(t) => t,
                None => {
                    return Err("EPT entry points to an unknown table");
                },
            }
        };

        // Take the frames of the missing tables.
        let a3 = if f4 {
            match Self::take_frame(&self.lv3, allocator) {
                Ok(a) => a,
                Err(e) => {
                    return Err(e);
                },
            }
        } else {
            0
        };
        let ghost al3 = *allocator;
        let a2 = if f3 {
            match Self::take_frame(&self.lv2, allocator) {
                Ok(a) => a,
                Err(e) => {
                    return Err(e);
                },
            }
        } else {
            0
        };
        let ghost al2 = *allocator;
        let a1 = if f2 {
            match Self::take_frame(&self.lv1, allocator) {
                Ok(a) => a,
                Err(e) => {
                    return Err(e);
                },
            }
        } else {
            0
        };

        // Install them and the mapping.
        let n4 = if f4 {
            self.lv3.push_zeroed(a3);
            (e4 & KEEP_MASK) | (a3 & ADDR_MASK) | TABLE_FLAGS
        } else {
            e4
        };
        self.lv4.set(i4, n4);
        let n3 = if f3 {
            self.lv2.push_zeroed(a2);
            (e3 & KEEP_MASK) | (a2 & ADDR_MASK) | TABLE_FLAGS
        } else {
            e3
        };
        self.lv3.write(t3, i3, n3);
        let n2 = if f2 {
            self.lv1.push_zeroed(a1);
            (e2 & KEEP_MASK) | (a1 & ADDR_MASK) | TABLE_FLAGS
        } else {
            e2
        };
        self.lv2.write(t2, i2, n2);
        let e1 = self.lv1.read(t1, i1);
        let leaf = (e1 & KEEP_MASK) | (hpa & ADDR_MASK) | LEAF_FLAGS;
        self.lv1.write(t1, i1, leaf);
        proof {
            lemma_rewrite_entry(e4, a3, TABLE_FLAGS);
            lemma_rewrite_entry(e3, a2, TABLE_FLAGS);
            lemma_rewrite_entry(e2, a1, TABLE_FLAGS);
            lemma_rewrite_entry(e1, hpa, LEAF_FLAGS);
            if f4 {
                lemma_aligned_address(a3);
            } else {
                lemma_find_addr(s0.lv3.addrs@, entry_address(e4));
            }
            if f3 {
                lemma_aligned_address(a2);
            } else {
                lemma_find_addr(s0.lv2.addrs@, entry_address(e3));
            }
            if f2 {
                lemma_aligned_address(a1);
            } else {
                lemma_find_addr(s0.lv1.addrs@, entry_address(e2));
            }
            assert(updated(s0.lv3, self.lv3, f4, entry_address(n4), t3 as int, t3 * 512 + i3, n3));
            assert(updated(s0.lv2, self.lv2, f3, entry_address(n3), t2 as int, t2 * 512 + i2, n2));
            assert(updated(s0.lv1, self.lv1, f2, entry_address(n2), t1 as int, t1 * 512 + i1, leaf));
            lemma_updated_find(s0.lv3, self.lv3, f4, entry_address(n4), t3 as int, t3 * 512 + i3, n3);
            lemma_updated_find(s0.lv2, self.lv2, f3, entry_address(n3), t2 as int, t2 * 512 + i2, n2);
            lemma_updated_find(s0.lv1, self.lv1, f2, entry_address(n2), t1 as int, t1 * 512 + i1, leaf);
            assert(self.lv4@[lv4_index(gpa)] == n4);
            assert(self.lv3.entry(t3 as int, lv3_index(gpa)) == n3);
            assert(self.lv2.entry(t2 as int, lv2_index(gpa)) == n2);
            assert(self.lv1.entry(t1 as int, lv1_index(gpa)) == leaf);
            if s0.tree_ok() {
                lemma_map_4k_frame(s0, *self, gpa, f4, f3, f2, t3 as int, t2 as int, t1 as int, n4, n3, n2, leaf);
            }
            assert forall|f: int| #[trigger] allocator.is_free(f) implies al2.is_free(f) && al3.is_free(f) && a0.is_free(f) by {
                assert(al2.is_free(f));
                assert(al3.is_free(f));
            }
            if s0.tables_in_use(a0) {
                assert forall|x: u64| (#[trigger] self.lv3.find(x)) is Some implies !allocator.is_free(x as int / 4096) by {
                    if s0.lv3.find(x) is Some {
                        assert(!a0.is_free(x as int / 4096));
                    }
                    if f4 {
                        lemma_find_addr_push(s0.lv3.addrs@, a3, x);
                        if x == a3 {
                            assert(!al3.is_free(a3 as int / 4096));
                        }
                    }
                }
                assert forall|x: u64| (#[trigger] self.lv2.find(x)) is Some implies !allocator.is_free(x as int / 4096) by {
                    if s0.lv2.find(x) is Some {
                        assert(!a0.is_free(x as int / 4096));
                    }
                    if f3 {
                        lemma_find_addr_push(s0.lv2.addrs@, a2, x);
                        if x == a2 {
                            assert(!al2.is_free(a2 as int / 4096));
                        }
                    }
                }
                assert forall|x: u64| (#[trigger] self.lv1.find(x)) is Some implies !allocator.is_free(x as int / 4096) by {
                    if s0.lv1.find(x) is Some {
                        assert(!a0.is_free(x as int / 4096));
                    }
                    if f2 {
                        lemma_find_addr_push(s0.lv1.addrs@, a1, x);
                    }
                }
            }
        }
        Ok(())
    }

    /// Maps the 2 MiB guest region holding `gpa` to the host region at
    /// `hpa`, readable, writable and executable with memory type 0, taking
    /// from the allocator a zeroed frame for each missing table on the way.
    /// The level-4 and level-3 entries on the way are present and not
    /// leaves. When the tables were a tree, they stay one, and every
    /// address outside the region translates as before. A failure changes
    /// no table; with the tables a tree, in use in the allocator and not at
    /// capacity, it comes only from the allocator running out of frames.
    pub fn map_2m(&mut self, gpa: u64, hpa: u64, allocator: &mut BitmapMemoryTable) -> (r: Result<(), &'static str>)
        requires
            old(self).wf(),
            old(allocator).wf(),
        ensures
            final(self).wf(),
            final(allocator).wf(),
            final(self).root_table == old(self).root_table,
            forall|f: int| #[trigger] final(allocator).is_free(f) ==> old(allocator).is_free(f),
            final(self).lv3.addrs@.len() <= old(self).lv3.addrs@.len() + 1,
            final(self).lv2.addrs@.len() <= old(self).lv2.addrs@.len() + 1,
            final(self).lv1 == old(self).lv1,
            r is Err ==> *final(self) == *old(self),
            r is Err && old(self).tree_ok() && old(self).tables_in_use(*old(allocator)) && old(self).has_room()
                ==> forall|f: int| !#[trigger] final(allocator).available(f),
            r is Ok ==> final(self).translate(gpa) == Some((hpa & ADDR_MASK) | (gpa & 0x1F_FFFF)),
            r is Ok ==> (final(self).leaf_2m(gpa) matches Some(e) && e & 0x3F == 0x7 && entry_leaf(e) && e & ADDR_MASK
                == hpa & ADDR_MASK),
            r is Ok ==> made_or_kept(Some(old(self).lv4@[lv4_index(gpa)]), final(self).lv4@[lv4_index(gpa)]),
            r is Ok ==> (final(self).lv3_entry(gpa) matches Some(e) && made_or_kept(old(self).lv3_entry(gpa), e)),
            old(self).tree_ok() && (old(self).lv3_entry(gpa) matches Some(e) && entry_present(e)) ==> r is Ok,
            old(self).tree_ok() && r is Ok ==> final(self).tree_ok(),
            old(self).tables_in_use(*old(allocator)) ==> final(self).tables_in_use(*final(allocator)),
            old(self).tree_ok() && r is Ok ==> forall|g: u64|
                (lv4_index(g) != lv4_index(gpa) || lv3_index(g) != lv3_index(gpa) || lv2_index(g) != lv2_index(gpa))
                    ==> #[trigger] final(self).translate(g) == old(self).translate(g),
    {
        proof {
            lemma_index_bounds(gpa);
        }
        let i4 = ((gpa >> 39) & 0x1FF) as usize;
        let i3 = ((gpa >> 30) & 0x1FF) as usize;
        let i2 = ((gpa >> 21) & 0x1FF) as usize;
        let ghost s0 = *self;
        let ghost a0 = *allocator;
        proof {
            assert(0u64 & 0x7 == 0) by (bit_vector);
        }

        let e4 = self.lv4[i4];
        let f4 = e4 & 0x7 == 0;
        let t3 = if f4 {
            self.lv3.addrs.len()
        } else {
            match self.lv3.find_table(e4 & ADDR_MASK) {
                Some(t) => t,
                None => {
                    return Err("EPT entry points to an unknown table");
                },
            }
        };
        let e3 = if f4 {
            0
        } else {
            self.lv3.read(t3, i3)
        };
        let f3 = e3 & 0x7 == 0;
        let t2 = if f3 {
            self.lv2.addrs.len()
        } else {
            match self.lv2.find_table(e3 & ADDR_MASK) {
                Some(t) => t,
                None => {
                    return Err("EPT entry points to an unknown table");
                },
            }
        };

        let a3 = if f4 {
            match Self::take_frame(&self.lv3, allocator) {
                Ok(a) => a,
                Err(e) => {
                    return Err(e);
                },
            }
        } else {
            0
        };
        let ghost al3 = *allocator;
        let a2 = if f3 {
            match Self::take_frame(&self.lv2, allocator) {
                Ok(a) => a,
                Err(e) => {
                    return Err(e);
                },
            }
        } else {
            0
        };
        let ghost al2 = *allocator;

        let n4 = if f4 {
            self.lv3.push_zeroed(a3);
            (e4 & KEEP_MASK) | (a3 & ADDR_MASK) | TABLE_FLAGS
        } else {
            e4
        };
        self.lv4.set(i4, n4);
        let n3 = if f3 {
            self.lv2.push_zeroed(a2);
            (e3 & KEEP_MASK) | (a2 & ADDR_MASK) | TABLE_FLAGS
        } else {
            e3
        };
        self.lv3.write(t3, i3, n3);
        let e2 = self.lv2.read(t2, i2);
        let leaf = (e2 & KEEP_MASK) | (hpa & ADDR_MASK) | LEAF_FLAGS;
        self.lv2.write(t2, i2, leaf);
        proof {
            lemma_rewrite_entry(e4, a3, TABLE_FLAGS);
            lemma_rewrite_entry(e3, a2, TABLE_FLAGS);
            lemma_rewrite_entry(e2, hpa, LEAF_FLAGS);
            if f4 {
                lemma_aligned_address(a3);
            } else {
                lemma_find_addr(s0.lv3.addrs@, entry_address(e4));
            }
            if f3 {
                lemma_aligned_address(a2);
            } else {
                lemma_find_addr(s0.lv2.addrs@, entry_address(e3));
            }
            assert(updated(s0.lv3, self.lv3, f4, entry_address(n4), t3 as int, t3 * 512 + i3, n3));
            assert(updated(s0.lv2, self.lv2, f3, entry_address(n3), t2 as int, t2 * 512 + i2, leaf));
            lemma_updated_find(s0.lv3, self.lv3, f4, entry_address(n4), t3 as int, t3 * 512 + i3, n3);
            lemma_updated_find(s0.lv2, self.lv2, f3, entry_address(n3), t2 as int, t2 * 512 + i2, leaf);
            assert(self.lv4@[lv4_index(gpa)] == n4);
            assert(self.lv3.entry(t3 as int, lv3_index(gpa)) == n3);
            assert(self.lv2.entry(t2 as int, lv2_index(gpa)) == leaf);
            if s0.tree_ok() {
                lemma_map_2m_frame(s0, *self, gpa, f4, f3, t3 as int, t2 as int, n4, n3, leaf);
            }
            assert forall|f: int| #[trigger] allocator.is_free(f) implies al2.is_free(f) && al3.is_free(f) && a0.is_free(f) by {
                assert(al2.is_free(f));
                assert(al3.is_free(f));
            }
            if s0.tables_in_use(a0) {
                assert forall|x: u64| (#[trigger] self.lv3.find(x)) is Some implies !allocator.is_free(x as int / 4096) by {
                    if s0.lv3.find(x) is Some {
                        assert(!a0.is_free(x as int / 4096));
                    }
                    if f4 {
                        lemma_find_addr_push(s0.lv3.addrs@, a3, x);
                        if x == a3 {
                            assert(!al3.is_free(a3 as int / 4096));
                        }
                    }
                }
                assert forall|x: u64| (#[trigger] self.lv2.find(x)) is Some implies !allocator.is_free(x as int / 4096) by {
                    if s0.lv2.find(x) is Some {
                        assert(!a0.is_free(x as int / 4096));
                    }
                    if f3 {
                        lemma_find_addr_push(s0.lv2.addrs@, a2, x);
                        if x == a2 {
                            assert(!al2.is_free(a2 as int / 4096));
                        }
                    }
                }
            }
        }
        Ok(())
    }

    /// Takes a free frame for a new table of `store`; fails when the
    /// allocator has none, when the store is full, or when the frame
    /// already holds a table of the store.
    fn take_frame(store: &TableStore, allocator: &mut BitmapMemoryTable) -> (r: Result<u64, &'static str>)
        requires
            store.wf(),
            old(allocator).wf(),
        ensures
            final(allocator).wf(),
            final(allocator).bitmap_addr == old(allocator).bitmap_addr,
            forall|f: int| #[trigger] final(allocator).is_free(f) ==> old(allocator).is_free(f),
            r matches Ok(a) ==> a % 4096 == 0 && !final(allocator).is_free(a as int / 4096),
            r matches Ok(a) ==> allocation_step(*old(allocator), *final(allocator), Some(a)) && store.find(a) is None
                && store.addrs@.len() < MAX_TABLES,
            r is Err ==> {
                ||| allocation_step(*old(allocator), *final(allocator), None)
                ||| (store.addrs@.len() >= MAX_TABLES && *final(allocator) == *old(allocator))
                ||| exists|a: u64| allocation_step(*old(allocator), *final(allocator), Some(a)) && #[trigger] store.find(a) is Some
            },
    {
        if store.addrs.len() >= MAX_TABLES {
            return Err("Too many EPT tables");
        }
        let frame = match allocator.allocate_frame() {
            Some(a) => a,
            None => {
                return Err("Failed to allocate EPT table frame");
            },
        };
        if store.find_table(frame).is_some() {
            return Err("EPT table frame already in use");
        }
        Ok(frame)
    }

    /// The host-physical address that `gpa` translates to, or `None` where
    /// the walk meets an entry that is not present.
    pub fn get_phys_addr(&self, gpa: u64) -> (r: Option<u64>)
        requires
            self.wf(),
        ensures
            r == self.translate(gpa),
    {
        proof {
            lemma_index_bounds(gpa);
        }
        let e4 = self.lv4[((gpa >> 39) & 0x1FF) as usize];
        if e4 & 0x7 == 0 {
            return None;
        }
        let t3 = match self.lv3.find_table(e4 & ADDR_MASK) {
            Some(t) => t,
            None => {
                return None;
            },
        };
        let e3 = self.lv3.read(t3, ((gpa >> 30) & 0x1FF) as usize);
        if e3 & 0x7 == 0 {
            return None;
        }
        let t2 = match self.lv2.find_table(e3 & ADDR_MASK) {
            Some(t) => t,
            None => {
                return None;
            },
        };
        let e2 = self.lv2.read(t2, ((gpa >> 21) & 0x1FF) as usize);
        if e2 & 0x7 == 0 {
            return None;
        }
        if e2 & 0x80 != 0 {
            return Some((e2 & ADDR_MASK) | (gpa & 0x1F_FFFF));
        }
        let t1 = match self.lv1.find_table(e2 & ADDR_MASK) {
            Some(t) => t,
            None => {
                return None;
            },
        };
        let e1 = self.lv1.read(t1, ((gpa >> 12) & 0x1FF) as usize);
        if e1 & 0x7 == 0 || e1 & 0x80 == 0 {
            return None;
        }
        Some((e1 & ADDR_MASK) | (gpa & 0xFFF))
    }

    /// The host-physical address of each guest byte from `gpa_start` up to
    /// `gpa_end` (exclusive), in order: where a byte-by-byte copy into guest
    /// memory lands. Fails on a reversed range or an address that does not
    /// translate.
    pub fn host_range(&self, gpa_start: u64, gpa_end: u64) -> (r: Result<Vec<u64>, &'static str>)
        requires
            self.wf(),
        ensures
            r is Ok <==> gpa_start <= gpa_end && forall|g: u64| gpa_start <= g < gpa_end ==> (#[trigger] self.translate(g)) is Some,
            r matches Ok(v) ==> v@.len() == gpa_end - gpa_start && forall|i: int|
                0 <= i < v@.len() ==> Some(#[trigger] v@[i]) == self.translate((gpa_start + i) as u64),
    {
        if gpa_start > gpa_end {
            return Err("Invalid GPA range");
        }
        let mut v: Vec<u64> = Vec::new();
        let mut gpa = gpa_start;
        while gpa < gpa_end
            invariant
                gpa_start <= gpa <= gpa_end,
                self.wf(),
                v@.len() == gpa - gpa_start,
                forall|g: u64| gpa_start <= g < gpa ==> (#[trigger] self.translate(g)) is Some,
                forall|i: int| 0 <= i < v@.len() ==> Some(#[trigger] v@[i]) == self.translate((gpa_start + i) as u64),
            decreases gpa_end - gpa,
        {
            match self.get_phys_addr(gpa) {
                Some(h) => v.push(h),
                None => {
                    return Err("Failed to get physical address");
                },
            }
            gpa = gpa + 1;
        }
        Ok(v)
    }

}

} // verus!
