//! A store of 512-entry page tables, each named by the physical address of
//! the frame that holds it.
use vstd::prelude::*;

verus! {

/// Number of entries in one page table.
pub const TABLE_ENTRIES: usize = 512;

/// The position of the last table stored at address `a`.
pub open spec fn find_addr(addrs: Seq<u64>, a: u64) -> Option<int>
    decreases addrs.len(),
{
    if addrs.len() == 0 {
        None
    } else if addrs.last() == a {
        Some(addrs.len() - 1)
    } else {
        find_addr(addrs.drop_last(), a)
    }
}

/// A found position is in bounds and holds the address looked for.
pub proof fn lemma_find_addr(addrs: Seq<u64>, a: u64)
    ensures
        match find_addr(addrs, a) {
            Some(t) => 0 <= t < addrs.len() && addrs[t] == a,
            None => forall|i: int| 0 <= i < addrs.len() ==> addrs[i] != a,
        },
    decreases addrs.len(),
{
    if addrs.len() > 0 && addrs.last() != a {
        let rest = addrs.drop_last();
        lemma_find_addr(rest, a);
        assert forall|i: int| 0 <= i < rest.len() implies rest[i] == addrs[i] by {}
    }
}

/// Appending an address makes it the one found for that address, and leaves
/// the others where they were.
pub proof fn lemma_find_addr_push(addrs: Seq<u64>, x: u64, a: u64)
    ensures
        find_addr(addrs.push(x), a) == if x == a {
            Some(addrs.len() as int)
        } else {
            find_addr(addrs, a)
        },
{
    assert(addrs.push(x).drop_last() =~= addrs);
}

/// Most tables one store holds.
pub const MAX_TABLES: usize = 0x10_0000;

/// Page tables laid out one after another: table `t` has the physical
/// address `addrs[t]` and its entries at `entries[t * 512 ..][..512]`.
pub struct TableStore {
    pub addrs: Vec<u64>,
    pub entries: Vec<u64>,
}

impl TableStore {
    pub open spec fn wf(&self) -> bool {
        &&& self.entries@.len() == self.addrs@.len() * 512
        &&& self.addrs@.len() <= MAX_TABLES
    }

    /// The table stored at physical address `a`.
    pub open spec fn find(&self, a: u64) -> Option<int> {
        find_addr(self.addrs@, a)
    }

    /// Entry `i` of table `t`.
    pub open spec fn entry(&self, t: int, i: int) -> u64 {
        self.entries@[t * 512 + i]
    }

    /// An empty store.
    pub fn new() -> (r: Self)
        ensures
            r.wf(),
            r.addrs@.len() == 0,
    {
        TableStore { addrs: Vec::new(), entries: Vec::new() }
    }

    /// The position of the table at physical address `a`.
    pub fn find_table(&self, a: u64) -> (r: Option<usize>)
        requires
            self.wf(),
        ensures
            r matches Some(t) ==> self.find(a) == Some(t as int) && t < self.addrs@.len(),
            r is None ==> self.find(a) is None,
    {
        let mut i = self.addrs.len();
        assert(self.addrs@.subrange(0, i as int) =~= self.addrs@);
        while i > 0
            invariant
                i <= self.addrs@.len(),
                find_addr(self.addrs@, a) == find_addr(self.addrs@.subrange(0, i as int), a),
            decreases i,
        {
            assert(self.addrs@.subrange(0, i as int).drop_last() =~= self.addrs@.subrange(0, i - 1));
            if self.addrs[i - 1] == a {
                return Some(i - 1);
            }
            i = i - 1;
        }
        None
    }

    /// Entry `i` of table `t`.
    pub fn read(&self, t: usize, i: usize) -> (r: u64)
        requires
            self.wf(),
            t < self.addrs@.len(),
            i < 512,
        ensures
            r == self.entry(t as int, i as int),
    {
        assert(t * 512 + i < self.addrs@.len() * 512) by (nonlinear_arith)
            requires
                t < self.addrs@.len(),
                i < 512,
                self.addrs@.len() <= 0x10_0000,
        ;
        self.entries[t * TABLE_ENTRIES + i]
    }

    /// Overwrites entry `i` of table `t` with `v`.
    pub fn write(&mut self, t: usize, i: usize, v: u64)
        requires
            old(self).wf(),
            t < old(self).addrs@.len(),
            i < 512,
        ensures
            final(self).wf(),
            final(self).addrs@ == old(self).addrs@,
            final(self).entries@ == old(self).entries@.update(t * 512 + i, v),
    {
        assert(t * 512 + i < self.addrs@.len() * 512) by (nonlinear_arith)
            requires
                t < self.addrs@.len(),
                i < 512,
                self.addrs@.len() <= 0x10_0000,
        ;
        self.entries.set(t * TABLE_ENTRIES + i, v);
    }

    /// Adds a zeroed table at physical address `a` and returns its position.
    pub fn push_zeroed(&mut self, a: u64) -> (r: usize)
        requires
            old(self).wf(),
            old(self).addrs@.len() < MAX_TABLES,
        ensures
            final(self).wf(),
            r == old(self).addrs@.len(),
            final(self).addrs@ == old(self).addrs@.push(a),
            forall|f: u64| #[trigger] final(self).find(f) == if f == a {
                Some(r as int)
            } else {
                old(self).find(f)
            },
            forall|j: int| 0 <= j < 512 ==> #[trigger] final(self).entry(r as int, j) == 0,
            forall|j: int| 0 <= j < old(self).entries@.len() ==> #[trigger] final(self).entries@[j] == old(self).entries@[j],
            forall|p: int|
                0 <= p < final(self).entries@.len() ==> #[trigger] final(self).entries@[p] == if p < old(
                    self,
                ).entries@.len() {
                    old(self).entries@[p]
                } else {
                    0
                },
    {
        let r = self.addrs.len();
        let ghost pre = self.entries@;
        self.addrs.push(a);
        let mut k: usize = 0;
        while k < TABLE_ENTRIES
            invariant
                k <= 512,
                self.addrs@ == old(self).addrs@.push(a),
                self.entries@.len() == pre.len() + k,
                pre.len() == r * 512,
                forall|j: int| 0 <= j < pre.len() ==> #[trigger] self.entries@[j] == pre[j],
                forall|j: int| pre.len() <= j < pre.len() + k ==> #[trigger] self.entries@[j] == 0,
            decreases 512 - k,
        {
            self.entries.push(0);
            k = k + 1;
        }
        proof {
            assert forall|f: u64| #[trigger] self.find(f) == if f == a {
                Some(r as int)
            } else {
                old(self).find(f)
            } by {
                lemma_find_addr_push(old(self).addrs@, a, f);
            }
        }
        r
    }
}

} // verus!
