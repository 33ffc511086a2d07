//! Host paging: the identity map the kernel runs on, and a walk of a
//! four-level x86-64 page table.
use vstd::prelude::*;

use crate::memory::{lemma_two_allocations, two_free, BitmapMemoryTable};
use crate::table::{find_addr, TableStore, TABLE_ENTRIES};

verus! {

/// PRESENT | WRITABLE | GLOBAL.
pub const BASE_FLAGS: u64 = 0x103;
/// HUGE_PAGE.
pub const HUGE_PAGE: u64 = 0x80;
/// Bits 51:12 of an entry: the physical address it points to.
pub const PHYS_MASK: u64 = 0x000F_FFFF_FFFF_F000;
pub open spec fn pte_present(e: u64) -> bool {
    e & 1 != 0
}

pub open spec fn pte_huge(e: u64) -> bool {
    e & HUGE_PAGE != 0
}

pub open spec fn pte_addr(e: u64) -> u64 {
    e & PHYS_MASK
}

/// Entry `i` of the table at `addr` in `store`.
pub open spec fn table_entry(store: TableStore, addr: u64, i: int) -> Option<u64> {
    match store.find(addr) {
        Some(t) => Some(store.entry(t, i)),
        None => None,
    }
}

/// The physical address that `va` translates to through the tables of
/// `store` rooted at `cr3`: `None` where an entry is not present, where a
/// table is missing, and where a huge bit stands at level 4 or level 1,
/// which this walk does not support.
pub open spec fn walk(store: TableStore, cr3: u64, va: u64) -> Option<u64> {
    match table_entry(store, cr3, ((va >> 39u64) & 0x1FF) as int) {
        None => None,
        Some(e4) => if !pte_present(e4) || pte_huge(e4) {
            None
        } else {
            match table_entry(store, pte_addr(e4), ((va >> 30u64) & 0x1FF) as int) {
                None => None,
                Some(e3) => if !pte_present(e3) {
                    None
                } else if pte_huge(e3) {
                    Some((pte_addr(e3) + (va & 0x3FFF_FFFF)) as u64)
                } else {
                    match table_entry(store, pte_addr(e3), ((va >> 21u64) & 0x1FF) as int) {
                        None => None,
                        Some(e2) => if !pte_present(e2) {
                            None
                        } else if pte_huge(e2) {
                            Some((pte_addr(e2) + (va & 0x1F_FFFF)) as u64)
                        } else {
                            match table_entry(store, pte_addr(e2), ((va >> 12u64) & 0x1FF) as int) {
                                None => None,
                                Some(e1) => if !pte_present(e1) || pte_huge(e1) {
                                    None
                                } else {
                                    Some((pte_addr(e1) + (va & 0xFFF)) as u64)
                                },
                            }
                        },
                    }
                },
            }
        }
    }
}

proof fn lemma_pt_index(va: u64)
    by (bit_vector)
    ensures
        (va >> 39u64) & 0x1FF < 512,
        (va >> 30u64) & 0x1FF < 512,
        (va >> 21u64) & 0x1FF < 512,
        (va >> 12u64) & 0x1FF < 512,
        (va & 0x3FFF_FFFF) < 0x4000_0000,
        (va & 0x1F_FFFF) < 0x20_0000,
        (va & 0xFFF) < 0x1000,
{
}

/// The page tables of the host, with the physical address of the level-4
/// table.
pub struct HostPageTables {
    pub cr3: u64,
    pub tables: TableStore,
}

/// Looks up entry `i` of the table at `addr`.
fn read_entry(store: &TableStore, addr: u64, i: usize) -> (r: Option<u64>)
    requires
        store.wf(),
        i < 512,
    ensures
        r == table_entry(*store, addr, i as int),
{
    match store.find_table(addr) {
        Some(t) => Some(store.read(t, i)),
        None => None,
    }
}

/// Walks the tables rooted at `cr3` for virtual address `addr`, honouring
/// 1 GiB and 2 MiB pages.
pub fn translate_addr(store: &TableStore, cr3: u64, addr: u64) -> (r: Option<u64>)
    requires
        store.wf(),
    ensures
        r == walk(*store, cr3, addr),
{
    proof {
        lemma_pt_index(addr);
    }
    let e4 = match read_entry(store, cr3, ((addr >> 39u64) & 0x1FF) as usize) {
        Some(e) => e,
        None => {
            return None;
        },
    };
    if e4 & 1 == 0 || e4 & HUGE_PAGE != 0 {
        return None;
    }
    let e3 = match read_entry(store, e4 & PHYS_MASK, ((addr >> 30u64) & 0x1FF) as usize) {
        Some(e) => e,
        None => {
            return None;
        },
    };
    if e3 & 1 == 0 {
        return None;
    }
    if e3 & HUGE_PAGE != 0 {
        proof {
            let x = e3;
            assert(x & PHYS_MASK <= 0x000F_FFFF_FFFF_F000) by (bit_vector);
        }
        return Some((e3 & PHYS_MASK) + (addr & 0x3FFF_FFFF));
    }
    let e2 = match read_entry(store, e3 & PHYS_MASK, ((addr >> 21u64) & 0x1FF) as usize) {
        Some(e) => e,
        None => {
            return None;
        },
    };
    if e2 & 1 == 0 {
        return None;
    }
    if e2 & HUGE_PAGE != 0 {
        proof {
            let x = e2;
            assert(x & PHYS_MASK <= 0x000F_FFFF_FFFF_F000) by (bit_vector);
        }
        return Some((e2 & PHYS_MASK) + (addr & 0x1F_FFFF));
    }
    let e1 = match read_entry(store, e2 & PHYS_MASK, ((addr >> 12u64) & 0x1FF) as usize) {
        Some(e) => e,
        None => {
            return None;
        },
    };
    if e1 & 1 == 0 || e1 & HUGE_PAGE != 0 {
        return None;
    }
    proof {
        let x = e1;
        assert(x & PHYS_MASK <= 0x000F_FFFF_FFFF_F000) by (bit_vector);
    }
    Some((e1 & PHYS_MASK) + (addr & 0xFFF))
}

proof fn lemma_identity_entry(i: u64, va: u64)
    by (bit_vector)
    requires
        i == (va >> 30u64) & 0x1FF,
        va < 0x80_0000_0000,
    ensures
        ((i << 30u64) | 0x183) & 1 != 0,
        ((i << 30u64) | 0x183) & 0x80 != 0,
        (((i << 30u64) | 0x183) & 0x000F_FFFF_FFFF_F000) + (va & 0x3FFF_FFFF) == va,
        (va >> 39u64) & 0x1FF == 0,
{
}

proof fn lemma_table_entry(f: u64)
    by (bit_vector)
    requires
        f % 4096 == 0,
        f < 0x10_0000_0000_0000,
    ensures
        (f | 0x103) & 1 != 0,
        (f | 0x103) & 0x80 == 0,
        (f | 0x103) & 0x000F_FFFF_FFFF_F000 == f,
{
}

/// Builds page tables that map the first 512 GiB onto themselves with
/// 1 GiB pages, present, writable and global: level-4 entry 0 points to a
/// level-3 table whose entry `i` maps `i` GiB.
pub fn init_page_table(frame_allocator: &mut BitmapMemoryTable) -> (r: Result<HostPageTables, &'static str>)
    requires
        old(frame_allocator).wf(),
    ensures
        final(frame_allocator).wf(),
        r matches Ok(pt) ==> pt.tables.wf() && forall|va: u64| va < 0x80_0000_0000 ==> #[trigger] walk(pt.tables, pt.cr3, va) == Some(va),
        r matches Ok(pt) ==> forall|va: u64| (va >> 39u64) & 0x1FF != 0 ==> #[trigger] walk(pt.tables, pt.cr3, va) is None,
        r is Err <==> !two_free(*old(frame_allocator)),
{
    let ghost t0 = *frame_allocator;
    let lv4_frame = match frame_allocator.allocate_frame() {
        Some(f) => f,
        None => {
            proof {
                lemma_two_allocations(t0, *frame_allocator, *frame_allocator, None, None);
            }
            return Err("No free frame for the level-4 table");
        },
    };
    let ghost t1 = *frame_allocator;
    let lv3_frame = match frame_allocator.allocate_frame() {
        Some(f) => f,
        None => {
            proof {
                lemma_two_allocations(t0, t1, *frame_allocator, Some(lv4_frame), None);
            }
            return Err("No free frame for the level-3 table");
        },
    };
    proof {
        lemma_two_allocations(t0, t1, *frame_allocator, Some(lv4_frame), Some(lv3_frame));
        assert(lv3_frame < 0x10_0000_0000_0000);
    }
    let mut tables = TableStore::new();
    let t4 = tables.push_zeroed(lv4_frame);
    let t3 = tables.push_zeroed(lv3_frame);
    tables.write(t4, 0, lv3_frame | BASE_FLAGS);
    let mut i: usize = 0;
    while i < TABLE_ENTRIES
        invariant
            i <= 512,
            tables.wf(),
            t4 == 0,
            t3 == 1,
            tables.addrs@ == seq![lv4_frame, lv3_frame],
            tables.entry(0, 0) == lv3_frame | BASE_FLAGS,
            forall|j: int| 1 <= j < 512 ==> #[trigger] tables.entry(0, j) == 0,
            forall|j: int| 0 <= j < i ==> #[trigger] tables.entry(1, j) == (((j as u64) << 30u64) | 0x183),
        decreases 512 - i,
    {
        let ghost pre = tables;
        tables.write(t3, i, ((i as u64) << 30u64) | BASE_FLAGS | HUGE_PAGE);
        proof {
            assert((((i as u64) << 30u64) | BASE_FLAGS | HUGE_PAGE) == (((i as u64) << 30u64) | 0x183)) by (bit_vector);
            assert forall|j: int| 0 <= j < i implies #[trigger] tables.entry(1, j) == pre.entry(1, j) by {}
            assert forall|j: int| 1 <= j < 512 implies #[trigger] tables.entry(0, j) == pre.entry(0, j) by {}
        }
        i = i + 1;
    }
    let pt = HostPageTables { cr3: lv4_frame, tables };
    proof {
        assert(pt.tables.find(lv4_frame) == Some(0int)) by {
            assert(pt.tables.addrs@.drop_last() =~= seq![lv4_frame]);
            assert(seq![lv4_frame].last() == lv4_frame);
            assert(find_addr(seq![lv4_frame], lv4_frame) == Some(0int));
            assert(pt.tables.addrs@.last() == lv3_frame);
        }
        assert(pt.tables.find(lv3_frame) == Some(1int));
        lemma_table_entry(lv3_frame);
        assert(0u64 & 1 == 0) by (bit_vector);
        assert forall|va: u64| (va >> 39u64) & 0x1FF != 0 implies #[trigger] walk(pt.tables, pt.cr3, va) is None by {
            lemma_pt_index(va);
            assert(pt.tables.entry(0, ((va >> 39u64) & 0x1FF) as int) == 0);
        }
        assert forall|va: u64| va < 0x80_0000_0000 implies #[trigger] walk(pt.tables, pt.cr3, va) == Some(va) by {
            let i = (va >> 30u64) & 0x1FF;
            lemma_identity_entry(i, va);
            lemma_pt_index(va);
            assert(pt.tables.entry(1, i as int) == ((i << 30u64) | 0x183));
        }
    }
    Ok(pt)
}

} // verus!
