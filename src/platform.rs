//! Services of the host kernel that the hypervisor leans on: the CPU
//! vendor, the tick counter of the timer interrupt, and the list of
//! interrupt subscribers.
use vstd::prelude::*;

use crate::cpuid::{host_cpuid, CpuidResult};

verus! {

/// Leaf 0 spells "AuthenticAMD".
pub open spec fn vendor_is_amd(c: CpuidResult) -> bool {
    c.ebx == 0x6874_7541 && c.edx == 0x6974_6e65 && c.ecx == 0x444d_4163
}

/// Leaf 0 spells "GenuineIntel".
pub open spec fn vendor_is_intel(c: CpuidResult) -> bool {
    c.ebx == 0x756e_6547 && c.edx == 0x4965_6e69 && c.ecx == 0x6c65_746e
}

/// Whether CPUID leaf 0 names AMD.
pub fn is_amd_vendor(c: CpuidResult) -> (r: bool)
    ensures
        r == vendor_is_amd(c),
{
    c.ebx == 0x6874_7541 && c.edx == 0x6974_6e65 && c.ecx == 0x444d_4163
}

/// Whether CPUID leaf 0 names Intel.
pub fn is_intel_vendor(c: CpuidResult) -> (r: bool)
    ensures
        r == vendor_is_intel(c),
{
    c.ebx == 0x756e_6547 && c.edx == 0x4965_6e69 && c.ecx == 0x6c65_746e
}

/// Whether this processor is AMD's.
pub fn is_amd() -> (r: bool)
    ensures
        exists|c: CpuidResult| r == #[trigger] vendor_is_amd(c),
{
    let c = host_cpuid(0, 0);
    is_amd_vendor(c)
}

/// Whether this processor is Intel's.
pub fn is_intel() -> (r: bool)
    ensures
        exists|c: CpuidResult| r == #[trigger] vendor_is_intel(c),
{
    let c = host_cpuid(0, 0);
    is_intel_vendor(c)
}

/// Timer interrupts counted since boot.
pub struct TickCounter {
    pub ticks: usize,
}

impl TickCounter {
    /// No tick yet.
    pub fn new() -> (r: Self)
        ensures
            r.ticks == 0,
    {
        TickCounter { ticks: 0 }
    }
}

/// Counts one timer interrupt; the count wraps around.
pub fn tick(counter: &mut TickCounter)
    ensures
        final(counter).ticks == if old(counter).ticks == usize::MAX {
            0
        } else {
            old(counter).ticks + 1
        },
{
    if counter.ticks == usize::MAX {
        counter.ticks = 0;
    } else {
        counter.ticks = counter.ticks + 1;
    }
}

/// Timer interrupts counted so far.
pub fn get_ticks(counter: &TickCounter) -> (r: usize)
    ensures
        r == counter.ticks,
{
    counter.ticks
}

/// What the CPU pushed when an interrupt arrived.
#[derive(Clone, Copy, Debug)]
pub struct InterruptContext {
    pub vector: u8,
    pub instruction_pointer: u64,
    pub code_segment: u64,
    pub cpu_flags: u64,
    pub stack_pointer: u64,
    pub stack_segment: u64,
}

/// A callback to run on every interrupt, by address, with the opaque
/// context handed to it.
#[derive(Clone, Copy, Debug, PartialEq, Eq, Structural)]
pub struct Subscriber {
    pub callback: usize,
    pub context: usize,
}

/// Slots for subscribers.
pub const MAX_SUBSCRIBERS: usize = 10;

/// The subscriber slots, each empty or holding one subscriber.
pub struct Subscribers {
    pub slots: Vec<Option<Subscriber>>,
}

impl Subscribers {
    pub open spec fn wf(&self) -> bool {
        self.slots@.len() == MAX_SUBSCRIBERS
    }

    /// All slots empty.
    pub fn new() -> (r: Self)
        ensures
            r.wf(),
            forall|i: int| 0 <= i < MAX_SUBSCRIBERS ==> #[trigger] r.slots@[i] is None,
    {
        let mut slots: Vec<Option<Subscriber>> = Vec::new();
        let mut k: usize = 0;
        while k < MAX_SUBSCRIBERS
            invariant
                k <= MAX_SUBSCRIBERS,
                slots@.len() == k,
                forall|i: int| 0 <= i < k ==> #[trigger] slots@[i] is None,
            decreases MAX_SUBSCRIBERS - k,
        {
            slots.push(None);
            k = k + 1;
        }
        Subscribers { slots }
    }
}

/// The first empty slot, if any.
pub open spec fn first_empty(slots: Seq<Option<Subscriber>>, i: int) -> bool {
    0 <= i < slots.len() && slots[i] is None && forall|j: int| 0 <= j < i ==> !(#[trigger] slots[j] is None)
}

/// The first slot holding `callback`, if any.
pub open spec fn first_with(slots: Seq<Option<Subscriber>>, callback: usize, i: int) -> bool {
    &&& 0 <= i < slots.len()
    &&& slots[i] matches Some(s) && s.callback == callback
    &&& forall|j: int| 0 <= j < i ==> !(#[trigger] slots[j] matches Some(s) && s.callback == callback)
}

/// Puts a subscriber in the first empty slot; fails when every slot is
/// taken.
pub fn subscribe(subscribers: &mut Subscribers, callback: usize, context: usize) -> (r: Result<(), &'static str>)
    requires
        old(subscribers).wf(),
    ensures
        final(subscribers).wf(),
        r is Err <==> forall|i: int| 0 <= i < MAX_SUBSCRIBERS ==> !(#[trigger] old(subscribers).slots@[i] is None),
        r is Err ==> final(subscribers).slots@ == old(subscribers).slots@,
        forall|i: int|
            first_empty(old(subscribers).slots@, i) ==> final(subscribers).slots@ == old(subscribers).slots@.update(
                i,
                Some(Subscriber { callback, context }),
            ),
{
    let mut k: usize = 0;
    while k < subscribers.slots.len()
        invariant
            subscribers.wf(),
            k <= MAX_SUBSCRIBERS,
            subscribers.slots@ == old(subscribers).slots@,
            forall|j: int| 0 <= j < k ==> !(#[trigger] subscribers.slots@[j] is None),
        decreases MAX_SUBSCRIBERS - k,
    {
        if subscribers.slots[k].is_none() {
            subscribers.slots.set(k, Some(Subscriber { callback, context }));
            proof {
                assert forall|i: int| first_empty(old(subscribers).slots@, i) implies i == k by {
                    if i < k {
                    } else if i > k {
                        assert(!(old(subscribers).slots@[k as int] is None));
                    }
                }
            }
            return Ok(());
        }
        k = k + 1;
    }
    Err("No available subscriber slots")
}

/// Empties the first slot holding `callback`; fails when none does.
pub fn unsubscribe(subscribers: &mut Subscribers, callback: usize) -> (r: Result<(), &'static str>)
    requires
        old(subscribers).wf(),
    ensures
        final(subscribers).wf(),
        r is Err <==> forall|i: int|
            0 <= i < MAX_SUBSCRIBERS ==> !(#[trigger] old(subscribers).slots@[i] matches Some(s) && s.callback
                == callback),
        r is Err ==> final(subscribers).slots@ == old(subscribers).slots@,
        forall|i: int|
            first_with(old(subscribers).slots@, callback, i) ==> final(subscribers).slots@ == old(
                subscribers,
            ).slots@.update(i, None),
{
    let mut k: usize = 0;
    while k < subscribers.slots.len()
        invariant
            subscribers.wf(),
            k <= MAX_SUBSCRIBERS,
            subscribers.slots@ == old(subscribers).slots@,
            forall|j: int|
                0 <= j < k ==> !(#[trigger] subscribers.slots@[j] matches Some(s) && s.callback == callback),
        decreases MAX_SUBSCRIBERS - k,
    {
        let found = match subscribers.slots[k] {
            Some(s) => s.callback == callback,
            None => false,
        };
        if found {
            subscribers.slots.set(k, None);
            proof {
                assert forall|i: int| first_with(old(subscribers).slots@, callback, i) implies i == k by {
                    if i > k {
                        assert(old(subscribers).slots@[k as int] matches Some(s) && s.callback == callback);
                    }
                }
            }
            return Ok(());
        }
        k = k + 1;
    }
    Err("Subscriber not found")
}

/// The subscribers held by `slots`, in slot order.
pub open spec fn active(slots: Seq<Option<Subscriber>>) -> Seq<Subscriber>
    decreases slots.len(),
{
    if slots.len() == 0 {
        Seq::empty()
    } else {
        let rest = active(slots.drop_last());
        match slots.last() {
            Some(s) => rest.push(s),
            None => rest,
        }
    }
}

/// The subscribers to call for an interrupt, in slot order.
pub fn dispatch_to_subscribers(subscribers: &Subscribers) -> (r: Vec<Subscriber>)
    requires
        subscribers.wf(),
    ensures
        r@ == active(subscribers.slots@),
{
    let mut r: Vec<Subscriber> = Vec::new();
    let mut k: usize = 0;
    while k < subscribers.slots.len()
        invariant
            k <= subscribers.slots@.len(),
            r@ == active(subscribers.slots@.subrange(0, k as int)),
        decreases subscribers.slots@.len() - k,
    {
        assert(subscribers.slots@.subrange(0, k + 1).drop_last() =~= subscribers.slots@.subrange(0, k as int));
        match subscribers.slots[k] {
            Some(s) => {
                r.push(s);
            },
            None => {},
        }
        k = k + 1;
    }
    assert(subscribers.slots@.subrange(0, k as int) =~= subscribers.slots@);
    r
}

} // verus!
