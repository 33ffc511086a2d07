//! Port I/O virtualisation: the stub 8259 PIC pair, and the I/O bitmaps
//! that decide which ports exit.
use vstd::prelude::*;

use crate::memory::{lemma_two_allocations, two_free, BitmapMemoryTable};
use crate::regs::GuestRegisters;

verus! {

/// The exit qualification of an I/O instruction.
#[derive(Clone, Copy)]
pub struct QualIo {
    pub raw: u64,
}

impl QualIo {
    /// Access size minus one (bits 2:0).
    pub fn size(&self) -> (r: u64)
        ensures
            r == self.raw & 0x7,
    {
        self.raw & 0x7
    }

    /// 0 for OUT, 1 for IN (bit 3).
    pub fn direction(&self) -> (r: u64)
        ensures
            r == (self.raw >> 3u64) & 1,
            r <= 1,
    {
        proof {
            let x = self.raw;
            assert((x >> 3u64) & 1 <= 1) by (bit_vector);
        }
        (self.raw >> 3u64) & 1
    }

    /// The port (bits 31:16).
    pub fn port(&self) -> (r: u16)
        ensures
            r == ((self.raw >> 16u64) & 0xFFFF) as u16,
    {
        ((self.raw >> 16u64) & 0xFFFF) as u16
    }
}

proof fn lemma_low3(x: u8)
    by (bit_vector)
    ensures
        x & 7 < 8,
{
}

/// The state of a guest's serial port registers.
#[derive(Clone, Copy, Default)]
pub struct Serial {
    pub ier: u8,
    pub mcr: u8,
}

/// Where a PIC is in its initialisation sequence.
#[derive(Debug, Clone, Copy, PartialEq, Eq, Structural)]
pub enum InitPhase {
    Uninitialized,
    Phase1,
    Phase2,
    Phase3,
    Initialized,
}

/// Which register a read of a PIC's command port returns.
#[derive(Debug, Clone, Copy, PartialEq, Eq, Structural)]
pub enum ReadSel {
    IRR,
    ISR,
}

/// The primary and secondary 8259 as the guest sees them.
#[derive(Clone, Copy)]
pub struct PIC {
    pub primary_mask: u8,
    pub secondary_mask: u8,
    pub primary_phase: InitPhase,
    pub secondary_phase: InitPhase,
    pub primary_base: u8,
    pub secondary_base: u8,
    pub primary_irr: u8,
    pub primary_isr: u8,
    pub secondary_irr: u8,
    pub secondary_isr: u8,
    pub primary_read_sel: ReadSel,
    pub secondary_read_sel: ReadSel,
}

/// The next phase after a write to a data port, and whether the write is
/// a mask write.
pub open spec fn data_write(phase: InitPhase) -> (InitPhase, bool) {
    match phase {
        InitPhase::Uninitialized => (InitPhase::Uninitialized, true),
        InitPhase::Initialized => (InitPhase::Initialized, true),
        InitPhase::Phase1 => (InitPhase::Phase2, false),
        InitPhase::Phase2 => (InitPhase::Phase3, false),
        InitPhase::Phase3 => (InitPhase::Initialized, false),
    }
}

/// A command byte that a PIC accepts: ICW1, OCW3 read selects, EOI and
/// specific EOI.
pub open spec fn known_command(dx: u8) -> bool {
    dx == 0x11 || dx == 0x0A || dx == 0x0B || dx == 0x20 || (0x60 <= dx <= 0x67)
}

/// A write of `dx` to `port` that the PIC handles: any byte but to a
/// command port, where it must be a known command.
pub open spec fn command_ok(port: u16, dx: u8) -> bool {
    (port == 0x20 || port == 0xA0) ==> known_command(dx)
}

/// Whether `dx` is a command byte the PIC handles.
pub fn is_known_command(dx: u8) -> (r: bool)
    ensures
        r == known_command(dx),
{
    dx == 0x11 || dx == 0x0A || dx == 0x0B || dx == 0x20 || (0x60 <= dx && dx <= 0x67)
}

/// The PIC pair after the guest writes `dx` to `port`; `None` for a command
/// byte that is not handled.
pub open spec fn pic_after_out(p: PIC, port: u16, dx: u8) -> Option<PIC> {
    if port == 0x20 {
        if dx == 0x11 {
            Some(PIC { primary_phase: InitPhase::Phase1, ..p })
        } else if dx == 0x0A {
            Some(PIC { primary_read_sel: ReadSel::ISR, ..p })
        } else if dx == 0x0B {
            Some(PIC { primary_read_sel: ReadSel::IRR, ..p })
        } else if dx == 0x20 {
            Some(PIC { primary_isr: 0, ..p })
        } else if 0x60 <= dx <= 0x67 {
            Some(PIC { primary_isr: p.primary_isr & !(1u8 << (dx & 7)), ..p })
        } else {
            None
        }
    } else if port == 0x21 {
        let (next, mask) = data_write(p.primary_phase);
        if mask {
            Some(PIC { primary_mask: dx, ..p })
        } else if p.primary_phase == InitPhase::Phase1 {
            Some(PIC { primary_base: dx, primary_phase: next, ..p })
        } else {
            Some(PIC { primary_phase: next, ..p })
        }
    } else if port == 0xA0 {
        if dx == 0x11 {
            Some(PIC { secondary_phase: InitPhase::Phase1, ..p })
        } else if dx == 0x0A {
            Some(PIC { secondary_read_sel: ReadSel::ISR, ..p })
        } else if dx == 0x0B {
            Some(PIC { secondary_read_sel: ReadSel::IRR, ..p })
        } else if dx == 0x20 {
            Some(PIC { secondary_isr: 0, ..p })
        } else if 0x60 <= dx <= 0x67 {
            Some(PIC { secondary_isr: p.secondary_isr & !(1u8 << (dx & 7)), ..p })
        } else {
            None
        }
    } else if port == 0xA1 {
        let (next, mask) = data_write(p.secondary_phase);
        if mask {
            Some(PIC { secondary_mask: dx, ..p })
        } else if p.secondary_phase == InitPhase::Phase1 {
            Some(PIC { secondary_base: dx, secondary_phase: next, ..p })
        } else {
            Some(PIC { secondary_phase: next, ..p })
        }
    } else {
        Some(p)
    }
}

/// RAX after the guest reads PIC port `port`.
pub open spec fn pic_in_value(p: PIC, port: u16, rax: u64) -> u64 {
    if port == 0x20 {
        (if p.primary_read_sel == ReadSel::IRR {
            p.primary_irr
        } else {
            p.primary_isr
        }) as u64
    } else if port == 0xA0 {
        (if p.secondary_read_sel == ReadSel::IRR {
            p.secondary_irr
        } else {
            p.secondary_isr
        }) as u64
    } else if port == 0x21 && data_write(p.primary_phase).1 {
        p.primary_mask as u64
    } else if port == 0xA1 && data_write(p.secondary_phase).1 {
        p.secondary_mask as u64
    } else {
        rax
    }
}

/// Ports whose writes reach the PIC pair.
pub open spec fn pic_port(port: u16) -> bool {
    (0x20 <= port <= 0x21) || (0xA0 <= port <= 0xA1)
}

/// RAX after an IN from `port`: the PIC answers its ports, the PCI
/// configuration ports 0xC000 to 0xCFFF leave RAX alone, and every other
/// port reads as zero.
pub open spec fn io_in_value(p: PIC, port: u16, rax: u64) -> u64 {
    if 0xCF8 <= port <= 0xCFF {
        0
    } else if 0xC000 <= port <= 0xCFFF {
        rax
    } else if pic_port(port) {
        pic_in_value(p, port, rax)
    } else {
        0
    }
}

impl PIC {
    /// The state at reset.
    pub open spec fn new_spec() -> PIC {
        PIC {
            primary_mask: 0xFF,
            secondary_mask: 0xFF,
            primary_phase: InitPhase::Uninitialized,
            secondary_phase: InitPhase::Uninitialized,
            primary_base: 0,
            secondary_base: 0,
            primary_irr: 0,
            primary_isr: 0,
            secondary_irr: 0,
            secondary_isr: 0,
            primary_read_sel: ReadSel::IRR,
            secondary_read_sel: ReadSel::IRR,
        }
    }

    /// Both PICs uninitialised, all interrupts masked.
    pub fn new() -> (r: Self)
        ensures
            r == PIC::new_spec(),
    {
        PIC {
            primary_mask: 0xFF,
            secondary_mask: 0xFF,
            primary_phase: InitPhase::Uninitialized,
            secondary_phase: InitPhase::Uninitialized,
            primary_base: 0,
            secondary_base: 0,
            primary_irr: 0,
            primary_isr: 0,
            secondary_irr: 0,
            secondary_isr: 0,
            primary_read_sel: ReadSel::IRR,
            secondary_read_sel: ReadSel::IRR,
        }
    }

    /// Handles an I/O exit: an OUT updates the PIC pair from RAX, an IN
    /// loads RAX. A command byte that the PIC does not know is fatal, and is
    /// left to the caller to refuse.
    pub fn handle_io(&mut self, regs: &mut GuestRegisters, qual: QualIo)
        requires
            (qual.raw >> 3u64) & 1 == 0 ==> command_ok(qual.port_spec(), old(regs).rax as u8),
        ensures
            ({
                let port = qual.port_spec();
                if (qual.raw >> 3u64) & 1 == 0 {
                    &&& *final(regs) == *old(regs)
                    &&& *final(self) == if pic_port(port) {
                        pic_after_out(*old(self), port, old(regs).rax as u8).unwrap()
                    } else {
                        *old(self)
                    }
                } else {
                    *final(self) == *old(self) && *final(regs) == GuestRegisters {
                        rax: io_in_value(*old(self), port, old(regs).rax),
                        ..*old(regs)
                    }
                }
            }),
    {
        if qual.direction() == 0 {
            self.handle_io_out(regs, qual)
        } else {
            self.handle_io_in(regs, qual);
        }
    }

    /// Handles an IN.
    pub fn handle_io_in(&self, regs: &mut GuestRegisters, qual: QualIo)
        ensures
            *final(regs) == (GuestRegisters { rax: io_in_value(*self, qual.port_spec(), old(regs).rax), ..*old(regs) }),
    {
        let port = qual.port();
        if 0x0CF8 <= port && port <= 0x0CFF {
            regs.rax = 0;
        } else if 0xC000 <= port && port <= 0xCFFF {
        } else if (0x20 <= port && port <= 0x21) || (0xA0 <= port && port <= 0xA1) {
            self.handle_pic_in(regs, qual);
        } else {
            regs.rax = 0;
        }
    }

    /// Handles an OUT; only the PIC ports have an effect.
    pub fn handle_io_out(&mut self, regs: &GuestRegisters, qual: QualIo)
        requires
            command_ok(qual.port_spec(), regs.rax as u8),
        ensures
            *final(self) == if pic_port(qual.port_spec()) {
                pic_after_out(*old(self), qual.port_spec(), regs.rax as u8).unwrap()
            } else {
                *old(self)
            },
    {
        let port = qual.port();
        if (0x20 <= port && port <= 0x21) || (0xA0 <= port && port <= 0xA1) {
            self.handle_pic_out(regs, qual)
        }
    }

    /// Handles an IN from a PIC port.
    pub fn handle_pic_in(&self, regs: &mut GuestRegisters, qual: QualIo)
        ensures
            *final(regs) == (GuestRegisters { rax: pic_in_value(*self, qual.port_spec(), old(regs).rax), ..*old(regs) }),
    {
        let port = qual.port();
        if port == 0x20 {
            let v = match self.primary_read_sel {
                ReadSel::IRR => self.primary_irr,
                ReadSel::ISR => self.primary_isr,
            };
            regs.rax = v as u64;
        } else if port == 0xA0 {
            let v = match self.secondary_read_sel {
                ReadSel::IRR => self.secondary_irr,
                ReadSel::ISR => self.secondary_isr,
            };
            regs.rax = v as u64;
        } else if port == 0x21 {
            match self.primary_phase {
                InitPhase::Uninitialized | InitPhase::Initialized => {
                    regs.rax = self.primary_mask as u64;
                },
                _ => {},
            }
        } else if port == 0xA1 {
            match self.secondary_phase {
                InitPhase::Uninitialized | InitPhase::Initialized => {
                    regs.rax = self.secondary_mask as u64;
                },
                _ => {},
            }
        }
    }

    /// Handles an OUT to a PIC port with the byte in AL; a command byte the
    /// PIC does not know is fatal, and excluded here.
    pub fn handle_pic_out(&mut self, regs: &GuestRegisters, qual: QualIo)
        requires
            command_ok(qual.port_spec(), regs.rax as u8),
        ensures
            pic_after_out(*old(self), qual.port_spec(), regs.rax as u8) is Some,
            *final(self) == pic_after_out(*old(self), qual.port_spec(), regs.rax as u8).unwrap(),
    {
        let dx = regs.rax as u8;
        let port = qual.port();
        if port == 0x20 {
            if dx == 0x11 {
                self.primary_phase = InitPhase::Phase1;
            } else if dx == 0x0A {
                self.primary_read_sel = ReadSel::ISR;
            } else if dx == 0x0B {
                self.primary_read_sel = ReadSel::IRR;
            } else if dx == 0x20 {
                self.primary_isr = 0;
            } else if 0x60 <= dx && dx <= 0x67 {
                let irq = dx & 0x7;
                proof {
                    lemma_low3(dx);
                }
                self.primary_isr = self.primary_isr & !(1u8 << irq);
            } else {
                assert(false);
            }
        } else if port == 0x21 {
            match self.primary_phase {
                InitPhase::Uninitialized | InitPhase::Initialized => self.primary_mask = dx,
                InitPhase::Phase1 => {
                    self.primary_base = dx;
                    self.primary_phase = InitPhase::Phase2;
                },
                InitPhase::Phase2 => {
                    self.primary_phase = InitPhase::Phase3;
                },
                InitPhase::Phase3 => {
                    self.primary_phase = InitPhase::Initialized;
                },
            }
        } else if port == 0xA0 {
            if dx == 0x11 {
                self.secondary_phase = InitPhase::Phase1;
            } else if dx == 0x0A {
                self.secondary_read_sel = ReadSel::ISR;
            } else if dx == 0x0B {
                self.secondary_read_sel = ReadSel::IRR;
            } else if dx == 0x20 {
                self.secondary_isr = 0;
            } else if 0x60 <= dx && dx <= 0x67 {
                let irq = dx & 0x7;
                proof {
                    lemma_low3(dx);
                }
                self.secondary_isr = self.secondary_isr & !(1u8 << irq);
            } else {
                assert(false);
            }
        } else if port == 0xA1 {
            match self.secondary_phase {
                InitPhase::Uninitialized | InitPhase::Initialized => self.secondary_mask = dx,
                InitPhase::Phase1 => {
                    self.secondary_base = dx;
                    self.secondary_phase = InitPhase::Phase2;
                },
                InitPhase::Phase2 => {
                    self.secondary_phase = InitPhase::Phase3;
                },
                InitPhase::Phase3 => {
                    self.secondary_phase = InitPhase::Initialized;
                },
            }
        }
    }
}

/// Whether bit `b` of byte `w` is set.
pub open spec fn bit8(w: u8, b: u8) -> bool {
    w & (1u8 << b) != 0
}

proof fn lemma_bit8_clear(w: u8, a: u8, b: u8)
    by (bit_vector)
    requires
        a < 8,
        b < 8,
    ensures
        bit8(w & !(1u8 << a), b) == (a != b && bit8(w, b)),
        bit8(0xFF, b),
{
}

/// The two 4 KiB I/O bitmaps: A for ports 0 to 0x7FFF, B for the rest. A set
/// bit makes an access to its port exit.
pub struct IOBitmap {
    /// Physical address of bitmap A.
    pub bitmap_a: u64,
    /// Physical address of bitmap B.
    pub bitmap_b: u64,
    /// The contents of bitmap A.
    pub a: Vec<u8>,
    /// The contents of bitmap B.
    pub b: Vec<u8>,
}

impl IOBitmap {
    pub open spec fn wf(&self) -> bool {
        self.a@.len() == 4096 && self.b@.len() == 4096
    }

    /// Whether an access to `port` exits.
    pub open spec fn exits(&self, port: int) -> bool {
        if port < 0x8000 {
            bit8(self.a@[port / 8], (port % 8) as u8)
        } else {
            bit8(self.b@[(port - 0x8000) / 8], (port % 8) as u8)
        }
    }

    /// Whether an access to `port` exits.
    pub fn port_exits(&self, port: u16) -> (r: bool)
        requires
            self.wf(),
        ensures
            r == self.exits(port as int),
    {
        let bit = (port % 8) as u8;
        if port < 0x8000 {
            self.a[(port / 8) as usize] & (1u8 << bit) != 0
        } else {
            self.b[((port - 0x8000) / 8) as usize] & (1u8 << bit) != 0
        }
    }

    /// Allocates the two bitmap frames; every port exits.
    pub fn new(frame_allocator: &mut BitmapMemoryTable) -> (r: Result<Self, &'static str>)
        requires
            old(frame_allocator).wf(),
        ensures
            final(frame_allocator).wf(),
            r matches Ok(m) ==> m.wf() && forall|p: int| 0 <= p <= 0xFFFF ==> #[trigger] m.exits(p),
            r matches Ok(m) ==> m.bitmap_a != m.bitmap_b && m.bitmap_a % 4096 == 0 && m.bitmap_b % 4096 == 0,
            r is Err <==> !two_free(*old(frame_allocator)),
            r is Err ==> forall|g: int| !#[trigger] final(frame_allocator).available(g),
    {
        let ghost t0 = *frame_allocator;
        let bitmap_a = match frame_allocator.allocate_frame() {
            Some(f) => f,
            None => {
                proof {
                    lemma_two_allocations(t0, *frame_allocator, *frame_allocator, None, None);
                }
                return Err("Failed to allocate I/O bitmap A");
            },
        };
        let ghost t1 = *frame_allocator;
        let bitmap_b = match frame_allocator.allocate_frame() {
            Some(f) => f,
            None => {
                proof {
                    lemma_two_allocations(t0, t1, *frame_allocator, Some(bitmap_a), None);
                }
                return Err("Failed to allocate I/O bitmap B");
            },
        };
        proof {
            lemma_two_allocations(t0, t1, *frame_allocator, Some(bitmap_a), Some(bitmap_b));
        }
        let mut m = IOBitmap { bitmap_a, bitmap_b, a: Vec::new(), b: Vec::new() };
        m.fill();
        Ok(m)
    }

    fn fill(&mut self)
        ensures
            final(self).wf(),
            final(self).bitmap_a == old(self).bitmap_a,
            final(self).bitmap_b == old(self).bitmap_b,
            forall|p: int| 0 <= p <= 0xFFFF ==> #[trigger] final(self).exits(p),
    {
        let mut a: Vec<u8> = Vec::new();
        let mut b: Vec<u8> = Vec::new();
        let mut k: usize = 0;
        while k < 4096
            invariant
                k <= 4096,
                a@.len() == k,
                b@.len() == k,
                forall|j: int| 0 <= j < k ==> #[trigger] a@[j] == 0xFF,
                forall|j: int| 0 <= j < k ==> #[trigger] b@[j] == 0xFF,
            decreases 4096 - k,
        {
            a.push(0xFF);
            b.push(0xFF);
            k = k + 1;
        }
        self.a = a;
        self.b = b;
        assert forall|p: int| 0 <= p <= 0xFFFF implies #[trigger] self.exits(p) by {
            lemma_bit8_clear(0xFF, 0, (p % 8) as u8);
            if p < 0x8000 {
                assert(self.a@[p / 8] == 0xFF);
            } else {
                assert(self.b@[(p - 0x8000) / 8] == 0xFF);
            }
        }
    }

    /// Every port exits except the legacy serial range 0x2F8 to 0x3FF and
    /// the timer ports 0x40 to 0x47, which the guest reaches directly.
    pub fn setup(&mut self)
        ensures
            final(self).wf(),
            final(self).bitmap_a == old(self).bitmap_a,
            final(self).bitmap_b == old(self).bitmap_b,
            forall|p: int|
                0 <= p <= 0xFFFF ==> #[trigger] final(self).exits(p) == !((0x2F8 <= p <= 0x3FF) || (0x40 <= p
                    <= 0x47)),
    {
        self.fill();
        self.set_io_ports(0x02F8, 0x03FF);
        self.set_io_ports(0x0040, 0x0047);
    }

    /// Lets the guest reach ports `start` to `end` (inclusive) without an exit.
    pub fn set_io_ports(&mut self, start: u16, end: u16)
        requires
            old(self).wf(),
        ensures
            final(self).wf(),
            final(self).bitmap_a == old(self).bitmap_a,
            final(self).bitmap_b == old(self).bitmap_b,
            forall|p: int|
                0 <= p <= 0xFFFF ==> #[trigger] final(self).exits(p) == (old(self).exits(p) && !(start <= p
                    <= end)),
    {
        let mut port: u32 = start as u32;
        while port <= end as u32
            invariant
                self.wf(),
                self.bitmap_a == old(self).bitmap_a,
                self.bitmap_b == old(self).bitmap_b,
                start <= port <= 0x10000,
                port <= end as u32 + 1 || port == start,
                forall|p: int|
                    0 <= p <= 0xFFFF ==> #[trigger] self.exits(p) == (old(self).exits(p) && !(start <= p < port)),
            decreases end as u32 + 1 - port,
        {
            let ghost pre = *self;
            let bit_index = (port % 8) as u8;
            if port <= 0x7FFF {
                let byte_index = (port / 8) as usize;
                let w = self.a[byte_index];
                self.a.set(byte_index, w & !(1u8 << bit_index));
                assert forall|p: int| 0 <= p <= 0xFFFF implies #[trigger] self.exits(p) == (pre.exits(p) && p
                    != port) by {
                    if p < 0x8000 && p / 8 == byte_index {
                        lemma_bit8_clear(w, bit_index, (p % 8) as u8);
                    }
                }
            } else {
                let byte_index = ((port - 0x8000) / 8) as usize;
                let w = self.b[byte_index];
                self.b.set(byte_index, w & !(1u8 << bit_index));
                assert forall|p: int| 0 <= p <= 0xFFFF implies #[trigger] self.exits(p) == (pre.exits(p) && p
                    != port) by {
                    if p >= 0x8000 && (p - 0x8000) / 8 == byte_index {
                        lemma_bit8_clear(w, bit_index, (p % 8) as u8);
                    }
                }
            }
            port = port + 1;
        }
    }
}

impl QualIo {
    pub open spec fn port_spec(&self) -> u16 {
        ((self.raw >> 16u64) & 0xFFFF) as u16
    }
}

} // verus!
