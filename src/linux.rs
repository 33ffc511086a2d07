//! The Linux x86 boot protocol: the setup header of a bzImage and the
//! zero page (`boot_params`) handed to the kernel.
use vstd::prelude::*;

use crate::guest::{LAYOUT_CMDLINE, LAYOUT_INITRD};
use crate::memory::Range;

verus! {

/// Offset of the setup header in a bzImage and in the zero page.
pub const HEADER_OFFSET: usize = 0x1F1;
/// Size of the setup header this loader knows (up to `kernel_info_offset`).
pub const HEADER_SIZE: usize = 0x7B;
/// Size of the zero page.
pub const BOOT_PARAMS_SIZE: usize = 0x1000;
/// Offset of the E820 entry count in the zero page.
pub const E820_ENTRIES_OFFSET: usize = 0x1E8;
/// Offset of the E820 map in the zero page.
pub const E820_MAP_OFFSET: usize = 0x2D0;
/// Size of one E820 entry.
pub const E820_ENTRY_SIZE: usize = 20;
/// Entries the E820 map holds.
pub const E820MAX: usize = 128;

/// Byte `i` (0 = least significant) of `v`.
pub open spec fn byte_of(v: u64, i: u64) -> u8 {
    ((v >> (8 * i)) & 0xFF) as u8
}

/// The little-endian u64 at `off`.
pub open spec fn le_u64(s: Seq<u8>, off: int) -> int {
    s[off] as int + 256 * (s[off + 1] as int + 256 * (s[off + 2] as int + 256 * (s[off + 3] as int + 256 * (
    s[off + 4] as int + 256 * (s[off + 5] as int + 256 * (s[off + 6] as int + 256 * (s[off + 7] as int + 256 * 0)))))))
}

/// The little-endian u16 at `off`.
pub open spec fn le_u16(s: Seq<u8>, off: int) -> int {
    s[off] as int + 256 * (s[off + 1] as int + 256 * 0)
}

/// The little-endian u32 at `off`.
pub open spec fn le_u32(s: Seq<u8>, off: int) -> int {
    s[off] as int + 256 * (s[off + 1] as int + 256 * (s[off + 2] as int + 256 * (s[off + 3] as int + 256 * 0)))
}

proof fn lemma_bytes_of(v: u64)
    ensures
        v as int == byte_of(v, 0) as int + 256 * (byte_of(v, 1) as int + 256 * (byte_of(v, 2) as int + 256 * (
        byte_of(v, 3) as int + 256 * (byte_of(v, 4) as int + 256 * (byte_of(v, 5) as int + 256 * (byte_of(v, 6) as int
            + 256 * (byte_of(v, 7) as int + 256 * 0))))))),
{
    let b0 = byte_of(v, 0);
    let b1 = byte_of(v, 1);
    let b2 = byte_of(v, 2);
    let b3 = byte_of(v, 3);
    let b4 = byte_of(v, 4);
    let b5 = byte_of(v, 5);
    let b6 = byte_of(v, 6);
    let b7 = byte_of(v, 7);
    assert(v == b0 as u64 + 256 * (b1 as u64 + 256 * (b2 as u64 + 256 * (b3 as u64 + 256 * (b4 as u64 + 256 * (
    b5 as u64 + 256 * (b6 as u64 + 256 * b7 as u64))))))) by (bit_vector)
        requires
            b0 == ((v >> 0) & 0xFF) as u8,
            b1 == ((v >> 8) & 0xFF) as u8,
            b2 == ((v >> 16) & 0xFF) as u8,
            b3 == ((v >> 24) & 0xFF) as u8,
            b4 == ((v >> 32) & 0xFF) as u8,
            b5 == ((v >> 40) & 0xFF) as u8,
            b6 == ((v >> 48) & 0xFF) as u8,
            b7 == ((v >> 56) & 0xFF) as u8,
    ;
}

proof fn lemma_bytes_of_u32(v: u64)
    requires
        v < 0x1_0000_0000,
    ensures
        v as int == byte_of(v, 0) as int + 256 * (byte_of(v, 1) as int + 256 * (byte_of(v, 2) as int + 256 * (
        byte_of(v, 3) as int + 256 * 0))),
{
    let b0 = byte_of(v, 0);
    let b1 = byte_of(v, 1);
    let b2 = byte_of(v, 2);
    let b3 = byte_of(v, 3);
    assert(v == b0 as u64 + 256 * (b1 as u64 + 256 * (b2 as u64 + 256 * b3 as u64))) by (bit_vector)
        requires
            v < 0x1_0000_0000,
            b0 == ((v >> 0) & 0xFF) as u8,
            b1 == ((v >> 8) & 0xFF) as u8,
            b2 == ((v >> 16) & 0xFF) as u8,
            b3 == ((v >> 24) & 0xFF) as u8,
    ;
}

/// Writes `v` little-endian at `off`.
pub(crate) fn put_u64(bytes: &mut Vec<u8>, off: usize, v: u64)
    requires
        off + 8 <= old(bytes)@.len(),
        off <= 0x1_0000,
    ensures
        final(bytes)@.len() == old(bytes)@.len(),
        forall|j: int| 0 <= j < old(bytes)@.len() && !(off <= j < off + 8) ==> #[trigger] final(bytes)@[j] == old(bytes)@[j],
        le_u64(final(bytes)@, off as int) == v as int,
{
    let mut k: usize = 0;
    while k < 8
        invariant
            k <= 8,
            off + 8 <= bytes@.len(),
            off <= 0x1_0000,
            bytes@.len() == old(bytes)@.len(),
            forall|j: int| 0 <= j < bytes@.len() && !(off <= j < off + k) ==> #[trigger] bytes@[j] == old(bytes)@[j],
            forall|j: int| 0 <= j < k ==> #[trigger] bytes@[off + j] == byte_of(v, j as u64),
        decreases 8 - k,
    {
        let b: u8 = #[verifier::truncate] (((v >> (8 * k as u64)) & 0xFF) as u8);
        bytes.set(off + k, b);
        k = k + 1;
    }
    proof {
        lemma_bytes_of(v);
        assert(bytes@[off + 0] == byte_of(v, 0));
        assert(bytes@[off + 1] == byte_of(v, 1));
        assert(bytes@[off + 2] == byte_of(v, 2));
        assert(bytes@[off + 3] == byte_of(v, 3));
        assert(bytes@[off + 4] == byte_of(v, 4));
        assert(bytes@[off + 5] == byte_of(v, 5));
        assert(bytes@[off + 6] == byte_of(v, 6));
        assert(bytes@[off + 7] == byte_of(v, 7));
    }
}

/// Writes `v` little-endian at `off`.
pub(crate) fn put_u16(bytes: &mut Vec<u8>, off: usize, v: u16)
    requires
        off + 2 <= old(bytes)@.len(),
        off <= 0x1_0000,
    ensures
        final(bytes)@.len() == old(bytes)@.len(),
        forall|j: int| 0 <= j < old(bytes)@.len() && !(off <= j < off + 2) ==> #[trigger] final(bytes)@[j] == old(bytes)@[j],
        le_u16(final(bytes)@, off as int) == v as int,
{
    let lo: u8 = #[verifier::truncate] ((v & 0xFF) as u8);
    let hi: u8 = #[verifier::truncate] ((v >> 8u16) as u8);
    bytes.set(off, lo);
    bytes.set(off + 1, hi);
    assert(v == lo as u16 + 256 * hi as u16) by (bit_vector)
        requires
            lo == (v & 0xFF) as u8,
            hi == (v >> 8u16) as u8,
    ;
}

/// Writes `v` little-endian at `off`.
pub(crate) fn put_u32(bytes: &mut Vec<u8>, off: usize, v: u32)
    requires
        off + 4 <= old(bytes)@.len(),
        off <= 0x1_0000,
    ensures
        final(bytes)@.len() == old(bytes)@.len(),
        forall|j: int| 0 <= j < old(bytes)@.len() && !(off <= j < off + 4) ==> #[trigger] final(bytes)@[j] == old(bytes)@[j],
        le_u32(final(bytes)@, off as int) == v as int,
{
    let w = v as u64;
    let mut k: usize = 0;
    while k < 4
        invariant
            k <= 4,
            w == v as u64,
            off + 4 <= bytes@.len(),
            off <= 0x1_0000,
            bytes@.len() == old(bytes)@.len(),
            forall|j: int| 0 <= j < bytes@.len() && !(off <= j < off + k) ==> #[trigger] bytes@[j] == old(bytes)@[j],
            forall|j: int| 0 <= j < k ==> #[trigger] bytes@[off + j] == byte_of(w, j as u64),
        decreases 4 - k,
    {
        let b: u8 = #[verifier::truncate] (((w >> (8 * k as u64)) & 0xFF) as u8);
        bytes.set(off + k, b);
        k = k + 1;
    }
    proof {
        lemma_bytes_of_u32(w);
        assert(bytes@[off + 0] == byte_of(w, 0));
        assert(bytes@[off + 1] == byte_of(w, 1));
        assert(bytes@[off + 2] == byte_of(w, 2));
        assert(bytes@[off + 3] == byte_of(w, 3));
    }
}

/// The `loadflags` byte of the setup header.
#[derive(Clone, Copy, Debug, Default)]
pub struct LoadflagBitfield {
    pub raw: u8,
}

impl LoadflagBitfield {
    /// LOADED_HIGH (bit 0): the protected-mode code is loaded at 0x100000.
    pub fn loaded_high(&self) -> (r: bool)
        ensures
            r == (self.raw & 0x01 != 0),
    {
        (self.raw & 0x01) != 0
    }

    pub fn set_loaded_high(&mut self, loaded_high: bool)
        ensures
            final(self).raw == if loaded_high {
                old(self).raw | 0x01
            } else {
                old(self).raw & !0x01u8
            },
    {
        if loaded_high {
            self.raw = self.raw | 0x01;
        } else {
            self.raw = self.raw & !0x01u8;
        }
    }

    /// KASLR_FLAG (bit 1).
    pub fn kaslr_flag(&self) -> (r: bool)
        ensures
            r == (self.raw & 0x02 != 0),
    {
        (self.raw & 0x02) != 0
    }

    /// QUIET_FLAG (bit 5).
    pub fn quiet_flag(&self) -> (r: bool)
        ensures
            r == (self.raw & 0x20 != 0),
    {
        (self.raw & 0x20) != 0
    }

    /// KEEP_SEGMENTS (bit 6).
    pub fn keep_segments(&self) -> (r: bool)
        ensures
            r == (self.raw & 0x40 != 0),
    {
        (self.raw & 0x40) != 0
    }

    pub fn set_keep_segments(&mut self, keep_segments: bool)
        ensures
            final(self).raw == if keep_segments {
                old(self).raw | 0x40
            } else {
                old(self).raw & !0x40u8
            },
    {
        if keep_segments {
            self.raw = self.raw | 0x40;
        } else {
            self.raw = self.raw & !0x40u8;
        }
    }

    /// CAN_USE_HEAP (bit 7).
    pub fn can_use_heap(&self) -> (r: bool)
        ensures
            r == (self.raw & 0x80 != 0),
    {
        (self.raw & 0x80) != 0
    }

    pub fn set_can_use_heap(&mut self, can_use_heap: bool)
        ensures
            final(self).raw == if can_use_heap {
                old(self).raw | 0x80
            } else {
                old(self).raw & !0x80u8
            },
    {
        if can_use_heap {
            self.raw = self.raw | 0x80;
        } else {
            self.raw = self.raw & !0x80u8;
        }
    }

    /// The byte with exactly the given flags set.
    pub fn new(loaded_high: bool, kaslr_flag: bool, quiet_flag: bool, keep_segments: bool, can_use_heap: bool) -> (r:
        Self)
        ensures
            r.raw == (if loaded_high { 0x01u8 } else { 0u8 }) | (if kaslr_flag { 0x02u8 } else { 0u8 }) | (if quiet_flag {
                0x20u8
            } else {
                0u8
            }) | (if keep_segments { 0x40u8 } else { 0u8 }) | (if can_use_heap { 0x80u8 } else { 0u8 }),
    {
        let raw = (if loaded_high { 0x01u8 } else { 0u8 }) | (if kaslr_flag { 0x02u8 } else { 0u8 }) | (if quiet_flag {
            0x20u8
        } else {
            0u8
        }) | (if keep_segments { 0x40u8 } else { 0u8 }) | (if can_use_heap { 0x80u8 } else { 0u8 });
        LoadflagBitfield { raw }
    }

    pub fn to_u8(&self) -> (r: u8)
        ensures
            r == self.raw,
    {
        self.raw
    }
}

/// The type of an E820 memory range.
#[derive(Debug, Clone, Copy, PartialEq, Eq, Structural)]
pub enum E820Type {
    Ram,
    Reserved,
    Acpi,
    Nvs,
    Unusable,
}

/// The number the E820 map uses for a type.
pub open spec fn e820_code(t: E820Type) -> u32 {
    match t {
        E820Type::Ram => 1,
        E820Type::Reserved => 2,
        E820Type::Acpi => 3,
        E820Type::Nvs => 4,
        E820Type::Unusable => 5,
    }
}

impl E820Type {
    /// The number the E820 map uses for this type.
    pub fn code(self) -> (r: u32)
        ensures
            r == e820_code(self),
    {
        match self {
            E820Type::Ram => 1,
            E820Type::Reserved => 2,
            E820Type::Acpi => 3,
            E820Type::Nvs => 4,
            E820Type::Unusable => 5,
        }
    }
}

/// One entry of the E820 map.
#[derive(Clone, Copy, Debug)]
pub struct E820Entry {
    pub addr: u64,
    pub size: u64,
    pub type_: u32,
}

impl E820Entry {
    pub fn get_addr(&self) -> (r: u64)
        ensures
            r == self.addr,
    {
        self.addr
    }

    pub fn get_size(&self) -> (r: u64)
        ensures
            r == self.size,
    {
        self.size
    }

    /// The entry's type; numbers outside 1 to 5 are refused.
    pub fn get_type(&self) -> (r: Result<E820Type, &'static str>)
        ensures
            1 <= self.type_ <= 5 <==> r is Ok,
            r matches Ok(t) ==> e820_code(t) == self.type_,
    {
        match self.type_ {
            1 => Ok(E820Type::Ram),
            2 => Ok(E820Type::Reserved),
            3 => Ok(E820Type::Acpi),
            4 => Ok(E820Type::Nvs),
            5 => Ok(E820Type::Unusable),
            _ => Err("Unknown E820 type"),
        }
    }

    pub fn new(addr: u64, size: u64, type_: E820Type) -> (r: Self)
        ensures
            r.addr == addr && r.size == size && r.type_ == e820_code(type_),
    {
        E820Entry { addr, size, type_: type_.code() }
    }
}

/// The setup header of a bzImage, as the bytes at offset 0x1F1.
pub struct SetupHeader {
    pub bytes: Vec<u8>,
}

/// The setup header read from `image`, with a zero `setup_sects` read as 4.
pub open spec fn header_from(image: Seq<u8>) -> Seq<u8> {
    let h = image.subrange(HEADER_OFFSET as int, HEADER_OFFSET + HEADER_SIZE);
    if h[0] == 0 {
        h.update(0, 4)
    } else {
        h
    }
}

impl SetupHeader {
    /// Reads the header of `bytes`; fails when the image is too short to
    /// hold one.
    pub fn from_bytes(bytes: &Vec<u8>) -> (r: Result<Self, &'static str>)
        ensures
            r is Ok <==> bytes@.len() >= HEADER_OFFSET + HEADER_SIZE,
            r matches Ok(h) ==> h.bytes@ == header_from(bytes@),
    {
        if bytes.len() < HEADER_OFFSET + HEADER_SIZE {
            return Err("Image too small to hold a setup header");
        }
        let mut h: Vec<u8> = Vec::new();
        let mut k: usize = 0;
        while k < HEADER_SIZE
            invariant
                k <= HEADER_SIZE,
                bytes@.len() >= HEADER_OFFSET + HEADER_SIZE,
                h@ == bytes@.subrange(HEADER_OFFSET as int, HEADER_OFFSET + k),
            decreases HEADER_SIZE - k,
        {
            h.push(bytes[HEADER_OFFSET + k]);
            k = k + 1;
            assert(h@ =~= bytes@.subrange(HEADER_OFFSET as int, HEADER_OFFSET + k));
        }
        if h[0] == 0 {
            h.set(0, 4);
        }
        Ok(SetupHeader { bytes: h })
    }

    pub open spec fn wf(&self) -> bool {
        self.bytes@.len() == HEADER_SIZE
    }

    /// Number of 512-byte setup sectors.
    pub fn setup_sects(&self) -> (r: u8)
        requires
            self.wf(),
        ensures
            r == self.bytes@[0],
    {
        self.bytes[0]
    }

    /// Offset in the image of the protected-mode code: after the boot
    /// sector and the setup sectors.
    pub fn get_protected_code_offset(&self) -> (r: usize)
        requires
            self.wf(),
        ensures
            r == (self.bytes@[0] + 1) * 512,
    {
        (self.bytes[0] as usize + 1) * 512
    }

    /// The `loadflags` byte.
    pub fn loadflags(&self) -> (r: LoadflagBitfield)
        requires
            self.wf(),
        ensures
            r.raw == self.bytes@[0x20],
    {
        LoadflagBitfield { raw: self.bytes[0x20] }
    }
}

/// The zero page handed to the kernel.
pub struct BootParams {
    pub bytes: Vec<u8>,
}

/// The E820 entry `k` of zero page `z`: address, size and type.
pub open spec fn e820_entry_at(z: Seq<u8>, k: int) -> (int, int, int) {
    let off = E820_MAP_OFFSET + E820_ENTRY_SIZE * k;
    (le_u64(z, off), le_u64(z, off + 8), le_u32(z, off + 16))
}

/// Byte `i` of an empty zero page: 1 at the low byte of each E820 entry's
/// type, 0 everywhere else.
pub open spec fn empty_page_byte(i: int) -> u8 {
    if E820_MAP_OFFSET <= i < E820_MAP_OFFSET + E820_ENTRY_SIZE * E820MAX && (i - E820_MAP_OFFSET) % 20 == 16 {
        1
    } else {
        0
    }
}

impl BootParams {
    pub open spec fn wf(&self) -> bool {
        self.bytes@.len() == BOOT_PARAMS_SIZE
    }

    /// The setup header as it lies in the zero page.
    pub open spec fn header(&self) -> Seq<u8> {
        self.bytes@.subrange(HEADER_OFFSET as int, HEADER_OFFSET + HEADER_SIZE)
    }

    /// A zero page of zeros but for the type of every E820 entry, which is
    /// RAM (1).
    pub fn new() -> (r: Self)
        ensures
            r.wf(),
            forall|i: int| 0 <= i < BOOT_PARAMS_SIZE ==> #[trigger] r.bytes@[i] == empty_page_byte(i),
    {
        let mut bytes = vec![0u8; BOOT_PARAMS_SIZE];
        let mut k: usize = 0;
        while k < E820MAX
            invariant
                k <= E820MAX,
                bytes@.len() == BOOT_PARAMS_SIZE,
                forall|i: int|
                    0 <= i < BOOT_PARAMS_SIZE ==> #[trigger] bytes@[i] == if E820_MAP_OFFSET <= i < E820_MAP_OFFSET
                        + E820_ENTRY_SIZE * k && (i - E820_MAP_OFFSET) % 20 == 16 {
                        1u8
                    } else {
                        0u8
                    },
            decreases E820MAX - k,
        {
            bytes.set(E820_MAP_OFFSET + E820_ENTRY_SIZE * k + 16, 1);
            k = k + 1;
        }
        BootParams { bytes }
    }

    /// A zero page holding the setup header of `image`, at offset 0x1F1;
    /// fails when the image is too short to hold one.
    pub fn from_bytes(image: &Vec<u8>) -> (r: Result<Self, &'static str>)
        ensures
            r is Ok <==> image@.len() >= HEADER_OFFSET + HEADER_SIZE,
            r matches Ok(bp) ==> bp.wf() && bp.header() == header_from(image@) && bp.bytes@[E820_ENTRIES_OFFSET as int] == 0,
            r matches Ok(bp) ==> forall|j: int|
                0 <= j < BOOT_PARAMS_SIZE && !(HEADER_OFFSET <= j < HEADER_OFFSET + HEADER_SIZE) ==> #[trigger] bp.bytes@[j]
                    == empty_page_byte(j),
    {
        let hdr = match SetupHeader::from_bytes(image) {
            Ok(h) => h,
            Err(e) => {
                return Err(e);
            },
        };
        let mut bp = BootParams::new();
        let mut k: usize = 0;
        while k < HEADER_SIZE
            invariant
                k <= HEADER_SIZE,
                hdr.bytes@.len() == HEADER_SIZE,
                bp.wf(),
                bp.bytes@[E820_ENTRIES_OFFSET as int] == 0,
                forall|i: int| 0 <= i < k ==> #[trigger] bp.bytes@[HEADER_OFFSET + i] == hdr.bytes@[i],
                forall|j: int|
                    0 <= j < BOOT_PARAMS_SIZE && !(HEADER_OFFSET <= j < HEADER_OFFSET + k) ==> #[trigger] bp.bytes@[j]
                        == empty_page_byte(j),
            decreases HEADER_SIZE - k,
        {
            bp.bytes.set(HEADER_OFFSET + k, hdr.bytes[k]);
            k = k + 1;
        }
        assert forall|i: int| 0 <= i < HEADER_SIZE implies #[trigger] bp.header()[i] == hdr.bytes@[i] by {
            assert(bp.bytes@[HEADER_OFFSET + i] == hdr.bytes@[i]);
        }
        assert(bp.header() =~= hdr.bytes@);
        Ok(bp)
    }

    /// Number of entries in the E820 map.
    pub fn e820_entries(&self) -> (r: u8)
        requires
            self.wf(),
        ensures
            r == self.bytes@[E820_ENTRIES_OFFSET as int],
    {
        self.bytes[E820_ENTRIES_OFFSET]
    }

    /// Appends an entry to the E820 map.
    pub fn add_e820_entry(&mut self, addr: u64, size: u64, type_: E820Type)
        requires
            old(self).wf(),
            old(self).bytes@[E820_ENTRIES_OFFSET as int] < E820MAX,
        ensures
            final(self).wf(),
            ({
                let n = old(self).bytes@[E820_ENTRIES_OFFSET as int] as int;
                &&& final(self).bytes@[E820_ENTRIES_OFFSET as int] == n + 1
                &&& e820_entry_at(final(self).bytes@, n) == (addr as int, size as int, e820_code(type_) as int)
                &&& forall|j: int|
                    0 <= j < BOOT_PARAMS_SIZE && j != E820_ENTRIES_OFFSET && !(E820_MAP_OFFSET + E820_ENTRY_SIZE * n
                        <= j < E820_MAP_OFFSET + E820_ENTRY_SIZE * n + E820_ENTRY_SIZE) ==> #[trigger] final(self).bytes@[j]
                        == old(self).bytes@[j]
            }),
    {
        let n = self.bytes[E820_ENTRIES_OFFSET];
        let off = E820_MAP_OFFSET + E820_ENTRY_SIZE * n as usize;
        put_u64(&mut self.bytes, off, addr);
        let ghost a = self.bytes@;
        put_u64(&mut self.bytes, off + 8, size);
        let ghost b = self.bytes@;
        put_u32(&mut self.bytes, off + 16, type_.code());
        self.bytes.set(E820_ENTRIES_OFFSET, n + 1);
        assert(le_u64(self.bytes@, off as int) == le_u64(a, off as int));
        assert(le_u64(self.bytes@, off + 8) == le_u64(b, off + 8));
    }
}

/// The zero-page bytes the loader sets in the setup header: the loader
/// type, the load flags, the ramdisk address and size, and the command-line
/// pointer.
pub open spec fn patched(j: int) -> bool {
    j == 0x210 || j == 0x211 || (0x218 <= j < 0x220) || (0x228 <= j < 0x22C)
}

/// The length of a range, or 0 for one that ends before it starts.
pub open spec fn range_size(r: Range) -> int {
    if r.end >= r.start {
        r.end - r.start
    } else {
        0
    }
}

/// The zero page for `image`: its setup header, loaded by an unknown
/// boot loader at 0x100000 with a heap and its own segments, the ramdisk at
/// `LAYOUT_INITRD`, the command line at `LAYOUT_CMDLINE`, and one RAM entry
/// per usable range. Fails when the image holds no setup header or there
/// are more ranges than the E820 map holds.
pub fn build_boot_params(image: &Vec<u8>, ranges: &Vec<Range>, initrd_size: u32) -> (r: Result<BootParams, &'static str>)
    ensures
        r is Ok <==> image@.len() >= HEADER_OFFSET + HEADER_SIZE && ranges@.len() <= E820MAX,
        r matches Ok(bp) ==> {
            &&& bp.wf()
            &&& bp.bytes@[0x210] == 0xFF
            &&& bp.bytes@[0x211] == header_from(image@)[0x20] | 0xC1
            &&& le_u32(bp.bytes@, 0x218) == LAYOUT_INITRD
            &&& le_u32(bp.bytes@, 0x21C) == initrd_size
            &&& le_u32(bp.bytes@, 0x228) == LAYOUT_CMDLINE
            &&& bp.bytes@[E820_ENTRIES_OFFSET as int] == ranges@.len()
            &&& forall|k: int|
                0 <= k < ranges@.len() ==> #[trigger] e820_entry_at(bp.bytes@, k) == (
                    ranges@[k].start as int,
                    range_size(ranges@[k]),
                    1int,
                )
            &&& forall|j: int|
                HEADER_OFFSET <= j < HEADER_OFFSET + HEADER_SIZE && !patched(j) ==> #[trigger] bp.bytes@[j]
                    == header_from(image@)[j - HEADER_OFFSET]
            &&& forall|j: int|
                0 <= j < E820_MAP_OFFSET && j != E820_ENTRIES_OFFSET && !(HEADER_OFFSET <= j < HEADER_OFFSET
                    + HEADER_SIZE) ==> #[trigger] bp.bytes@[j] == 0
            &&& forall|j: int|
                E820_MAP_OFFSET + E820_ENTRY_SIZE * ranges@.len() <= j < BOOT_PARAMS_SIZE ==> #[trigger] bp.bytes@[j]
                    == empty_page_byte(j)
        },
{
    if ranges.len() > E820MAX {
        return Err("Too many memory ranges for the E820 map");
    }
    let mut bp = match BootParams::from_bytes(image) {
        Ok(bp) => bp,
        Err(e) => {
            return Err(e);
        },
    };
    let ghost start = bp.bytes@;
    proof {
        assert forall|j: int| HEADER_OFFSET <= j < HEADER_OFFSET + HEADER_SIZE implies #[trigger] start[j]
            == header_from(image@)[j - HEADER_OFFSET] by {
            assert(bp.header()[j - HEADER_OFFSET] == start[j]);
        }
    }
    bp.bytes.set(0x210, 0xFF);
    let flags = bp.bytes[0x211];
    bp.bytes.set(0x211, flags | 0xC1);
    put_u32(&mut bp.bytes, 0x218, LAYOUT_INITRD as u32);
    put_u32(&mut bp.bytes, 0x21C, initrd_size);
    put_u32(&mut bp.bytes, 0x228, LAYOUT_CMDLINE as u32);
    let ghost fixed = bp.bytes@;
    assert forall|j: int| 0 <= j < BOOT_PARAMS_SIZE && !patched(j) implies #[trigger] fixed[j] == start[j] by {}
    let mut k: usize = 0;
    while k < ranges.len()
        invariant
            k <= ranges@.len() <= E820MAX,
            bp.wf(),
            bp.bytes@[E820_ENTRIES_OFFSET as int] == k,
            forall|j: int| 0 <= j < E820_MAP_OFFSET ==> #[trigger] bp.bytes@[j] == fixed[j] || j == E820_ENTRIES_OFFSET,
            forall|j: int|
                E820_MAP_OFFSET + E820_ENTRY_SIZE * k <= j < BOOT_PARAMS_SIZE ==> #[trigger] bp.bytes@[j]
                    == empty_page_byte(j),
            forall|i: int|
                0 <= i < k ==> #[trigger] e820_entry_at(bp.bytes@, i) == (
                    ranges@[i].start as int,
                    range_size(ranges@[i]),
                    1int,
                ),
        decreases ranges@.len() - k,
    {
        let r = ranges[k];
        let size = if r.end >= r.start { r.end - r.start } else { 0 };
        let ghost pre = bp.bytes@;
        bp.add_e820_entry(r.start, size, E820Type::Ram);
        assert forall|i: int| 0 <= i < k implies #[trigger] e820_entry_at(bp.bytes@, i) == e820_entry_at(pre, i) by {
            let off = E820_MAP_OFFSET + E820_ENTRY_SIZE * i;
            assert forall|j: int| off <= j < off + 20 implies bp.bytes@[j] == pre[j] by {}
        }
        assert(e820_entry_at(bp.bytes@, k as int) == (r.start as int, range_size(r), 1int));
        k = k + 1;
    }
    Ok(bp)
}

} // verus!
