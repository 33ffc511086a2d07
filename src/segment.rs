//! Segment descriptors: one description of a segment's rights, packed into
//! the Intel VMCS access-rights format and the AMD VMCB attribute format.
use vstd::prelude::*;

verus! {

/// The segment registers and descriptor-table registers of a guest.
#[derive(Debug, Clone, Copy, PartialEq, Eq, Structural)]
pub enum Segment {
    ES,
    CS,
    SS,
    DS,
    FS,
    GS,
    GDTR,
    LDTR,
    IDTR,
    TR,
}

/// The descriptor-type (S) bit.
#[derive(Debug, Clone, Copy, PartialEq, Eq, Structural)]
pub enum DescriptorType {
    System,
    Code,
}

/// The granularity (G) bit.
#[derive(Debug, Clone, Copy, PartialEq, Eq, Structural)]
pub enum Granularity {
    Byte,
    KByte,
}

/// The rights of a segment, field by field.
#[derive(Debug, Clone, Copy, PartialEq, Eq, Structural)]
pub struct SegmentRights {
    pub accessed: bool,
    pub rw: bool,
    pub dc: bool,
    pub executable: bool,
    pub desc_type: DescriptorType,
    pub dpl: u8,
    pub present: bool,
    pub avl: bool,
    pub long: bool,
    pub db: bool,
    pub granularity: Granularity,
}

/// The VMCS access-rights word of a guest segment.
#[derive(Debug, Clone, Copy, PartialEq, Eq, Structural)]
pub struct IntelSegmentRights {
    pub raw: u32,
}

pub open spec fn flag(b: bool, shift: u16) -> u16 {
    if b {
        (1u16 << shift) as u16
    } else {
        0
    }
}

/// The rights packed with type bits 3:0, S bit 4, DPL bits 6:5 and P bit 7,
/// and AVL, L, D/B and G at bits `hi` to `hi + 3`.
pub open spec fn packed(s: SegmentRights, hi: u16) -> u16 {
    flag(s.accessed, 0) | flag(s.rw, 1) | flag(s.dc, 2) | flag(s.executable, 3) | flag(
        s.desc_type == DescriptorType::Code,
        4,
    ) | (((s.dpl as u16) & 3) << 5u16) | flag(s.present, 7) | flag(s.avl, hi) | flag(s.long, (hi + 1) as u16)
        | flag(s.db, (hi + 2) as u16) | flag(s.granularity == Granularity::KByte, (hi + 3) as u16)
}

/// The rights a word packed with AVL, L, D/B and G at bits `hi` to `hi + 3`
/// describes.
pub open spec fn unpacked(v: u16, hi: u16) -> SegmentRights {
    SegmentRights {
        accessed: v & 1 != 0,
        rw: v & 2 != 0,
        dc: v & 4 != 0,
        executable: v & 8 != 0,
        desc_type: if v & 0x10 != 0 {
            DescriptorType::Code
        } else {
            DescriptorType::System
        },
        dpl: ((v >> 5u16) & 3) as u8,
        present: v & 0x80 != 0,
        avl: v & (1u16 << hi) != 0,
        long: v & (1u16 << (hi + 1) as u16) != 0,
        db: v & (1u16 << (hi + 2) as u16) != 0,
        granularity: if v & (1u16 << (hi + 3) as u16) != 0 {
            Granularity::KByte
        } else {
            Granularity::Byte
        },
    }
}

/// The AMD VMCB attribute word (AMD64 APM Vol. 2, B.1): type bits 3:0, S
/// bit 4, DPL bits 6:5, P bit 7, AVL bit 8, L bit 9, D/B bit 10, G bit 11.
pub open spec fn attrib_of(s: SegmentRights) -> u16 {
    packed(s, 8)
}

/// The rights an AMD attribute word describes (bits 15:12 are ignored).
pub open spec fn rights_of(v: u16) -> SegmentRights {
    unpacked(v, 8)
}

/// The Intel VMCS access-rights word (SDM Vol. 3C, 25.4.1): the same low
/// byte, AVL bit 12, L bit 13, D/B bit 14, G bit 15, and the unusable bit
/// (16) clear.
pub open spec fn intel_rights_of(s: SegmentRights) -> u32 {
    packed(s, 12) as u32
}

/// The rights an Intel access-rights word describes (bits 11:8 and from 16
/// up are ignored).
pub open spec fn intel_to_rights(v: u32) -> SegmentRights {
    unpacked(v as u16, 12)
}

proof fn lemma_packed_bits(
    a: bool,
    rw: bool,
    dc: bool,
    x: bool,
    t: bool,
    dpl: u16,
    p: bool,
    avl: bool,
    l: bool,
    db: bool,
    g: bool,
    h: u16,
)
    by (bit_vector)
    requires
        dpl < 4,
        h == 8 || h == 12,
    ensures
        ({
            let v = (if a { 1u16 } else { 0u16 }) | (if rw { 2u16 } else { 0u16 }) | (if dc { 4u16 } else { 0u16 })
                | (if x { 8u16 } else { 0u16 }) | (if t { 0x10u16 } else { 0u16 }) | ((dpl & 3) << 5u16) | (if p {
                0x80u16
            } else {
                0u16
            }) | (if avl { 1u16 << h } else { 0u16 }) | (if l { 1u16 << (h + 1) } else { 0u16 }) | (if db {
                1u16 << (h + 2)
            } else {
                0u16
            }) | (if g { 1u16 << (h + 3) } else { 0u16 });
            &&& (v & 1 != 0) == a
            &&& (v & 2 != 0) == rw
            &&& (v & 4 != 0) == dc
            &&& (v & 8 != 0) == x
            &&& (v & 0x10 != 0) == t
            &&& (v >> 5u16) & 3 == dpl
            &&& (v & 0x80 != 0) == p
            &&& (v & (1u16 << h) != 0) == avl
            &&& (v & (1u16 << (h + 1)) != 0) == l
            &&& (v & (1u16 << (h + 2)) != 0) == db
            &&& (v & (1u16 << (h + 3)) != 0) == g
            &&& h == 8 ==> v & 0xF000 == 0
            &&& h == 12 ==> v & 0x0F00 == 0
        }),
{
}

proof fn lemma_packed_word(v: u16, h: u16)
    by (bit_vector)
    requires
        h == 8 || h == 12,
        h == 8 ==> v & 0xF000 == 0,
        h == 12 ==> v & 0x0F00 == 0,
    ensures
        v == (if v & 1 != 0 { 1u16 } else { 0u16 }) | (if v & 2 != 0 { 2u16 } else { 0u16 }) | (if v & 4 != 0 {
            4u16
        } else {
            0u16
        }) | (if v & 8 != 0 { 8u16 } else { 0u16 }) | (if v & 0x10 != 0 { 0x10u16 } else { 0u16 }) | ((((v
            >> 5u16) & 3) & 3) << 5u16) | (if v & 0x80 != 0 { 0x80u16 } else { 0u16 }) | (if v & (1u16 << h) != 0 {
            1u16 << h
        } else {
            0u16
        }) | (if v & (1u16 << (h + 1)) != 0 { 1u16 << (h + 1) } else { 0u16 }) | (if v & (1u16 << (h + 2)) != 0 {
            1u16 << (h + 2)
        } else {
            0u16
        }) | (if v & (1u16 << (h + 3)) != 0 { 1u16 << (h + 3) } else { 0u16 }),
{
}

proof fn lemma_flags()
    ensures
        flag(true, 0) == 1 && flag(true, 1) == 2 && flag(true, 2) == 4 && flag(true, 3) == 8,
        flag(true, 4) == 0x10 && flag(true, 7) == 0x80,
        forall|b: bool, h: u16| h < 16 ==> #[trigger] flag(b, h) == if b { 1u16 << h } else { 0u16 },
{
    assert((1u16 << 0u16) == 1 && (1u16 << 1u16) == 2 && (1u16 << 2u16) == 4 && (1u16 << 3u16) == 8 && (1u16
        << 4u16) == 0x10 && (1u16 << 7u16) == 0x80) by (bit_vector);
}

proof fn lemma_packing(s: SegmentRights, v: u16, h: u16)
    requires
        s.dpl < 4,
        h == 8 || h == 12,
    ensures
        unpacked(packed(s, h), h) == s,
        h == 8 ==> packed(s, h) & 0xF000 == 0,
        h == 12 ==> packed(s, h) & 0x0F00 == 0,
        (h == 8 ==> v & 0xF000 == 0) && (h == 12 ==> v & 0x0F00 == 0) ==> packed(unpacked(v, h), h) == v,
{
    lemma_flags();
    lemma_packed_bits(
        s.accessed,
        s.rw,
        s.dc,
        s.executable,
        s.desc_type == DescriptorType::Code,
        s.dpl as u16,
        s.present,
        s.avl,
        s.long,
        s.db,
        s.granularity == Granularity::KByte,
        h,
    );
    if (h == 8 ==> v & 0xF000 == 0) && (h == 12 ==> v & 0x0F00 == 0) {
        lemma_packed_word(v, h);
        let d = (v >> 5u16) & 3;
        assert(d < 4) by (bit_vector)
            requires
                d == (v >> 5u16) & 3,
        ;
        assert(d as u8 as u16 == d);
    }
}

/// Packing and unpacking agree: the AMD attribute word and the Intel
/// access-rights word of any rights hold the same low byte and the same
/// AVL, L, D/B and G bits (at 11:8 and 15:12 respectively), decoding either
/// gives back the rights (for a DPL below 4), and decoding then encoding a
/// word whose unused bits are clear gives back the word.
pub proof fn lemma_segment_rights_packing(s: SegmentRights, v: u16, w: u32)
    requires
        s.dpl < 4,
    ensures
        (attrib_of(s) as u32) & 0xFF == intel_rights_of(s) & 0xFF,
        ((attrib_of(s) as u32) >> 8u32) & 0xF == (intel_rights_of(s) >> 12u32) & 0xF,
        attrib_of(s) >> 12u16 == 0,
        intel_rights_of(s) >> 16u32 == 0,
        rights_of(attrib_of(s)) == s,
        intel_to_rights(intel_rights_of(s)) == s,
        v & 0xF000 == 0 ==> attrib_of(rights_of(v)) == v,
        w & 0xFFFF_0F00 == 0 ==> intel_rights_of(intel_to_rights(w)) == w,
{
    lemma_packing(s, v, 8);
    lemma_packing(s, (w as u16), 12);
    let a = packed(s, 8);
    let i = packed(s, 12);
    assert(((a >> 5u16) & 3) < 4 && ((i >> 5u16) & 3) < 4) by (bit_vector);
    assert(((a >> 5u16) & 3) == ((i >> 5u16) & 3));
    assert((a & (1u16 << 8u16) != 0) == (i & (1u16 << 12u16) != 0));
    assert((a & (1u16 << 9u16) != 0) == (i & (1u16 << 13u16) != 0));
    assert((a & (1u16 << 10u16) != 0) == (i & (1u16 << 14u16) != 0));
    assert((a & (1u16 << 11u16) != 0) == (i & (1u16 << 15u16) != 0));
    assert((a as u32) & 0xFF == (i as u32) & 0xFF && ((a as u32) >> 8u32) & 0xF == ((i as u32) >> 12u32) & 0xF
        && a >> 12u16 == 0 && (i as u32) >> 16u32 == 0) by (bit_vector)
        requires
            a & 0xF000 == 0,
            i & 0x0F00 == 0,
            (a & 1 != 0) == (i & 1 != 0),
            (a & 2 != 0) == (i & 2 != 0),
            (a & 4 != 0) == (i & 4 != 0),
            (a & 8 != 0) == (i & 8 != 0),
            (a & 0x10 != 0) == (i & 0x10 != 0),
            (a & 0x80 != 0) == (i & 0x80 != 0),
            ((a >> 5u16) & 3) == ((i >> 5u16) & 3),
            (a & (1u16 << 8u16) != 0) == (i & (1u16 << 12u16) != 0),
            (a & (1u16 << 9u16) != 0) == (i & (1u16 << 13u16) != 0),
            (a & (1u16 << 10u16) != 0) == (i & (1u16 << 14u16) != 0),
            (a & (1u16 << 11u16) != 0) == (i & (1u16 << 15u16) != 0),
    ;
    if w & 0xFFFF_0F00 == 0 {
        let x: u16 = #[verifier::truncate] (w as u16);
        assert(x & 0x0F00 == 0 && x as u32 == w) by (bit_vector)
            requires
                w & 0xFFFF_0F00 == 0,
                x == w as u16,
        ;
    }
}

impl SegmentRights {
    /// Accessed and present; every other bit clear.
    pub fn default() -> (r: Self)
        ensures
            r.accessed && r.present && !r.rw && !r.dc && !r.executable && r.dpl == 0,
            r.desc_type == DescriptorType::Code && !r.avl && !r.long && !r.db && r.granularity == Granularity::Byte,
    {
        SegmentRights {
            accessed: true,
            rw: false,
            dc: false,
            executable: false,
            desc_type: DescriptorType::Code,
            dpl: 0,
            present: true,
            avl: false,
            long: false,
            db: false,
            granularity: Granularity::Byte,
        }
    }

    /// The rights packed with AVL, L, D/B and G at bits `hi` to `hi + 3`.
    fn pack(&self, hi: u16) -> (r: u16)
        requires
            hi == 8 || hi == 12,
        ensures
            r == packed(*self, hi),
    {
        flag_bit(self.accessed, 0) | flag_bit(self.rw, 1) | flag_bit(self.dc, 2) | flag_bit(self.executable, 3)
            | flag_bit(self.desc_type == DescriptorType::Code, 4) | (((self.dpl as u16) & 0b11) << 5u16) | flag_bit(
            self.present,
            7,
        ) | flag_bit(self.avl, hi) | flag_bit(self.long, hi + 1) | flag_bit(self.db, hi + 2) | flag_bit(
            self.granularity == Granularity::KByte,
            hi + 3,
        )
    }

    fn unpack(v: u16, hi: u16) -> (r: Self)
        requires
            hi == 8 || hi == 12,
        ensures
            r == unpacked(v, hi),
    {
        SegmentRights {
            accessed: v & 1 != 0,
            rw: v & 2 != 0,
            dc: v & 4 != 0,
            executable: v & 8 != 0,
            desc_type: if v & 0x10 != 0 {
                DescriptorType::Code
            } else {
                DescriptorType::System
            },
            dpl: ((v >> 5u16) & 3) as u8,
            present: v & 0x80 != 0,
            avl: v & (1u16 << hi) != 0,
            long: v & (1u16 << (hi + 1)) != 0,
            db: v & (1u16 << (hi + 2)) != 0,
            granularity: if v & (1u16 << (hi + 3)) != 0 {
                Granularity::KByte
            } else {
                Granularity::Byte
            },
        }
    }

    /// The AMD VMCB attribute word: AVL, L, D/B and G at bits 8 to 11.
    pub fn to_amd_segment_attrib(&self) -> (r: u16)
        ensures
            r == attrib_of(*self),
    {
        self.pack(8)
    }

    /// The Intel VMCS access-rights word: AVL, L, D/B and G at bits 12 to 15.
    pub fn to_intel_segment_rights(&self) -> (r: IntelSegmentRights)
        ensures
            r.raw == intel_rights_of(*self),
    {
        IntelSegmentRights { raw: self.pack(12) as u32 }
    }

    /// The rights an AMD attribute word describes.
    pub fn from_amd_segment_attrib(v: u16) -> (r: Self)
        ensures
            r == rights_of(v),
    {
        Self::unpack(v, 8)
    }
}

fn flag_bit(b: bool, shift: u16) -> (r: u16)
    requires
        shift < 16,
    ensures
        r == flag(b, shift),
{
    if b {
        1u16 << shift
    } else {
        0
    }
}

impl IntelSegmentRights {
    /// The rights an access-rights word describes (the unusable bit and the
    /// bits above it are ignored).
    pub fn to_rights(&self) -> (r: SegmentRights)
        ensures
            r == intel_to_rights(self.raw),
    {
        SegmentRights::unpack(self.raw as u16, 12)
    }

    /// The unusable bit (16).
    pub fn unusable(&self) -> (r: bool)
        ensures
            r == (self.raw & 0x1_0000 != 0),
    {
        self.raw & 0x1_0000 != 0
    }
}

} // verus!
