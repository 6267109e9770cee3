//! Segment selectors, segment descriptors and the global descriptor table.

use crate::bytes::{word_of, word_of_split};
use crate::table::{
    entry_at, pointer_to, store_entry, with_entry_slots, DescriptorTablePointer,
};
use vstd::prelude::*;

verus! {

/// A reference to one entry of a descriptor table, as loaded into a segment register.
#[derive(Clone, Copy, Debug, PartialEq, Eq, Structural)]
pub struct SegmentSelector {
    pub index: u16,
    pub use_ldt: bool,
    pub privl: u8,
}

/// The kernel's code segment: entry 1, ring 0.
pub const KERNEL_CS: u16 = 0x08;

/// The kernel's data segment: entry 2, ring 0.
pub const KERNEL_DS: u16 = 0x10;

/// The user code segment: entry 3, ring 3.
pub const USER_CS: u16 = 0x1B;

/// The user data segment: entry 4, ring 3.
pub const USER_DS: u16 = 0x23;

/// The table bit of a selector: set for the local table, clear for the global one.
pub open spec fn table_bit(use_ldt: bool) -> u16 {
    if use_ldt {
        4u16
    } else {
        0u16
    }
}

impl SegmentSelector {
    /// The index fits in 13 bits, the privilege ring in 2, and the global table is meant.
    pub open spec fn wf(&self) -> bool {
        &&& self.index < 8192
        &&& self.privl < 4
        &&& !self.use_ldt
    }

    /// The 16-bit value that the processor sees.
    pub open spec fn bits(&self) -> u16 {
        (self.index << 3) | table_bit(self.use_ldt) | (self.privl as u16)
    }

    /// A selector of the global table.
    pub fn new(index: u16, privl: u8) -> (ss: SegmentSelector)
        requires
            index < 8192,
            privl < 4,
        ensures
            ss == (SegmentSelector { index, use_ldt: false, privl }),
            ss.wf(),
    {
        SegmentSelector { index, use_ldt: false, privl }
    }

    /// The selector's 16-bit encoding: index from bit 3 up, table bit 2, ring in bits 0 and 1.
    pub fn encode(&self) -> (raw: u16)
        ensures
            raw == self.bits(),
    {
        let mut ret: u16 = self.index << 3;
        ret |= if self.use_ldt { 4u16 } else { 0u16 };
        ret |= self.privl as u16;
        ret
    }

    /// Reads a selector back from its 16-bit encoding.
    pub fn decode(raw: u16) -> (ss: SegmentSelector)
        ensures
            ss == Self::from_bits(raw),
    {
        SegmentSelector { index: raw >> 3, use_ldt: (raw & 4) != 0, privl: (raw & 3) as u8 }
    }

    /// The selector that a 16-bit value stands for.
    pub open spec fn from_bits(raw: u16) -> SegmentSelector {
        SegmentSelector { index: raw >> 3, use_ldt: (raw & 4) != 0, privl: (raw & 3) as u8 }
    }

    /// Decoding the encoding of a selector gives the selector back, whenever its
    /// index fits in 13 bits and its ring in 2.
    pub proof fn encode_decode(self)
        requires
            self.index < 8192,
            self.privl < 4,
        ensures
            Self::from_bits(self.bits()) == self,
    {
        let i = self.index;
        let t = table_bit(self.use_ldt);
        let p = self.privl;
        assert(((i << 3) | t | (p as u16)) >> 3 == i && (((i << 3) | t | (p as u16)) & 3) as u8 == p
            && ((i << 3) | t | (p as u16)) & 4 == t) by (bit_vector)
            requires
                i < 8192,
                p < 4,
                t == 0 || t == 4,
        ;
    }
}

/// Each selector constant is the encoding of its entry's index and ring in the global table.
pub proof fn selector_constants()
    ensures
        (SegmentSelector { index: 1, use_ldt: false, privl: 0 }).bits() == KERNEL_CS,
        (SegmentSelector { index: 2, use_ldt: false, privl: 0 }).bits() == KERNEL_DS,
        (SegmentSelector { index: 3, use_ldt: false, privl: 3 }).bits() == USER_CS,
        (SegmentSelector { index: 4, use_ldt: false, privl: 3 }).bits() == USER_DS,
        SegmentSelector::from_bits(KERNEL_CS) == (SegmentSelector { index: 1, use_ldt: false, privl: 0 }),
        SegmentSelector::from_bits(KERNEL_DS) == (SegmentSelector { index: 2, use_ldt: false, privl: 0 }),
        SegmentSelector::from_bits(USER_CS) == (SegmentSelector { index: 3, use_ldt: false, privl: 3 }),
        SegmentSelector::from_bits(USER_DS) == (SegmentSelector { index: 4, use_ldt: false, privl: 3 }),
{
    assert((1u16 << 3) | 0u16 | 0u16 == 0x08u16 && (2u16 << 3) | 0u16 | 0u16 == 0x10u16
        && (3u16 << 3) | 0u16 | 3u16 == 0x1Bu16 && (4u16 << 3) | 0u16 | 3u16 == 0x23u16)
        by (bit_vector);
    assert(0x08u16 >> 3 == 1 && 0x08u16 & 4 == 0 && 0x08u16 & 3 == 0 && 0x10u16 >> 3 == 2
        && 0x10u16 & 4 == 0 && 0x10u16 & 3 == 0 && 0x1Bu16 >> 3 == 3 && 0x1Bu16 & 4 == 0
        && 0x1Bu16 & 3 == 3 && 0x23u16 >> 3 == 4 && 0x23u16 & 4 == 0 && 0x23u16 & 3 == 3)
        by (bit_vector);
}

impl From<SegmentSelector> for u16 {
    fn from(ss: SegmentSelector) -> (raw: u16) {
        ss.encode()
    }
}

impl vstd::std_specs::convert::FromSpecImpl<SegmentSelector> for u16 {
    open spec fn obeys_from_spec() -> bool {
        true
    }

    open spec fn from_spec(ss: SegmentSelector) -> u16 {
        ss.bits()
    }
}

/// The selector of the kernel's code segment.
pub fn kernel_cs() -> (ss: SegmentSelector)
    ensures
        ss == (SegmentSelector { index: 1, use_ldt: false, privl: 0 }),
        ss.bits() == KERNEL_CS,
{
    proof {
        selector_constants();
    }
    SegmentSelector { index: 1, use_ldt: false, privl: 0 }
}

/// The selector of the kernel's data segment.
pub fn kernel_ds() -> (ss: SegmentSelector)
    ensures
        ss == (SegmentSelector { index: 2, use_ldt: false, privl: 0 }),
        ss.bits() == KERNEL_DS,
{
    proof {
        selector_constants();
    }
    SegmentSelector { index: 2, use_ldt: false, privl: 0 }
}

/// Access bit: the segment is present in memory.
pub const ACCESS_PRESENT: u8 = 0x80;

/// Access bit: a code or data segment, not a system segment.
pub const ACCESS_DESCRIPTOR: u8 = 0x10;

/// Access bit: the segment holds code.
pub const ACCESS_EXECUTABLE: u8 = 0x08;

/// Access bit: readable code, or writable data.
pub const ACCESS_RW: u8 = 0x02;

/// Access type of a system segment: an available 32-bit task-state segment.
pub const ACCESS_TSS_AVAILABLE: u8 = 0x09;

/// Flag: the limit counts pages of 4 KiB, not bytes.
pub const FLAG_GRANULARITY: u8 = 0x80;

/// Flag: a 32-bit segment.
pub const FLAG_SIZE: u8 = 0x40;

/// The largest limit that the 20-bit field holds.
pub const LIMIT_MAX: u32 = 0xFFFFF;

/// What a segment descriptor describes.
#[derive(Clone, Copy, Debug, PartialEq, Eq, Structural)]
pub enum SegmentKind {
    Code,
    Data,
    TaskState,
}

/// The limit as the 20-bit field stores it: a limit of 1 MiB or more is counted in pages.
pub open spec fn stored_limit(limit: u32) -> u32 {
    if limit > LIMIT_MAX {
        limit >> 12
    } else {
        limit
    }
}

/// The access byte of a segment of the given kind and ring.
pub open spec fn access_byte(kind: SegmentKind, privl: u8) -> u8 {
    match kind {
        SegmentKind::Code => (privl << 5) | 0x9Au8,
        SegmentKind::Data => (privl << 5) | 0x92u8,
        SegmentKind::TaskState => (privl << 5) | 0x89u8,
    }
}

/// The flags of a segment of the given kind and requested limit, in the high nibble.
pub open spec fn flags_byte(kind: SegmentKind, limit: u32) -> u8 {
    let size: u8 = if kind == SegmentKind::TaskState {
        0u8
    } else {
        FLAG_SIZE
    };
    if limit > LIMIT_MAX {
        size | FLAG_GRANULARITY
    } else {
        size
    }
}

/// One entry of the global descriptor table, before it is laid out in bytes.
#[derive(Clone, Copy, Debug, PartialEq, Eq, Structural)]
pub struct GdtDescriptor {
    pub base: u32,
    pub limit: u32,
    pub index: SegmentSelector,
    pub access: u8,
    pub flags: u8,
}

/// The descriptor of a segment of the given kind at entry `idx`.
pub open spec fn segment_descriptor(
    kind: SegmentKind,
    idx: u16,
    base: u32,
    limit: u32,
    privl: u8,
) -> GdtDescriptor {
    GdtDescriptor {
        base,
        limit: stored_limit(limit),
        index: SegmentSelector { index: idx, use_ldt: false, privl },
        access: access_byte(kind, privl),
        flags: flags_byte(kind, limit),
    }
}

impl GdtDescriptor {
    /// The eight bytes of the entry: the limit in bytes 0 and 1 and the low nibble of
    /// byte 6, the base in bytes 2 to 4 and 7, the access byte at 5, the flags in the
    /// high nibble of byte 6.
    pub open spec fn bytes(&self) -> Seq<u8> {
        seq![
            self.limit as u8,
            (self.limit >> 8) as u8,
            self.base as u8,
            (self.base >> 8) as u8,
            (self.base >> 16) as u8,
            self.access,
            ((self.limit >> 16) as u8) | self.flags,
            (self.base >> 24) as u8,
        ]
    }

    /// A writable data segment.
    pub fn new_data(idx: u16, base: u32, limit: u32, privl: u8) -> (d: GdtDescriptor)
        requires
            privl < 4,
        ensures
            d == segment_descriptor(SegmentKind::Data, idx, base, limit, privl),
    {
        let mut limit: u32 = limit;
        let mut flags: u8 = FLAG_SIZE;
        if limit > LIMIT_MAX {
            limit >>= 12;
            flags |= FLAG_GRANULARITY;
        }
        let mut access: u8 = privl << 5;
        access |= ACCESS_PRESENT;
        access |= ACCESS_DESCRIPTOR;
        access |= ACCESS_RW;
        assert((((privl << 5) | 0x80u8) | 0x10u8) | 0x02u8 == (privl << 5) | 0x92u8)
            by (bit_vector);
        let index = SegmentSelector { index: idx, use_ldt: false, privl };
        GdtDescriptor { base, limit, index, access, flags }
    }

    /// A readable code segment.
    pub fn new_code(idx: u16, base: u32, limit: u32, privl: u8) -> (d: GdtDescriptor)
        requires
            privl < 4,
        ensures
            d == segment_descriptor(SegmentKind::Code, idx, base, limit, privl),
    {
        let mut limit: u32 = limit;
        let mut flags: u8 = FLAG_SIZE;
        if limit > LIMIT_MAX {
            limit >>= 12;
            flags |= FLAG_GRANULARITY;
        }
        let mut access: u8 = privl << 5;
        access |= ACCESS_PRESENT;
        access |= ACCESS_DESCRIPTOR;
        access |= ACCESS_RW;
        access |= ACCESS_EXECUTABLE;
        assert(((((privl << 5) | 0x80u8) | 0x10u8) | 0x02u8) | 0x08u8 == (privl << 5) | 0x9Au8)
            by (bit_vector);
        let index = SegmentSelector { index: idx, use_ldt: false, privl };
        GdtDescriptor { base, limit, index, access, flags }
    }

    /// An available 32-bit task-state segment.
    pub fn new_tss(idx: u16, base: u32, limit: u32, privl: u8) -> (d: GdtDescriptor)
        requires
            privl < 4,
        ensures
            d == segment_descriptor(SegmentKind::TaskState, idx, base, limit, privl),
    {
        let mut limit: u32 = limit;
        let mut flags: u8 = 0;
        if limit > LIMIT_MAX {
            flags |= FLAG_GRANULARITY;
            limit >>= 12;
        }
        let mut access: u8 = privl << 5;
        access |= ACCESS_PRESENT;
        access |= ACCESS_TSS_AVAILABLE;
        assert(((privl << 5) | 0x80u8) | 0x09u8 == (privl << 5) | 0x89u8) by (bit_vector);
        let index = SegmentSelector { index: idx, use_ldt: false, privl };
        GdtDescriptor { base, limit, index, access, flags }
    }

    /// Lays the entry out in the first eight bytes of `gdt`.
    pub fn write(&self, gdt: &mut [u8])
        requires
            old(gdt)@.len() >= 8,
        ensures
            final(gdt)@.len() == old(gdt)@.len(),
            final(gdt)@.subrange(0, 8) == self.bytes(),
            final(gdt)@.subrange(8, old(gdt)@.len() as int) == old(gdt)@.subrange(
                8,
                old(gdt)@.len() as int,
            ),
    {
        gdt[0] = self.limit as u8;
        gdt[1] = (self.limit >> 8) as u8;
        gdt[6] = (self.limit >> 16) as u8;

        gdt[2] = self.base as u8;
        gdt[3] = (self.base >> 8) as u8;
        gdt[4] = (self.base >> 16) as u8;
        gdt[7] = (self.base >> 24) as u8;

        gdt[5] = self.access;
        gdt[6] |= self.flags;
        assert(gdt@.subrange(8, old(gdt)@.len() as int) =~= old(gdt)@.subrange(
            8,
            old(gdt)@.len() as int,
        ));
    }

    /// The entry as eight bytes.
    pub fn encode(&self) -> (out: [u8; 8])
        ensures
            out@ == self.bytes(),
    {
        let mut out: [u8; 8] = [0u8; 8];
        self.write(&mut out);
        out
    }
}

/// What the eight bytes of a segment descriptor say.
#[derive(Clone, Copy, Debug, PartialEq, Eq, Structural)]
pub struct SegmentFields {
    pub base: u32,
    /// The 20-bit limit field as stored: in bytes, or in pages under page granularity.
    pub limit: u32,
    pub page_granularity: bool,
    pub kind: SegmentKind,
    pub privl: u8,
    pub present: bool,
}

impl SegmentFields {
    /// The limit in bytes that the stored field stands for, from below: under page
    /// granularity the low twelve bits of the requested limit are not kept.
    pub open spec fn approximate_limit(&self) -> u32 {
        if self.page_granularity {
            (self.limit & 0xFFFFF) << 12
        } else {
            self.limit
        }
    }

    /// The limit in bytes, rounded down to a page under page granularity.
    pub fn byte_limit(&self) -> (l: u32)
        ensures
            l == self.approximate_limit(),
    {
        if self.page_granularity {
            (self.limit & 0xFFFFF) << 12
        } else {
            self.limit
        }
    }
}

/// The bytes of a segment descriptor with the given fields.
pub open spec fn segment_bytes(base: u32, limit: u32, kind: SegmentKind, privl: u8) -> Seq<u8> {
    segment_descriptor(kind, 0, base, limit, privl).bytes()
}

/// The kind that an access byte names, if it is one of the three that are built here.
pub open spec fn kind_of_access(access: u8) -> Option<SegmentKind> {
    if access & 0x1F == 0x1A {
        Some(SegmentKind::Code)
    } else if access & 0x1F == 0x12 {
        Some(SegmentKind::Data)
    } else if access & 0x1F == 0x09 {
        Some(SegmentKind::TaskState)
    } else {
        None
    }
}

/// The fields that eight descriptor bytes hold; `None` where the access byte names no
/// kind of segment that is built here.
pub open spec fn decoded_segment(bytes: Seq<u8>) -> Option<SegmentFields>
    recommends
        bytes.len() == 8,
{
    match kind_of_access(bytes[5]) {
        Some(kind) => Some(
            SegmentFields {
                base: word_of(bytes[2], bytes[3], bytes[4], bytes[7]),
                limit: word_of(bytes[0], bytes[1], bytes[6] & 0x0F, 0),
                page_granularity: bytes[6] & FLAG_GRANULARITY != 0,
                kind,
                privl: (bytes[5] >> 5) & 3,
                present: bytes[5] & ACCESS_PRESENT != 0,
            },
        ),
        None => None,
    }
}

/// Encodes a present segment of the given kind and ring. A limit above 0xFFFFF is
/// stored in pages: shifted right by twelve, with the granularity flag set.
pub fn encode_segment(base: u32, limit: u32, kind: SegmentKind, privl: u8) -> (out: [u8; 8])
    requires
        privl < 4,
    ensures
        out@ == segment_bytes(base, limit, kind, privl),
{
    let d = match kind {
        SegmentKind::Code => GdtDescriptor::new_code(0, base, limit, privl),
        SegmentKind::Data => GdtDescriptor::new_data(0, base, limit, privl),
        SegmentKind::TaskState => GdtDescriptor::new_tss(0, base, limit, privl),
    };
    d.encode()
}

/// Encodes a present, available 32-bit task-state segment.
pub fn encode_task_state_descriptor(base: u32, limit: u32, privl: u8) -> (out: [u8; 8])
    requires
        privl < 4,
    ensures
        out@ == segment_bytes(base, limit, SegmentKind::TaskState, privl),
{
    GdtDescriptor::new_tss(0, base, limit, privl).encode()
}

/// Reads the fields of a segment descriptor back from its eight bytes.
pub fn decode_segment(bytes: &[u8; 8]) -> (fields: Option<SegmentFields>)
    ensures
        fields == decoded_segment(bytes@),
{
    let access: u8 = bytes[5];
    let low: u8 = access & 0x1F;
    let kind = if low == 0x1A {
        SegmentKind::Code
    } else if low == 0x12 {
        SegmentKind::Data
    } else if low == 0x09 {
        SegmentKind::TaskState
    } else {
        return None;
    };
    let base: u32 = (bytes[2] as u32) | ((bytes[3] as u32) << 8) | ((bytes[4] as u32) << 16) | ((
    bytes[7] as u32) << 24);
    let limit: u32 = (bytes[0] as u32) | ((bytes[1] as u32) << 8) | (((bytes[6] & 0x0F) as u32)
        << 16) | ((0u8 as u32) << 24);
    Some(
        SegmentFields {
            base,
            limit,
            page_granularity: bytes[6] & FLAG_GRANULARITY != 0,
            kind,
            privl: (access >> 5) & 3,
            present: access & ACCESS_PRESENT != 0,
        },
    )
}

proof fn limit_of_split(l: u32, f: u8)
    requires
        l <= LIMIT_MAX,
        f & 0x0F == 0,
    ensures
        word_of(l as u8, (l >> 8) as u8, (((l >> 16) as u8) | f) & 0x0F, 0) == l,
        (((l >> 16) as u8) | f) & 0x80 == f & 0x80,
{
    assert(((l as u8) as u32) | ((((l >> 8) as u8) as u32) << 8) | ((((((l >> 16) as u8) | f)
        & 0x0F) as u32) << 16) | ((0u8 as u32) << 24) == l && (((l >> 16) as u8) | f) & 0x80 == f
        & 0x80) by (bit_vector)
        requires
            l <= 0xFFFFF,
            f & 0x0F == 0,
    ;
}

proof fn access_fields(privl: u8)
    requires
        privl < 4,
    ensures
        kind_of_access(access_byte(SegmentKind::Code, privl)) == Some(SegmentKind::Code),
        kind_of_access(access_byte(SegmentKind::Data, privl)) == Some(SegmentKind::Data),
        kind_of_access(access_byte(SegmentKind::TaskState, privl)) == Some(SegmentKind::TaskState),
        forall|kind: SegmentKind|
            (#[trigger] access_byte(kind, privl) >> 5) & 3 == privl && access_byte(kind, privl)
                & ACCESS_PRESENT != 0,
{
    assert(((privl << 5) | 0x9Au8) & 0x1F == 0x1A && ((privl << 5) | 0x92u8) & 0x1F == 0x12 && ((
    privl << 5) | 0x89u8) & 0x1F == 0x09 && (((privl << 5) | 0x9Au8) >> 5) & 3 == privl && (((privl
        << 5) | 0x92u8) >> 5) & 3 == privl && (((privl << 5) | 0x89u8) >> 5) & 3 == privl && ((privl
        << 5) | 0x9Au8) & 0x80 != 0 && ((privl << 5) | 0x92u8) & 0x80 != 0 && ((privl << 5)
        | 0x89u8) & 0x80 != 0) by (bit_vector)
        requires
            privl < 4,
    ;
}

proof fn flags_fields(kind: SegmentKind, limit: u32)
    ensures
        flags_byte(kind, limit) & 0x0F == 0,
        (flags_byte(kind, limit) & 0x80 != 0) == (limit > LIMIT_MAX),
{
    assert(0x40u8 & 0x0F == 0 && 0u8 & 0x0F == 0 && (0x40u8 | 0x80u8) & 0x0F == 0 && (0u8
        | 0x80u8) & 0x0F == 0 && 0x40u8 & 0x80 == 0 && 0u8 & 0x80 == 0 && (0x40u8 | 0x80u8) & 0x80
        != 0 && (0u8 | 0x80u8) & 0x80 != 0) by (bit_vector);
}

/// What decoding gives for the encoding of any segment: the base, kind and ring that
/// went in, the limit as it is stored, and page granularity exactly where the
/// requested limit was above 0xFFFFF.
pub proof fn decode_of_encode(base: u32, limit: u32, kind: SegmentKind, privl: u8)
    requires
        privl < 4,
    ensures
        decoded_segment(segment_bytes(base, limit, kind, privl)) == Some(
            SegmentFields {
                base,
                limit: stored_limit(limit),
                page_granularity: limit > LIMIT_MAX,
                kind,
                privl,
                present: true,
            },
        ),
{
    let stored = stored_limit(limit);
    assert(stored <= LIMIT_MAX) by {
        assert(limit >> 12 <= 0xFFFFF) by (bit_vector);
    }
    word_of_split(base);
    flags_fields(kind, limit);
    limit_of_split(stored, flags_byte(kind, limit));
    access_fields(privl);
}

/// Below 1 MiB nothing is lost: decoding the encoding of a segment whose limit is at
/// most 0xFFFFF gives back the base, the limit, the kind and the ring, with byte
/// granularity.
pub proof fn segment_round_trip(base: u32, limit: u32, kind: SegmentKind, privl: u8)
    requires
        limit <= LIMIT_MAX,
        privl < 4,
    ensures
        decoded_segment(segment_bytes(base, limit, kind, privl)) == Some(
            SegmentFields { base, limit, page_granularity: false, kind, privl, present: true },
        ),
{
    decode_of_encode(base, limit, kind, privl);
}

/// From 1 MiB on the limit is kept in pages: the stored field is the limit shifted
/// right by twelve, the granularity flag is set, and shifting back gives the
/// requested limit rounded down to a multiple of 4 KiB. The low twelve bits are lost.
pub proof fn granularity_promotion(base: u32, limit: u32, kind: SegmentKind, privl: u8)
    requires
        limit > LIMIT_MAX,
        privl < 4,
    ensures
        decoded_segment(segment_bytes(base, limit, kind, privl)) is Some,
        decoded_segment(segment_bytes(base, limit, kind, privl))->0.limit == limit >> 12,
        decoded_segment(segment_bytes(base, limit, kind, privl))->0.page_granularity,
        decoded_segment(segment_bytes(base, limit, kind, privl))->0.approximate_limit() <= limit,
        limit - decoded_segment(segment_bytes(base, limit, kind, privl))->0.approximate_limit()
            < 4096,
        decoded_segment(segment_bytes(base, limit, kind, privl))->0.approximate_limit() % 4096
            == 0,
{
    decode_of_encode(base, limit, kind, privl);
    assert((((limit >> 12) & 0xFFFFF) << 12) <= limit && limit - (((limit >> 12) & 0xFFFFF) << 12)
        < 4096 && (((limit >> 12) & 0xFFFFF) << 12) % 4096 == 0) by (bit_vector);
}

/// The number of entries of the global descriptor table.
pub const GDT_ENTRIES: usize = 6;

/// The size of the global descriptor table in bytes.
pub const GDT_SIZE: usize = 48;

/// The limit of the four code and data segments: the whole 4 GiB.
pub const FLAT_LIMIT: u32 = 0xFFFFFFFF;

/// Entry `slot` of the global descriptor table: the null descriptor, code and data
/// for ring 0, code and data for ring 3, each over the whole address space, then the
/// task-state segment.
pub open spec fn gdt_entry(slot: int, tss_base: u32, tss_limit: u32) -> Seq<u8> {
    if slot == 1 {
        segment_descriptor(SegmentKind::Code, 1, 0, FLAT_LIMIT, 0).bytes()
    } else if slot == 2 {
        segment_descriptor(SegmentKind::Data, 2, 0, FLAT_LIMIT, 0).bytes()
    } else if slot == 3 {
        segment_descriptor(SegmentKind::Code, 3, 0, FLAT_LIMIT, 3).bytes()
    } else if slot == 4 {
        segment_descriptor(SegmentKind::Data, 4, 0, FLAT_LIMIT, 3).bytes()
    } else if slot == 5 {
        segment_descriptor(SegmentKind::TaskState, 5, tss_base, tss_limit, 0).bytes()
    } else {
        Seq::new(8, |i: int| 0u8)
    }
}

/// Builds the global descriptor table for a task-state block of `tss_limit` bytes at
/// `tss_base`.
pub fn init_gdt(tss_base: u32, tss_limit: u32) -> (gdt: [u8; 48])
    ensures
        gdt@.len() == GDT_SIZE,
        forall|slot: int|
            0 <= slot < GDT_ENTRIES ==> #[trigger] entry_at(gdt@, slot) == gdt_entry(
                slot,
                tss_base,
                tss_limit,
            ),
        forall|i: int| 0 <= i < 8 ==> gdt@[i] == 0,
{
    let kern_code = GdtDescriptor::new_code(1, 0, FLAT_LIMIT, 0);
    let kern_data = GdtDescriptor::new_data(2, 0, FLAT_LIMIT, 0);
    let user_code = GdtDescriptor::new_code(3, 0, FLAT_LIMIT, 3);
    let user_data = GdtDescriptor::new_data(4, 0, FLAT_LIMIT, 3);
    let tss = GdtDescriptor::new_tss(5, tss_base, tss_limit, 0);

    let mut gdt: [u8; 48] = [0u8; 48];
    let ghost t0 = gdt@;
    store_entry(&mut gdt, 1, &kern_code.encode());
    let ghost t1 = gdt@;
    store_entry(&mut gdt, 2, &kern_data.encode());
    let ghost t2 = gdt@;
    store_entry(&mut gdt, 3, &user_code.encode());
    let ghost t3 = gdt@;
    store_entry(&mut gdt, 4, &user_data.encode());
    let ghost t4 = gdt@;
    store_entry(&mut gdt, 5, &tss.encode());
    proof {
        with_entry_slots(t0, 1, kern_code.bytes());
        with_entry_slots(t1, 2, kern_data.bytes());
        with_entry_slots(t2, 3, user_code.bytes());
        with_entry_slots(t3, 4, user_data.bytes());
        with_entry_slots(t4, 5, tss.bytes());
        assert forall|i: int| 0 <= i < 8 implies gdt@[i] == 0 by {
            assert(gdt@[i] == entry_at(gdt@, 0)[i]);
        }
    }
    gdt
}

/// The pointer to a global descriptor table that lies at `base`: its limit is the
/// table's size less one.
pub fn gdt_pointer(base: u32) -> (p: DescriptorTablePointer)
    ensures
        p == (DescriptorTablePointer { limit: 47, base }),
        Some(p) == pointer_to(base, GDT_SIZE as nat),
{
    DescriptorTablePointer { limit: (GDT_SIZE - 1) as u16, base }
}

/// The first entry of the table is the null descriptor, whatever the task-state
/// block: eight zero bytes.
pub proof fn null_descriptor(tss_base: u32, tss_limit: u32)
    ensures
        gdt_entry(0, tss_base, tss_limit).len() == 8,
        forall|i: int| 0 <= i < 8 ==> gdt_entry(0, tss_base, tss_limit)[i] == 0,
{
}

} // verus!
