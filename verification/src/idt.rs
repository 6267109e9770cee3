//! Gate descriptors, the classification of the processor's exceptions, and the
//! interrupt descriptor table.

use crate::bytes::{word_of, word_of_split};
use crate::gdt::{
    decode_of_encode, decoded_segment, gdt_entry, kernel_cs, selector_constants, SegmentKind,
    SegmentSelector, FLAT_LIMIT, KERNEL_CS,
};
use crate::table::{
    entry_at, pointer_to, store_entry, with_entry_slots, DescriptorTablePointer,
};
use vstd::prelude::*;

verus! {

/// How control enters a handler: an interrupt gate masks further interrupts on
/// entry, a trap gate does not.
#[derive(Clone, Copy, Debug, PartialEq, Eq, Structural)]
pub enum IdtDescriptorType {
    InterruptGate,
    TrapGate,
}

impl IdtDescriptorType {
    /// The four-bit type field of a gate of this kind.
    pub open spec fn code(&self) -> u8 {
        match self {
            IdtDescriptorType::InterruptGate => 0x0Eu8,
            IdtDescriptorType::TrapGate => 0x0Fu8,
        }
    }

    /// The four-bit type field of a gate of this kind.
    pub fn bits(&self) -> (b: u8)
        ensures
            b == self.code(),
    {
        match self {
            IdtDescriptorType::InterruptGate => 0x0E,
            IdtDescriptorType::TrapGate => 0x0F,
        }
    }
}

/// The present bit of a gate's flags.
pub const GATE_PRESENT: u8 = 0x80;

/// One entry of the interrupt descriptor table, before it is laid out in bytes.
#[derive(Clone, Copy, Debug, PartialEq, Eq, Structural)]
pub struct IdtDescriptor {
    pub segsel: u16,
    pub offset: u32,
    pub flags: u8,
}

/// The present gate of the given type and ring that leads to `offset` in the
/// segment that `segsel` selects.
pub open spec fn gate_descriptor(
    segsel: SegmentSelector,
    offset: u32,
    ty: IdtDescriptorType,
    privl: u8,
) -> IdtDescriptor {
    IdtDescriptor { segsel: segsel.bits(), offset, flags: ((privl << 5) | ty.code()) | 0x80u8 }
}

/// The bytes of that gate.
pub open spec fn gate_bytes(
    segsel: SegmentSelector,
    offset: u32,
    ty: IdtDescriptorType,
    privl: u8,
) -> Seq<u8> {
    gate_descriptor(segsel, offset, ty, privl).bytes()
}

impl IdtDescriptor {
    /// The eight bytes of the entry: the handler's offset in bytes 0, 1, 6 and 7, the
    /// selector in bytes 2 and 3, a zero byte, then the flags.
    pub open spec fn bytes(&self) -> Seq<u8> {
        seq![
            self.offset as u8,
            (self.offset >> 8) as u8,
            self.segsel as u8,
            (self.segsel >> 8) as u8,
            0u8,
            self.flags,
            (self.offset >> 16) as u8,
            (self.offset >> 24) as u8,
        ]
    }

    /// A present gate.
    pub fn new(segsel: SegmentSelector, offset: u32, ty: IdtDescriptorType, privl: u8) -> (d:
        IdtDescriptor)
        requires
            privl < 4,
        ensures
            d == gate_descriptor(segsel, offset, ty, privl),
    {
        let mut flags: u8 = privl << 5;
        flags |= ty.bits();
        flags |= GATE_PRESENT;
        IdtDescriptor { segsel: segsel.encode(), offset, flags }
    }

    /// Lays the entry out in the first eight bytes of `idt`.
    pub fn write(&self, idt: &mut [u8])
        requires
            old(idt)@.len() >= 8,
        ensures
            final(idt)@.len() == old(idt)@.len(),
            final(idt)@.subrange(0, 8) == self.bytes(),
            final(idt)@.subrange(8, old(idt)@.len() as int) == old(idt)@.subrange(
                8,
                old(idt)@.len() as int,
            ),
    {
        idt[0] = self.offset as u8;
        idt[1] = (self.offset >> 8) as u8;
        idt[6] = (self.offset >> 16) as u8;
        idt[7] = (self.offset >> 24) as u8;

        let ss: u16 = self.segsel;
        idt[2] = ss as u8;
        idt[3] = (ss >> 8) as u8;

        idt[4] = 0;
        idt[5] = self.flags;
        assert(idt@.subrange(8, old(idt)@.len() as int) =~= old(idt)@.subrange(
            8,
            old(idt)@.len() as int,
        ));
    }

    /// The entry as eight bytes.
    pub fn encode(&self) -> (out: [u8; 8])
        ensures
            out@ == self.bytes(),
    {
        let mut out: [u8; 8] = [0u8; 8];
        self.write(&mut out);
        out
    }
}

/// Encodes a present gate of the given kind and ring to the handler at
/// `handler_offset` in the segment of `code_selector`.
pub fn encode_gate(
    code_selector: SegmentSelector,
    handler_offset: u32,
    gate_kind: IdtDescriptorType,
    privl: u8,
) -> (out: [u8; 8])
    requires
        privl < 4,
    ensures
        out@ == gate_bytes(code_selector, handler_offset, gate_kind, privl),
{
    IdtDescriptor::new(code_selector, handler_offset, gate_kind, privl).encode()
}

/// What the eight bytes of a gate descriptor say.
#[derive(Clone, Copy, Debug, PartialEq, Eq, Structural)]
pub struct GateFields {
    pub selector: u16,
    pub offset: u32,
    pub kind: IdtDescriptorType,
    pub privl: u8,
    pub present: bool,
}

/// The kind of gate that a flags byte names, if it names one of the two.
pub open spec fn kind_of_flags(flags: u8) -> Option<IdtDescriptorType> {
    if flags & 0x1F == 0x0E {
        Some(IdtDescriptorType::InterruptGate)
    } else if flags & 0x1F == 0x0F {
        Some(IdtDescriptorType::TrapGate)
    } else {
        None
    }
}

/// The fields that eight gate bytes hold; `None` where the flags name neither an
/// interrupt gate nor a trap gate.
pub open spec fn decoded_gate(bytes: Seq<u8>) -> Option<GateFields>
    recommends
        bytes.len() == 8,
{
    match kind_of_flags(bytes[5]) {
        Some(kind) => Some(
            GateFields {
                selector: (bytes[2] as u16) | ((bytes[3] as u16) << 8),
                offset: word_of(bytes[0], bytes[1], bytes[6], bytes[7]),
                kind,
                privl: (bytes[5] >> 5) & 3,
                present: bytes[5] & GATE_PRESENT != 0,
            },
        ),
        None => None,
    }
}

/// Reads the fields of a gate descriptor back from its eight bytes.
pub fn decode_gate(bytes: &[u8; 8]) -> (fields: Option<GateFields>)
    ensures
        fields == decoded_gate(bytes@),
{
    let flags: u8 = bytes[5];
    let low: u8 = flags & 0x1F;
    let kind = if low == 0x0E {
        IdtDescriptorType::InterruptGate
    } else if low == 0x0F {
        IdtDescriptorType::TrapGate
    } else {
        return None;
    };
    let offset: u32 = (bytes[0] as u32) | ((bytes[1] as u32) << 8) | ((bytes[6] as u32) << 16) | ((
    bytes[7] as u32) << 24);
    let selector: u16 = (bytes[2] as u16) | ((bytes[3] as u16) << 8);
    Some(
        GateFields {
            selector,
            offset,
            kind,
            privl: (flags >> 5) & 3,
            present: flags & GATE_PRESENT != 0,
        },
    )
}

/// Decoding the encoding of a gate gives back the selector's encoding, the handler's
/// offset, the kind and the ring.
pub proof fn gate_round_trip(
    segsel: SegmentSelector,
    offset: u32,
    ty: IdtDescriptorType,
    privl: u8,
)
    requires
        privl < 4,
    ensures
        decoded_gate(gate_bytes(segsel, offset, ty, privl)) == Some(
            GateFields { selector: segsel.bits(), offset, kind: ty, privl, present: true },
        ),
{
    let raw = segsel.bits();
    let t = ty.code();
    word_of_split(offset);
    assert(((raw as u8) as u16) | ((((raw >> 8) as u8) as u16) << 8) == raw) by (bit_vector);
    assert((((privl << 5) | t) | 0x80u8) & 0x1F == t && ((((privl << 5) | t) | 0x80u8) >> 5) & 3
        == privl && (((privl << 5) | t) | 0x80u8) & 0x80 != 0) by (bit_vector)
        requires
            privl < 4,
            t == 0x0E || t == 0x0F,
    ;
}

/// Whether the processor pushes an error code when it raises an exception.
#[derive(Clone, Copy, Debug, PartialEq, Eq, Structural)]
pub enum ExceptionClass {
    NoErrorCode,
    HasErrorCode,
}

/// The number of vectors that the architecture reserves for exceptions.
pub const RESERVED_VECTORS: usize = 32;

/// The number of interrupt vectors.
pub const IDT_ENTRIES: usize = 256;

/// The size of the interrupt descriptor table in bytes.
pub const IDT_SIZE: usize = 2048;

/// The class of the exception at a vector: the double fault (8) and the vectors 10
/// to 14 push an error code; the other defined exceptions, 0 to 7, 9, 16 to 21 and
/// 28 to 30, push none. The remaining vectors have no exception of their own.
pub open spec fn exception_class(vector: u8) -> Option<ExceptionClass> {
    if vector == 8 || (10 <= vector <= 14) {
        Some(ExceptionClass::HasErrorCode)
    } else if vector <= 9 || (16 <= vector <= 21) || (28 <= vector <= 30) {
        Some(ExceptionClass::NoErrorCode)
    } else {
        None
    }
}

/// The class of the exception at `vector`, if the architecture defines one there.
pub fn classify(vector: u8) -> (class: Option<ExceptionClass>)
    ensures
        class == exception_class(vector),
{
    match vector {
        0x08 | 0x0A | 0x0B | 0x0C | 0x0D | 0x0E => Some(ExceptionClass::HasErrorCode),
        0x00 | 0x01 | 0x02 | 0x03 | 0x04 | 0x05 | 0x06 | 0x07 | 0x09 => Some(
            ExceptionClass::NoErrorCode,
        ),
        0x10 | 0x11 | 0x12 | 0x13 | 0x14 | 0x15 | 0x1C | 0x1D | 0x1E => Some(
            ExceptionClass::NoErrorCode,
        ),
        _ => None,
    }
}

/// The name of the exception at a vector.
pub open spec fn exception_title(vector: u8) -> Option<Seq<char>> {
    if vector == 0x00 {
        Some("DivideByZero"@)
    } else if vector == 0x01 {
        Some("Debug"@)
    } else if vector == 0x02 {
        Some("NonMaskableInterrupt"@)
    } else if vector == 0x03 {
        Some("Breakpoint"@)
    } else if vector == 0x04 {
        Some("Overflow"@)
    } else if vector == 0x05 {
        Some("BoundRangeExceeded"@)
    } else if vector == 0x06 {
        Some("InvalidOpcode"@)
    } else if vector == 0x07 {
        Some("DeviceNotAvailable"@)
    } else if vector == 0x08 {
        Some("DoubleFault"@)
    } else if vector == 0x09 {
        Some("CoprocessorSegmentOverrun"@)
    } else if vector == 0x0A {
        Some("InvalidTSS"@)
    } else if vector == 0x0B {
        Some("SegmentNotPresent"@)
    } else if vector == 0x0C {
        Some("StackSegmentFault"@)
    } else if vector == 0x0D {
        Some("GeneralProtectionFault"@)
    } else if vector == 0x0E {
        Some("PageFault"@)
    } else if vector == 0x10 {
        Some("X87FloatingPoint"@)
    } else if vector == 0x11 {
        Some("AlignmentCheck"@)
    } else if vector == 0x12 {
        Some("MachineCheck"@)
    } else if vector == 0x13 {
        Some("SIMDFloatingPoint"@)
    } else if vector == 0x14 {
        Some("Virtualization"@)
    } else if vector == 0x15 {
        Some("ControlProtection"@)
    } else if vector == 0x1C {
        Some("Hypervisor"@)
    } else if vector == 0x1D {
        Some("VMMCommunication"@)
    } else if vector == 0x1E {
        Some("Security"@)
    } else {
        None
    }
}

/// The name of the exception at `vector`, if the architecture defines one there.
pub fn exception_name(vector: u8) -> (name: Option<&'static str>)
    ensures
        name is Some == exception_title(vector) is Some,
        name is Some ==> name->0@ == exception_title(vector)->0,
        name is Some == exception_class(vector) is Some,
{
    match vector {
        0x00 => Some("DivideByZero"),
        0x01 => Some("Debug"),
        0x02 => Some("NonMaskableInterrupt"),
        0x03 => Some("Breakpoint"),
        0x04 => Some("Overflow"),
        0x05 => Some("BoundRangeExceeded"),
        0x06 => Some("InvalidOpcode"),
        0x07 => Some("DeviceNotAvailable"),
        0x08 => Some("DoubleFault"),
        0x09 => Some("CoprocessorSegmentOverrun"),
        0x0A => Some("InvalidTSS"),
        0x0B => Some("SegmentNotPresent"),
        0x0C => Some("StackSegmentFault"),
        0x0D => Some("GeneralProtectionFault"),
        0x0E => Some("PageFault"),
        0x10 => Some("X87FloatingPoint"),
        0x11 => Some("AlignmentCheck"),
        0x12 => Some("MachineCheck"),
        0x13 => Some("SIMDFloatingPoint"),
        0x14 => Some("Virtualization"),
        0x15 => Some("ControlProtection"),
        0x1C => Some("Hypervisor"),
        0x1D => Some("VMMCommunication"),
        0x1E => Some("Security"),
        _ => None,
    }
}

/// The entry points that the table's gates lead to.
#[derive(Clone, Copy, Debug, PartialEq, Eq, Structural)]
pub struct IdtHandlers {
    /// Reports an interrupt that nothing handles, and halts.
    pub general_interrupt: u32,
    /// Reports a reserved vector that has no exception of its own, and halts.
    pub general_exception: u32,
    /// Reports an exception for which the processor pushed no error code, and halts.
    pub no_error_code: u32,
    /// Reports an exception for which the processor pushed an error code, and halts.
    pub has_error_code: u32,
    /// Returns at once, for an interrupt that is to be passed over.
    pub skip_interrupt: u32,
}

impl IdtHandlers {
    /// The handler of the given class of exception.
    pub open spec fn of_class(&self, class: ExceptionClass) -> u32 {
        match class {
            ExceptionClass::NoErrorCode => self.no_error_code,
            ExceptionClass::HasErrorCode => self.has_error_code,
        }
    }

    /// The handler of the given class of exception.
    pub fn handler_for(&self, class: ExceptionClass) -> (offset: u32)
        ensures
            offset == self.of_class(class),
    {
        match class {
            ExceptionClass::NoErrorCode => self.no_error_code,
            ExceptionClass::HasErrorCode => self.has_error_code,
        }
    }
}

/// A gate in ring 0 through the kernel's code segment.
pub open spec fn kernel_gate(offset: u32, ty: IdtDescriptorType) -> Seq<u8> {
    gate_bytes(SegmentSelector { index: 1, use_ldt: false, privl: 0 }, offset, ty, 0)
}

/// An exception's gate, by its class: an interrupt gate to the handler that expects
/// the stack which the processor leaves for that class.
pub open spec fn exception_gate(handlers: IdtHandlers, class: ExceptionClass) -> Seq<u8> {
    kernel_gate(handlers.of_class(class), IdtDescriptorType::InterruptGate)
}

/// What a reserved vector gets in place of the default: an exception that the
/// architecture defines has its class's gate, any other reserved vector a trap gate
/// to the general exception handler.
pub open spec fn reserved_gate(handlers: IdtHandlers, vector: int) -> Seq<u8> {
    match exception_class(vector as u8) {
        Some(class) => exception_gate(handlers, class),
        None => kernel_gate(handlers.general_exception, IdtDescriptorType::TrapGate),
    }
}

/// What every vector gets first: an interrupt gate to the general interrupt handler.
pub open spec fn default_gate(handlers: IdtHandlers) -> Seq<u8> {
    kernel_gate(handlers.general_interrupt, IdtDescriptorType::InterruptGate)
}

/// Entry `vector` of the finished interrupt descriptor table: the 32 reserved
/// vectors have their own gates, every other vector has the default.
pub open spec fn idt_entry(handlers: IdtHandlers, vector: int) -> Seq<u8> {
    if 0 <= vector < 32 {
        reserved_gate(handlers, vector)
    } else {
        default_gate(handlers)
    }
}

/// How far one vector of the table has come.
#[derive(Clone, Copy, Debug, PartialEq, Eq, Structural)]
pub enum VectorState {
    /// Nothing was written: the entry is zero, and not present.
    Unset,
    /// The entry leads to the general interrupt handler.
    DefaultHandler,
    /// The entry of a reserved vector leads to the handler of its exception.
    SpecializedHandler,
    /// The entry leads to the handler that returns at once.
    Suppressed,
}

/// The entry of a vector in a given state.
pub open spec fn entry_in_state(handlers: IdtHandlers, vector: int, state: VectorState) -> Seq<
    u8,
> {
    match state {
        VectorState::Unset => Seq::new(8, |i: int| 0u8),
        VectorState::DefaultHandler => default_gate(handlers),
        VectorState::SpecializedHandler => reserved_gate(handlers, vector),
        VectorState::Suppressed => kernel_gate(
            handlers.skip_interrupt,
            IdtDescriptorType::InterruptGate,
        ),
    }
}

/// The interrupt descriptor table while it is built: the bytes, and the state of
/// each of the 256 vectors. A vector goes from unset to the default handler, and
/// from there to a specialized handler or to being suppressed; nothing else moves it.
pub struct IdtBuilder {
    table: [u8; 2048],
    states: [VectorState; 256],
    handlers: IdtHandlers,
}

impl IdtBuilder {
    /// The bytes of the table.
    pub closed spec fn table(&self) -> Seq<u8> {
        self.table@
    }

    /// The state of each vector.
    pub closed spec fn states(&self) -> Seq<VectorState> {
        self.states@
    }

    /// The handlers that the gates lead to.
    pub closed spec fn handlers(&self) -> IdtHandlers {
        self.handlers
    }

    /// The table has 256 entries, each entry is what its vector's state says, and
    /// only reserved vectors are specialized.
    pub open spec fn wf(&self) -> bool {
        &&& self.table().len() == IDT_SIZE
        &&& self.states().len() == IDT_ENTRIES
        &&& forall|v: int|
            0 <= v < 256 ==> #[trigger] entry_at(self.table(), v) == entry_in_state(
                self.handlers(),
                v,
                self.states()[v],
            )
        &&& forall|v: int|
            0 <= v < 256 && #[trigger] self.states()[v] == VectorState::SpecializedHandler ==> v
                < 32
    }

    /// No vector is left unset.
    pub open spec fn complete(&self) -> bool {
        forall|v: int| 0 <= v < 256 ==> #[trigger] self.states()[v] != VectorState::Unset
    }

    /// A table of which every vector is unset.
    pub fn new(handlers: IdtHandlers) -> (b: IdtBuilder)
        ensures
            b.wf(),
            b.handlers() == handlers,
            forall|v: int| 0 <= v < 256 ==> #[trigger] b.states()[v] == VectorState::Unset,
    {
        let b = IdtBuilder {
            table: [0u8; 2048],
            states: [VectorState::Unset; 256],
            handlers,
        };
        assert forall|v: int| 0 <= v < 256 implies #[trigger] entry_at(b.table(), v)
            == entry_in_state(handlers, v, b.states()[v]) by {
            assert(entry_at(b.table(), v) =~= Seq::new(8, |i: int| 0u8));
        }
        b
    }

    /// The state of `vector`.
    pub fn state(&self, vector: u8) -> (state: VectorState)
        requires
            self.wf(),
        ensures
            state == self.states()[vector as int],
    {
        self.states[vector as usize]
    }

    fn place(&mut self, vector: u8, state: VectorState, entry: &[u8; 8])
        requires
            old(self).wf(),
            entry@ == entry_in_state(old(self).handlers(), vector as int, state),
            state == VectorState::SpecializedHandler ==> vector < 32,
        ensures
            final(self).wf(),
            final(self).handlers() == old(self).handlers(),
            final(self).states() == old(self).states().update(vector as int, state),
    {
        let ghost before = self.table@;
        store_entry(&mut self.table, vector as usize, entry);
        self.states[vector as usize] = state;
        proof {
            with_entry_slots(before, vector as int, entry@);
        }
    }

    /// Gives an unset vector the default gate. Returns whether the vector was unset;
    /// where it was not, nothing changes.
    pub fn set_default(&mut self, vector: u8) -> (ok: bool)
        requires
            old(self).wf(),
        ensures
            final(self).wf(),
            final(self).handlers() == old(self).handlers(),
            ok == (old(self).states()[vector as int] == VectorState::Unset),
            final(self).states() == if ok {
                old(self).states().update(vector as int, VectorState::DefaultHandler)
            } else {
                old(self).states()
            },
            !ok ==> final(self).table() == old(self).table(),
    {
        if self.states[vector as usize] != VectorState::Unset {
            return false;
        }
        let entry = encode_gate(
            kernel_cs(),
            self.handlers.general_interrupt,
            IdtDescriptorType::InterruptGate,
            0,
        );
        self.place(vector, VectorState::DefaultHandler, &entry);
        true
    }

    /// Gives a reserved vector that has the default gate its exception's gate.
    /// Returns whether the vector was reserved and had the default gate; where it
    /// was not, nothing changes.
    pub fn specialize(&mut self, vector: u8) -> (ok: bool)
        requires
            old(self).wf(),
        ensures
            final(self).wf(),
            final(self).handlers() == old(self).handlers(),
            ok == (vector < 32 && old(self).states()[vector as int]
                == VectorState::DefaultHandler),
            final(self).states() == if ok {
                old(self).states().update(vector as int, VectorState::SpecializedHandler)
            } else {
                old(self).states()
            },
            !ok ==> final(self).table() == old(self).table(),
    {
        if vector >= 32 || self.states[vector as usize] != VectorState::DefaultHandler {
            return false;
        }
        let cs = kernel_cs();
        let entry = match classify(vector) {
            Some(class) => encode_gate(
                cs,
                self.handlers.handler_for(class),
                IdtDescriptorType::InterruptGate,
                0,
            ),
            None => encode_gate(
                cs,
                self.handlers.general_exception,
                IdtDescriptorType::TrapGate,
                0,
            ),
        };
        self.place(vector, VectorState::SpecializedHandler, &entry);
        true
    }

    /// Gives a vector that has the default gate a gate to the handler that
    /// returns at once. Returns whether the vector had the default gate; where it
    /// had not, nothing changes.
    pub fn suppress(&mut self, vector: u8) -> (ok: bool)
        requires
            old(self).wf(),
        ensures
            final(self).wf(),
            final(self).handlers() == old(self).handlers(),
            ok == (old(self).states()[vector as int] == VectorState::DefaultHandler),
            final(self).states() == if ok {
                old(self).states().update(vector as int, VectorState::Suppressed)
            } else {
                old(self).states()
            },
            !ok ==> final(self).table() == old(self).table(),
    {
        if self.states[vector as usize] != VectorState::DefaultHandler {
            return false;
        }
        let entry = encode_gate(
            kernel_cs(),
            self.handlers.skip_interrupt,
            IdtDescriptorType::InterruptGate,
            0,
        );
        self.place(vector, VectorState::Suppressed, &entry);
        true
    }

    /// The first pass: gives every unset vector the default gate.
    pub fn init_defaults(&mut self)
        requires
            old(self).wf(),
        ensures
            final(self).wf(),
            final(self).handlers() == old(self).handlers(),
            forall|v: int|
                0 <= v < 256 ==> #[trigger] final(self).states()[v] == if old(self).states()[v]
                    == VectorState::Unset {
                    VectorState::DefaultHandler
                } else {
                    old(self).states()[v]
                },
    {
        let mut vector: usize = 0;
        while vector < IDT_ENTRIES
            invariant
                vector <= 256,
                self.wf(),
                self.handlers() == old(self).handlers(),
                forall|v: int|
                    0 <= v < 256 ==> #[trigger] self.states()[v] == if v < vector && old(
                        self,
                    ).states()[v] == VectorState::Unset {
                        VectorState::DefaultHandler
                    } else {
                        old(self).states()[v]
                    },
            decreases 256 - vector,
        {
            self.set_default(vector as u8);
            vector += 1;
        }
    }

    /// The second pass: gives every reserved vector that has the default gate the
    /// gate that its exception calls for.
    pub fn init_exceptions(&mut self)
        requires
            old(self).wf(),
        ensures
            final(self).wf(),
            final(self).handlers() == old(self).handlers(),
            forall|v: int|
                0 <= v < 256 ==> #[trigger] final(self).states()[v] == if v < 32 && old(
                    self,
                ).states()[v] == VectorState::DefaultHandler {
                    VectorState::SpecializedHandler
                } else {
                    old(self).states()[v]
                },
    {
        let mut vector: usize = 0;
        while vector < RESERVED_VECTORS
            invariant
                vector <= 32,
                self.wf(),
                self.handlers() == old(self).handlers(),
                forall|v: int|
                    0 <= v < 256 ==> #[trigger] self.states()[v] == if v < vector && old(
                        self,
                    ).states()[v] == VectorState::DefaultHandler {
                        VectorState::SpecializedHandler
                    } else {
                        old(self).states()[v]
                    },
            decreases 32 - vector,
        {
            self.specialize(vector as u8);
            vector += 1;
        }
    }

    /// Whether no vector is left unset.
    pub fn is_complete(&self) -> (ok: bool)
        requires
            self.wf(),
        ensures
            ok == self.complete(),
    {
        let mut vector: usize = 0;
        while vector < IDT_ENTRIES
            invariant
                vector <= 256,
                self.states().len() == 256,
                forall|v: int| 0 <= v < vector ==> #[trigger] self.states()[v] != VectorState::Unset,
            decreases 256 - vector,
        {
            if self.states[vector] == VectorState::Unset {
                return false;
            }
            vector += 1;
        }
        true
    }

    /// The finished table. A table with an unset vector is not handed out.
    pub fn finish(self) -> (idt: [u8; 2048])
        requires
            self.wf(),
            self.complete(),
        ensures
            idt@ == self.table(),
            forall|v: int|
                0 <= v < 256 ==> #[trigger] entry_at(idt@, v) == entry_in_state(
                    self.handlers(),
                    v,
                    self.states()[v],
                ),
    {
        self.table
    }
}

/// Builds the interrupt descriptor table: first every vector gets the default
/// gate, then each reserved vector gets its exception's gate.
pub fn init_idt(handlers: &IdtHandlers) -> (idt: [u8; 2048])
    ensures
        idt@.len() == IDT_SIZE,
        forall|v: int|
            0 <= v < IDT_ENTRIES ==> #[trigger] entry_at(idt@, v) == idt_entry(*handlers, v),
{
    let mut builder = IdtBuilder::new(*handlers);
    builder.init_defaults();
    builder.init_exceptions();
    builder.finish()
}

/// The pointer to an interrupt descriptor table that lies at `base`: its limit is
/// the table's size less one.
pub fn idt_pointer(base: u32) -> (p: DescriptorTablePointer)
    ensures
        p == (DescriptorTablePointer { limit: 2047, base }),
        Some(p) == pointer_to(base, IDT_SIZE as nat),
{
    DescriptorTablePointer { limit: (IDT_SIZE - 1) as u16, base }
}

/// Every exception for which the processor pushes an error code, the vectors 8 and
/// 10 to 14, has a gate to the handler that expects one; every other defined
/// exception, 0 to 7, 9, 16 to 21 and 28 to 30, has a gate to the handler that
/// expects none.
pub proof fn exception_classification(handlers: IdtHandlers, vector: int)
    requires
        0 <= vector < 32,
    ensures
        vector == 8 || 10 <= vector <= 14 ==> idt_entry(handlers, vector) == kernel_gate(
            handlers.has_error_code,
            IdtDescriptorType::InterruptGate,
        ),
        vector <= 7 || vector == 9 || 16 <= vector <= 21 || 28 <= vector <= 30 ==> idt_entry(
            handlers,
            vector,
        ) == kernel_gate(handlers.no_error_code, IdtDescriptorType::InterruptGate),
{
}

/// Every gate of the finished table is present, in ring 0, and selects the kernel's
/// code segment, which is entry 1 of the global descriptor table: a present code
/// segment of ring 0.
pub proof fn gates_select_kernel_code(
    handlers: IdtHandlers,
    vector: int,
    tss_base: u32,
    tss_limit: u32,
)
    requires
        0 <= vector < 256,
    ensures
        decoded_gate(idt_entry(handlers, vector)) is Some,
        decoded_gate(idt_entry(handlers, vector))->0.selector == KERNEL_CS,
        decoded_gate(idt_entry(handlers, vector))->0.present,
        decoded_gate(idt_entry(handlers, vector))->0.privl == 0,
        SegmentSelector::from_bits(KERNEL_CS).index == 1,
        !SegmentSelector::from_bits(KERNEL_CS).use_ldt,
        decoded_segment(gdt_entry(1, tss_base, tss_limit)) is Some,
        decoded_segment(gdt_entry(1, tss_base, tss_limit))->0.kind == SegmentKind::Code,
        decoded_segment(gdt_entry(1, tss_base, tss_limit))->0.present,
        decoded_segment(gdt_entry(1, tss_base, tss_limit))->0.privl == 0,
{
    let cs = SegmentSelector { index: 1, use_ldt: false, privl: 0 };
    selector_constants();
    gate_round_trip(cs, handlers.general_interrupt, IdtDescriptorType::InterruptGate, 0);
    gate_round_trip(cs, handlers.general_exception, IdtDescriptorType::TrapGate, 0);
    gate_round_trip(cs, handlers.no_error_code, IdtDescriptorType::InterruptGate, 0);
    gate_round_trip(cs, handlers.has_error_code, IdtDescriptorType::InterruptGate, 0);
    decode_of_encode(0, FLAT_LIMIT, SegmentKind::Code, 0);
}

} // verus!
