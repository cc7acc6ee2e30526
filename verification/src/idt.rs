//! Interrupt vector table manager: the 256-entry dispatch table mapping
//! vector numbers to handlers. An entry is either absent or populated
//! with a handler entry point, a required privilege level, an optional
//! stack-switch slot, and the behavior class of its handler. The fatal
//! double-fault vector is bound to the dedicated stack slot of the task
//! state segment. Loading the finished table into the CPU register
//! belongs to the unverified shell.
use crate::gdt::DOUBLE_FAULT_IST_INDEX;
use crate::pic::PIC_1_OFFSET;
use vstd::prelude::*;

verus! {

/// Number of entries in the vector table.
pub const VECTOR_COUNT: usize = 256;

/// The resumable software trap.
pub const BREAKPOINT_VECTOR: u8 = 3;

/// The fatal double fault.
pub const DOUBLE_FAULT_VECTOR: u8 = 8;

/// The timer line of the remapped hardware controller.
pub const TIMER_VECTOR: u8 = PIC_1_OFFSET;

/// How the handler behind a populated vector behaves.
#[derive(Debug, Clone, Copy, PartialEq, Eq, Structural)]
pub enum HandlerKind {
    /// Logs and returns: execution resumes at the instruction after the
    /// trap.
    Resumable,
    /// Logs the fault context and transfers to a halt loop; never
    /// returns, because resuming a double fault is unsafe.
    FatalHalt,
    /// Performs minimal device work, then must signal end-of-interrupt
    /// before returning.
    HardwareIrq,
}

/// A populated vector: handler entry point, behavior class, required
/// privilege level, and an optional stack-switch slot.
#[derive(Debug, Clone, Copy, PartialEq, Eq, Structural)]
pub struct HandlerEntry {
    pub handler: u64,
    pub kind: HandlerKind,
    pub privilege_level: u8,
    pub stack_index: Option<u8>,
}

/// One slot of the vector table.
#[derive(Debug, Clone, Copy, PartialEq, Eq, Structural)]
pub enum VectorEntry {
    Absent,
    Present(HandlerEntry),
}

/// A populated entry is valid when its privilege level and stack-switch
/// slot fit their hardware fields.
pub open spec fn entry_valid(e: VectorEntry) -> bool {
    e matches VectorEntry::Present(h) ==> h.privilege_level < 4 && (h.stack_index matches Some(i)
        ==> i < 7)
}

/// The 256-entry dispatch table.
pub struct InterruptDescriptorTable {
    pub entries: Vec<VectorEntry>,
}

/// A well-formed table has all 256 slots, each valid.
pub open spec fn idt_wf(t: InterruptDescriptorTable) -> bool {
    &&& t.entries@.len() == VECTOR_COUNT
    &&& forall|v: int| 0 <= v < VECTOR_COUNT ==> entry_valid(#[trigger] t.entries@[v])
}

/// The low half of the 16-byte gate a populated entry is encoded as:
/// handler bits 0..16, the code-segment selector at bit 16, the
/// stack-switch field at bit 32 (slot number plus one; zero means no
/// switch), the present bit and privilege level and interrupt-gate type
/// at bit 40, and handler bits 16..32 at bit 48.
pub open spec fn gate_low(h: HandlerEntry, code_selector: u16) -> u64 {
    (h.handler & 0xffff) | ((code_selector as u64) << 16) | ((ist_field(h.stack_index) as u64)
        << 32) | (((0x8e | (h.privilege_level & 3) << 5) as u64) << 40) | (((h.handler >> 16)
        & 0xffff) << 48)
}

/// The hardware stack-switch field: slot number plus one, zero when the
/// entry requests no stack switch.
pub open spec fn ist_field(stack_index: Option<u8>) -> u8 {
    match stack_index {
        Some(i) => (i + 1) as u8,
        None => 0,
    }
}

/// The upper quadword of the encoded entry: handler bits 32..64.
pub open spec fn gate_high(h: HandlerEntry) -> u64 {
    h.handler >> 32
}

impl InterruptDescriptorTable {
    /// A table with every vector absent.
    pub fn new() -> (r: InterruptDescriptorTable)
        ensures
            idt_wf(r),
            forall|v: int| 0 <= v < VECTOR_COUNT ==> r.entries@[v] == VectorEntry::Absent,
    {
        let mut entries: Vec<VectorEntry> = Vec::new();
        for i in 0..VECTOR_COUNT
            invariant
                entries@.len() == i,
                forall|v: int| 0 <= v < i ==> entries@[v] == VectorEntry::Absent,
        {
            entries.push(VectorEntry::Absent);
        }
        InterruptDescriptorTable { entries }
    }

    /// Populates one vector. Handlers are installed before interrupts are
    /// globally enabled; the sequencer enforces that order.
    pub fn set_handler(&mut self, vector: u8, entry: HandlerEntry)
        requires
            idt_wf(*old(self)),
            entry.privilege_level < 4,
            (entry.stack_index matches Some(i) ==> i < 7),
        ensures
            idt_wf(*final(self)),
            final(self).entries@ =~= old(self).entries@.update(
                vector as int,
                VectorEntry::Present(entry),
            ),
    {
        self.entries[vector as usize] = VectorEntry::Present(entry);
    }

    /// Whether a vector is populated; an absent vector is reported as
    /// such, never silently treated as handled.
    pub fn is_present(&self, vector: u8) -> (r: bool)
        requires
            idt_wf(*self),
        ensures
            r == (self.entries@[vector as int] is Present),
    {
        match self.entries[vector as usize] {
            VectorEntry::Absent => false,
            VectorEntry::Present(_) => true,
        }
    }

    /// The slot of a vector.
    pub fn entry(&self, vector: u8) -> (r: VectorEntry)
        requires
            idt_wf(*self),
        ensures
            r == self.entries@[vector as int],
    {
        self.entries[vector as usize]
    }

    /// Encodes one populated vector as the two halves of its 16-byte
    /// hardware gate, dispatching through the given code-segment selector.
    pub fn encode_gate(&self, vector: u8, code_selector: u16) -> (r: Option<(u64, u64)>)
        requires
            idt_wf(*self),
        ensures
            (self.entries@[vector as int] matches VectorEntry::Present(h) ==> r == Some(
                (gate_low(h, code_selector), gate_high(h)),
            )),
            (self.entries@[vector as int] is Absent ==> r is None),
    {
        match self.entries[vector as usize] {
            VectorEntry::Absent => None,
            VectorEntry::Present(h) => {
                let ist: u8 = match h.stack_index {
                    Some(i) => i + 1,
                    None => 0,
                };
                let type_attr: u8 = 0x8e | (h.privilege_level & 3) << 5;
                let low: u64 = (h.handler & 0xffff) | ((code_selector as u64) << 16) | ((ist as u64)
                    << 32) | ((type_attr as u64) << 40) | (((h.handler >> 16) & 0xffff) << 48);
                let high: u64 = h.handler >> 32;
                Some((low, high))
            },
        }
    }
}

/// Whether a vector is one the kernel populates: the resumable breakpoint
/// trap, the fatal double fault, and the remapped timer line.
pub open spec fn kernel_populates(v: int) -> bool {
    v == BREAKPOINT_VECTOR || v == DOUBLE_FAULT_VECTOR || v == TIMER_VECTOR
}

/// The shape of the kernel's vector table: the breakpoint trap resumable
/// on the running stack, the double fault bound to the dedicated stack
/// slot and halting, the timer line doing device work, and every other
/// vector absent.
pub open spec fn kernel_idt_shape(
    entries: Seq<VectorEntry>,
    breakpoint_handler: u64,
    double_fault_handler: u64,
    timer_handler: u64,
) -> bool {
    &&& entries.len() == VECTOR_COUNT
    &&& entries[BREAKPOINT_VECTOR as int] == VectorEntry::Present(
        HandlerEntry {
            handler: breakpoint_handler,
            kind: HandlerKind::Resumable,
            privilege_level: 0,
            stack_index: None,
        },
    )
    &&& entries[DOUBLE_FAULT_VECTOR as int] == VectorEntry::Present(
        HandlerEntry {
            handler: double_fault_handler,
            kind: HandlerKind::FatalHalt,
            privilege_level: 0,
            stack_index: Some(DOUBLE_FAULT_IST_INDEX as u8),
        },
    )
    &&& entries[TIMER_VECTOR as int] == VectorEntry::Present(
        HandlerEntry {
            handler: timer_handler,
            kind: HandlerKind::HardwareIrq,
            privilege_level: 0,
            stack_index: None,
        },
    )
    &&& forall|v: int| 0 <= v < VECTOR_COUNT && !kernel_populates(v) ==> entries[v]
        == VectorEntry::Absent
}

/// The kernel's vector table, in the shape `kernel_idt_shape` describes.
pub fn kernel_idt(breakpoint_handler: u64, double_fault_handler: u64, timer_handler: u64) -> (r:
    InterruptDescriptorTable)
    ensures
        idt_wf(r),
        kernel_idt_shape(r.entries@, breakpoint_handler, double_fault_handler, timer_handler),
{
    let mut idt = InterruptDescriptorTable::new();
    idt.set_handler(
        BREAKPOINT_VECTOR,
        HandlerEntry {
            handler: breakpoint_handler,
            kind: HandlerKind::Resumable,
            privilege_level: 0,
            stack_index: None,
        },
    );
    idt.set_handler(
        DOUBLE_FAULT_VECTOR,
        HandlerEntry {
            handler: double_fault_handler,
            kind: HandlerKind::FatalHalt,
            privilege_level: 0,
            stack_index: Some(DOUBLE_FAULT_IST_INDEX as u8),
        },
    );
    idt.set_handler(
        TIMER_VECTOR,
        HandlerEntry {
            handler: timer_handler,
            kind: HandlerKind::HardwareIrq,
            privilege_level: 0,
            stack_index: None,
        },
    );
    idt
}

} // verus!
