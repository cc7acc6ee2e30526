//! Dispatch model: what happens when a vector is raised against the
//! configured tables. A populated resumable vector returns control to the
//! instruction after the trap; the fatal double-fault vector runs its
//! handler on the dedicated stack from the task state segment and parks
//! the machine in its halt loop instead of letting the fault cascade into
//! a full reset; a hardware vector does its device work and signals
//! end-of-interrupt; an unpopulated vector is a fatal configuration
//! defect, never silently ignored.
use crate::gdt::{fault_stack_top, tss_wf, TaskStateSegment, DOUBLE_FAULT_IST_INDEX};
use crate::idt::{
    idt_wf, kernel_idt_shape, HandlerEntry, HandlerKind, InterruptDescriptorTable, VectorEntry,
    BREAKPOINT_VECTOR, DOUBLE_FAULT_VECTOR, TIMER_VECTOR,
};
use crate::pic::{
    bit, controllers_wf, deliver_spec, eoi_spec, handled_by_primary, handled_by_secondary,
    lemma_end_of_interrupt_rearms_timer, raise_spec, vector_of, ChainedPics,
};
use vstd::prelude::*;

verus! {

/// The stack a handler ran on.
#[derive(Debug, Clone, Copy, PartialEq, Eq, Structural)]
pub enum StackUsed {
    /// The stack that was active when the vector was raised.
    Running,
    /// The dedicated stack a stack-switch slot points at: the address the
    /// stack grows down from.
    Dedicated(u64),
}

/// What dispatching one vector did.
#[derive(Debug, Clone, Copy, PartialEq, Eq, Structural)]
pub enum DispatchOutcome {
    /// A resumable handler ran and returned; execution continues at the
    /// instruction after the trap.
    Resumed,
    /// A fatal handler logged the fault context on the given stack and
    /// transferred to the halt loop.
    Halted(StackUsed),
    /// A hardware-interrupt handler ran and signalled end-of-interrupt.
    Serviced,
    /// The vector is unpopulated: a fatal configuration defect.
    UnhandledFatal,
    /// The fault could not even be dispatched — the machine resets.
    Reset,
}

/// The machine as the dispatch model sees it: the loaded tables, the
/// controller chain, and whether the machine has parked or reset.
pub struct Machine {
    pub idt: InterruptDescriptorTable,
    pub tss: TaskStateSegment,
    pub pics: ChainedPics,
    pub halted: bool,
    pub reset: bool,
}

/// A machine whose tables and controller chain are well-formed and which
/// is still running.
pub open spec fn machine_wf(m: Machine) -> bool {
    &&& idt_wf(m.idt)
    &&& tss_wf(m.tss)
    &&& controllers_wf(m.pics)
}

/// The controller chain, halt flag, reset flag and outcome after one
/// dispatch.
pub ghost struct DispatchStep {
    pub pics: ChainedPics,
    pub halted: bool,
    pub reset: bool,
    pub outcome: DispatchOutcome,
}

/// What raising a vector does, given the vector's table slot, the
/// stack-switch targets, the controller chain, and whether the running
/// stack was already exhausted when the vector was raised.
pub open spec fn dispatch_spec(
    entry: VectorEntry,
    stack_targets: Seq<u64>,
    pics: ChainedPics,
    vector: u8,
    stack_exhausted: bool,
) -> DispatchStep {
    match entry {
        VectorEntry::Absent => DispatchStep {
            pics,
            halted: false,
            reset: true,
            outcome: DispatchOutcome::UnhandledFatal,
        },
        VectorEntry::Present(h) => match h.kind {
            HandlerKind::Resumable => DispatchStep {
                pics,
                halted: false,
                reset: false,
                outcome: DispatchOutcome::Resumed,
            },
            HandlerKind::FatalHalt => match h.stack_index {
                Some(i) => DispatchStep {
                    pics,
                    halted: true,
                    reset: false,
                    outcome: DispatchOutcome::Halted(StackUsed::Dedicated(stack_targets[i as int])),
                },
                None => if stack_exhausted {
                    DispatchStep { pics, halted: false, reset: true, outcome: DispatchOutcome::Reset }
                } else {
                    DispatchStep {
                        pics,
                        halted: true,
                        reset: false,
                        outcome: DispatchOutcome::Halted(StackUsed::Running),
                    }
                },
            },
            HandlerKind::HardwareIrq => if handled_by_primary(pics, vector) || handled_by_secondary(
                pics,
                vector,
            ) {
                DispatchStep {
                    pics: eoi_spec(pics, vector),
                    halted: false,
                    reset: false,
                    outcome: DispatchOutcome::Serviced,
                }
            } else {
                DispatchStep { pics, halted: false, reset: false, outcome: DispatchOutcome::Serviced }
            },
        },
    }
}

impl Machine {
    /// A running machine over the given tables and controller chain.
    pub fn new(idt: InterruptDescriptorTable, tss: TaskStateSegment, pics: ChainedPics) -> (r:
        Machine)
        requires
            idt_wf(idt),
            tss_wf(tss),
            controllers_wf(pics),
        ensures
            machine_wf(r),
            r.idt == idt,
            r.tss == tss,
            r.pics == pics,
            !r.halted,
            !r.reset,
    {
        Machine { idt, tss, pics, halted: false, reset: false }
    }

    /// Raises one vector and runs its handler, `stack_exhausted` saying
    /// whether the running stack had already been used up when the vector
    /// was raised. The tables never change; only the controller chain and
    /// the halt and reset flags can.
    pub fn dispatch(&mut self, vector: u8, stack_exhausted: bool) -> (r: DispatchOutcome)
        requires
            machine_wf(*old(self)),
            !old(self).halted,
            !old(self).reset,
        ensures
            machine_wf(*final(self)),
            final(self).idt == old(self).idt,
            final(self).tss == old(self).tss,
            ({
                let step = dispatch_spec(
                    old(self).idt.entries@[vector as int],
                    old(self).tss.interrupt_stack_table@,
                    old(self).pics,
                    vector,
                    stack_exhausted,
                );
                &&& final(self).pics == step.pics
                &&& final(self).halted == step.halted
                &&& final(self).reset == step.reset
                &&& r == step.outcome
            }),
    {
        match self.idt.entry(vector) {
            VectorEntry::Absent => {
                self.reset = true;
                DispatchOutcome::UnhandledFatal
            },
            VectorEntry::Present(h) => match h.kind {
                HandlerKind::Resumable => DispatchOutcome::Resumed,
                HandlerKind::FatalHalt => match h.stack_index {
                    Some(i) => {
                        let top = self.tss.interrupt_stack_table[i as usize];
                        self.halted = true;
                        DispatchOutcome::Halted(StackUsed::Dedicated(top))
                    },
                    None => if stack_exhausted {
                        self.reset = true;
                        DispatchOutcome::Reset
                    } else {
                        self.halted = true;
                        DispatchOutcome::Halted(StackUsed::Running)
                    },
                },
                HandlerKind::HardwareIrq => {
                    if self.pics.handles_interrupt(vector) {
                        let _commands = self.pics.notify_end_of_interrupt(vector);
                    }
                    DispatchOutcome::Serviced
                },
            },
        }
    }
}

/// Law: a populated resumable vector returns control: the dispatch
/// outcome says execution resumes at the following instruction, and
/// nothing about the machine — controller chain, halt flag, reset flag —
/// changes.
pub proof fn lemma_resumable_trap_returns(
    h: HandlerEntry,
    stack_targets: Seq<u64>,
    pics: ChainedPics,
    vector: u8,
    stack_exhausted: bool,
)
    requires
        h.kind == HandlerKind::Resumable,
    ensures
        ({
            let step = dispatch_spec(
                VectorEntry::Present(h),
                stack_targets,
                pics,
                vector,
                stack_exhausted,
            );
            step.outcome == DispatchOutcome::Resumed && step.pics == pics && !step.halted
                && !step.reset
        }),
{
}

/// Law: a fatal-fault vector bound to a stack-switch slot runs its
/// handler on that dedicated stack and reaches its log-and-halt path —
/// even when the running stack was exhausted, the fault does not escalate
/// to a machine reset.
pub proof fn lemma_double_fault_lands_on_dedicated_stack(
    h: HandlerEntry,
    slot: u8,
    stack_targets: Seq<u64>,
    pics: ChainedPics,
    vector: u8,
    stack_exhausted: bool,
)
    requires
        h.kind == HandlerKind::FatalHalt,
        h.stack_index == Some(slot),
        0 <= slot < stack_targets.len(),
    ensures
        ({
            let step = dispatch_spec(
                VectorEntry::Present(h),
                stack_targets,
                pics,
                vector,
                stack_exhausted,
            );
            step.outcome == DispatchOutcome::Halted(StackUsed::Dedicated(stack_targets[slot as int]))
                && step.halted && !step.reset
        }),
{
}

/// Law: on tables of the kernel's shape, the resumable software trap
/// returns control — the outcome resumes at the following instruction and
/// the machine state is untouched.
pub proof fn lemma_booted_kernel_breakpoint_resumes(
    entries: Seq<VectorEntry>,
    stack_targets: Seq<u64>,
    pics: ChainedPics,
    breakpoint_handler: u64,
    double_fault_handler: u64,
    timer_handler: u64,
    stack_exhausted: bool,
)
    requires
        kernel_idt_shape(entries, breakpoint_handler, double_fault_handler, timer_handler),
    ensures
        ({
            let step = dispatch_spec(
                entries[BREAKPOINT_VECTOR as int],
                stack_targets,
                pics,
                BREAKPOINT_VECTOR,
                stack_exhausted,
            );
            step.outcome == DispatchOutcome::Resumed && step.pics == pics && !step.halted
                && !step.reset
        }),
{
}

/// Law: on tables of the kernel's shape, with stack-switch slot 0 bound
/// to the dedicated fault stack, the double fault raised by an exhausted
/// kernel stack runs on that dedicated stack and reaches its log-and-halt
/// path — it does not escalate to a machine reset.
pub proof fn lemma_booted_kernel_survives_stack_overflow(
    entries: Seq<VectorEntry>,
    stack_targets: Seq<u64>,
    pics: ChainedPics,
    breakpoint_handler: u64,
    double_fault_handler: u64,
    timer_handler: u64,
    stack_start: u64,
)
    requires
        kernel_idt_shape(entries, breakpoint_handler, double_fault_handler, timer_handler),
        stack_targets.len() == 7,
        stack_targets[DOUBLE_FAULT_IST_INDEX as int] == fault_stack_top(stack_start),
    ensures
        ({
            let step = dispatch_spec(
                entries[DOUBLE_FAULT_VECTOR as int],
                stack_targets,
                pics,
                DOUBLE_FAULT_VECTOR,
                true,
            );
            step.outcome == DispatchOutcome::Halted(
                StackUsed::Dedicated((fault_stack_top(stack_start)) as u64),
            ) && step.halted && !step.reset
        }),
{
}

/// Law: on tables of the kernel's shape over the freshly remapped
/// controller chain, a timer interrupt is delivered and dispatched — the
/// handler signals end-of-interrupt — and a second timer interrupt is
/// then delivered too: both arrive, the line is not starved.
pub proof fn lemma_booted_kernel_timer_not_starved(
    entries: Seq<VectorEntry>,
    stack_targets: Seq<u64>,
    c: ChainedPics,
    breakpoint_handler: u64,
    double_fault_handler: u64,
    timer_handler: u64,
)
    requires
        kernel_idt_shape(entries, breakpoint_handler, double_fault_handler, timer_handler),
        controllers_wf(c),
        c.primary.offset == TIMER_VECTOR,
        c.primary.pending == 0,
        c.secondary.pending == 0,
        c.primary.in_service == 0,
        c.secondary.in_service == 0,
        !bit(c.primary.mask, 0),
    ensures
        ({
            let c1 = raise_spec(c, 0);
            let (c2, v1) = deliver_spec(c1);
            let step = dispatch_spec(
                entries[TIMER_VECTOR as int],
                stack_targets,
                c2,
                TIMER_VECTOR,
                false,
            );
            let c4 = raise_spec(step.pics, 0);
            let (c5, v2) = deliver_spec(c4);
            &&& v1 == Some(TIMER_VECTOR)
            &&& step.outcome == DispatchOutcome::Serviced
            &&& v2 == Some(TIMER_VECTOR)
        }),
{
    lemma_end_of_interrupt_rearms_timer(c);
    let c1 = raise_spec(c, 0);
    let (c2, v1) = deliver_spec(c1);
    assert(vector_of(c, 0) == TIMER_VECTOR);
    assert(handled_by_primary(c2, TIMER_VECTOR));
    let step = dispatch_spec(entries[TIMER_VECTOR as int], stack_targets, c2, TIMER_VECTOR, false);
    assert(step.pics == eoi_spec(c2, vector_of(c, 0)));
}

/// Law: an unpopulated vector is flagged as a fatal configuration defect
/// the moment it is raised — it is never silently ignored, and the
/// machine does not continue.
pub proof fn lemma_unpopulated_vector_is_fatal(
    stack_targets: Seq<u64>,
    pics: ChainedPics,
    vector: u8,
    stack_exhausted: bool,
)
    ensures
        ({
            let step = dispatch_spec(
                VectorEntry::Absent,
                stack_targets,
                pics,
                vector,
                stack_exhausted,
            );
            step.outcome == DispatchOutcome::UnhandledFatal && step.reset
        }),
{
}

} // verus!
