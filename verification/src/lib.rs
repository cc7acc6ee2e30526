//! Privileged exception- and interrupt-dispatch subsystem of a freestanding
//! x86_64 kernel: segment descriptor tables, a dedicated fault stack, the
//! 256-entry interrupt vector table, the legacy hardware interrupt
//! controller, and the interrupt-safe locking discipline, together with the
//! initialization sequencer that ties them together in a fixed boot order.
use vstd::prelude::*;

pub mod gdt;
pub mod idt;
pub mod lock;
pub mod machine;
pub mod pic;
pub mod testing;
pub mod vga_buffer;
pub mod volatile;

use crate::gdt::{
    fault_stack_top, fault_stack_tss, gdt_wf, kernel_gdt, tss_descriptor_high, tss_descriptor_low,
    tss_wf, GlobalDescriptorTable, Selectors, TaskStateSegment, DOUBLE_FAULT_IST_INDEX,
    FAULT_STACK_SIZE, KERNEL_CODE_DESCRIPTOR,
};
use crate::idt::{idt_wf, kernel_idt, kernel_idt_shape, InterruptDescriptorTable};
use crate::machine::{machine_wf, Machine};
use crate::pic::{controllers_wf, ChainedPics, PIC_1_OFFSET, PIC_2_OFFSET};

verus! {

/// How far the fixed boot order has run.
#[derive(Debug, Clone, Copy, PartialEq, Eq, Structural)]
pub enum InitStage {
    /// Nothing has run.
    Start,
    /// The descriptor tables are built and loaded.
    DescriptorTablesLoaded,
    /// The vector table is built and loaded.
    VectorTableLoaded,
    /// The hardware interrupt controller chain is remapped and unmasked.
    ControllerInitialized,
    /// Maskable interrupts are enabled; the subsystem is live.
    InterruptsEnabled,
}

/// The configuration error a step raises instead of touching hardware
/// state out of turn.
#[derive(Debug, Clone, Copy, PartialEq, Eq, Structural)]
pub enum InitError {
    /// The step was invoked before the step it depends on had run.
    OutOfOrder,
    /// The step had already run; the boot order runs each step once.
    AlreadyInitialized,
}

/// The position of a stage in the fixed boot order.
pub open spec fn stage_index(s: InitStage) -> int {
    match s {
        InitStage::Start => 0,
        InitStage::DescriptorTablesLoaded => 1,
        InitStage::VectorTableLoaded => 2,
        InitStage::ControllerInitialized => 3,
        InitStage::InterruptsEnabled => 4,
    }
}

/// What a step invoked at `current`, but belonging at `expected`, is
/// allowed to do: run exactly at its own stage, fail deterministically at
/// every other.
pub open spec fn step_result(current: InitStage, expected: InitStage) -> Result<(), InitError> {
    if current == expected {
        Ok(())
    } else if stage_index(current) < stage_index(expected) {
        Err(InitError::OutOfOrder)
    } else {
        Err(InitError::AlreadyInitialized)
    }
}

/// The interrupt subsystem under initialization: the tables and the
/// controller chain being built, the stage reached, and the global
/// interrupt-enable flag.
pub struct Kernel {
    pub stage: InitStage,
    pub gdt: GlobalDescriptorTable,
    pub selectors: Selectors,
    pub tss: TaskStateSegment,
    pub idt: InterruptDescriptorTable,
    pub pics: ChainedPics,
    pub interrupts_enabled: bool,
}

/// A well-formed subsystem, whatever its stage.
pub open spec fn kernel_wf(k: Kernel) -> bool {
    &&& gdt_wf(k.gdt)
    &&& tss_wf(k.tss)
    &&& idt_wf(k.idt)
    &&& controllers_wf(k.pics)
}

impl Kernel {
    /// The subsystem before any step has run: empty tables, the
    /// controller chain still fully masked, interrupts disabled.
    pub fn new() -> (r: Kernel)
        ensures
            kernel_wf(r),
            r.stage == InitStage::Start,
            !r.interrupts_enabled,
    {
        Kernel {
            stage: InitStage::Start,
            gdt: GlobalDescriptorTable::new(),
            selectors: Selectors { code_selector: 0, tss_selector: 0 },
            tss: TaskStateSegment::new(),
            idt: InterruptDescriptorTable::new(),
            pics: ChainedPics::new(PIC_1_OFFSET, PIC_2_OFFSET),
            interrupts_enabled: false,
        }
    }

    /// Step one of the boot order: binds stack-switch slot 0 of the task
    /// state segment to the dedicated double-fault stack, builds the
    /// descriptor table with the kernel code-segment and task-state
    /// descriptors, and records the selectors the CPU is to load.
    pub fn load_descriptor_tables(&mut self, fault_stack_start: u64, tss_base: u64) -> (r: Result<
        (),
        InitError,
    >)
        requires
            kernel_wf(*old(self)),
            fault_stack_start + FAULT_STACK_SIZE <= u64::MAX,
        ensures
            kernel_wf(*final(self)),
            r == step_result(old(self).stage, InitStage::Start),
            r is Err ==> *final(self) == *old(self),
            r is Ok ==> final(self).stage == InitStage::DescriptorTablesLoaded,
            r is Ok ==> final(self).tss.interrupt_stack_table@[DOUBLE_FAULT_IST_INDEX as int]
                == fault_stack_top(fault_stack_start),
            r is Ok ==> final(self).gdt.table@ =~= seq![
                0u64,
                KERNEL_CODE_DESCRIPTOR,
                tss_descriptor_low(tss_base),
                tss_descriptor_high(tss_base),
            ],
            r is Ok ==> final(self).selectors == (Selectors { code_selector: 8, tss_selector: 16 }),
            r is Ok ==> final(self).idt == old(self).idt && final(self).pics == old(self).pics
                && final(self).interrupts_enabled == old(self).interrupts_enabled,
    {
        if !matches!(self.stage, InitStage::Start) {
            return Err(InitError::AlreadyInitialized);
        }
        self.tss = fault_stack_tss(fault_stack_start);
        let (gdt, selectors) = kernel_gdt(tss_base);
        self.gdt = gdt;
        self.selectors = selectors;
        self.stage = InitStage::DescriptorTablesLoaded;
        Ok(())
    }

    /// Step two: builds the 256-entry vector table — the resumable
    /// breakpoint trap, the double fault bound to the dedicated stack
    /// slot, the remapped timer line, everything else absent — to be
    /// loaded after the descriptor tables so the stack-switch slot it
    /// names is valid.
    pub fn load_vector_table(
        &mut self,
        breakpoint_handler: u64,
        double_fault_handler: u64,
        timer_handler: u64,
    ) -> (r: Result<(), InitError>)
        requires
            kernel_wf(*old(self)),
        ensures
            kernel_wf(*final(self)),
            r == step_result(old(self).stage, InitStage::DescriptorTablesLoaded),
            r is Err ==> *final(self) == *old(self),
            r is Ok ==> final(self).stage == InitStage::VectorTableLoaded,
            r is Ok ==> kernel_idt_shape(
                final(self).idt.entries@,
                breakpoint_handler,
                double_fault_handler,
                timer_handler,
            ),
            r is Ok ==> final(self).gdt == old(self).gdt && final(self).selectors == old(self).selectors && final(self).tss == old(self).tss && final(self).pics == old(self).pics
                && final(self).interrupts_enabled == old(self).interrupts_enabled,
    {
        match self.stage {
            InitStage::Start => Err(InitError::OutOfOrder),
            InitStage::DescriptorTablesLoaded => {
                self.idt = kernel_idt(breakpoint_handler, double_fault_handler, timer_handler);
                self.stage = InitStage::VectorTableLoaded;
                Ok(())
            },
            _ => Err(InitError::AlreadyInitialized),
        }
    }

    /// Step three: remaps the controller chain to vector bases 32 and 40
    /// and restores the masks so every line the kernel services is
    /// unmasked.
    pub fn initialize_controller(&mut self) -> (r: Result<(), InitError>)
        requires
            kernel_wf(*old(self)),
        ensures
            kernel_wf(*final(self)),
            r == step_result(old(self).stage, InitStage::VectorTableLoaded),
            r is Err ==> *final(self) == *old(self),
            r is Ok ==> final(self).stage == InitStage::ControllerInitialized,
            r is Ok ==> final(self).pics.primary.offset == PIC_1_OFFSET && final(self).pics.secondary.offset == PIC_2_OFFSET,
            r is Ok ==> final(self).pics.primary.mask == 0 && final(self).pics.secondary.mask == 0,
            r is Ok ==> final(self).pics.primary.pending == 0 && final(self).pics.secondary.pending == 0 && final(self).pics.primary.in_service == 0 && final(self).pics.secondary.in_service == 0,
            r is Ok ==> final(self).gdt == old(self).gdt && final(self).selectors == old(self).selectors && final(self).tss == old(self).tss && final(self).idt == old(self).idt
                && final(self).interrupts_enabled == old(self).interrupts_enabled,
    {
        match self.stage {
            InitStage::Start => Err(InitError::OutOfOrder),
            InitStage::DescriptorTablesLoaded => Err(InitError::OutOfOrder),
            InitStage::VectorTableLoaded => {
                self.pics = ChainedPics::new(PIC_1_OFFSET, PIC_2_OFFSET);
                self.pics.initialize();
                self.stage = InitStage::ControllerInitialized;
                Ok(())
            },
            _ => Err(InitError::AlreadyInitialized),
        }
    }

    /// Step four: enables maskable interrupts globally. Only sanctioned
    /// once every table the CPU might now consult is in place.
    pub fn enable_interrupts(&mut self) -> (r: Result<(), InitError>)
        requires
            kernel_wf(*old(self)),
        ensures
            kernel_wf(*final(self)),
            r == step_result(old(self).stage, InitStage::ControllerInitialized),
            r is Err ==> *final(self) == *old(self),
            r is Ok ==> final(self).stage == InitStage::InterruptsEnabled,
            r is Ok ==> final(self).interrupts_enabled,
            r is Ok ==> final(self).gdt == old(self).gdt && final(self).selectors == old(self).selectors && final(self).tss == old(self).tss && final(self).idt == old(self).idt
                && final(self).pics == old(self).pics,
    {
        match self.stage {
            InitStage::ControllerInitialized => {
                self.interrupts_enabled = true;
                self.stage = InitStage::InterruptsEnabled;
                Ok(())
            },
            InitStage::InterruptsEnabled => Err(InitError::AlreadyInitialized),
            _ => Err(InitError::OutOfOrder),
        }
    }

    /// The only sanctioned entry point into the subsystem: runs the fixed
    /// boot order — descriptor tables, vector table, controller, enable
    /// interrupts. Succeeds exactly once, from the pristine stage; any
    /// later call fails deterministically and changes nothing.
    pub fn init(
        &mut self,
        fault_stack_start: u64,
        tss_base: u64,
        breakpoint_handler: u64,
        double_fault_handler: u64,
        timer_handler: u64,
    ) -> (r: Result<(), InitError>)
        requires
            kernel_wf(*old(self)),
            fault_stack_start + FAULT_STACK_SIZE <= u64::MAX,
        ensures
            kernel_wf(*final(self)),
            r == step_result(old(self).stage, InitStage::Start),
            r is Err ==> *final(self) == *old(self),
            r is Ok ==> final(self).stage == InitStage::InterruptsEnabled,
            r is Ok ==> final(self).interrupts_enabled,
            r is Ok ==> final(self).tss.interrupt_stack_table@[DOUBLE_FAULT_IST_INDEX as int]
                == fault_stack_top(fault_stack_start),
            r is Ok ==> final(self).gdt.table@ =~= seq![
                0u64,
                KERNEL_CODE_DESCRIPTOR,
                tss_descriptor_low(tss_base),
                tss_descriptor_high(tss_base),
            ],
            r is Ok ==> final(self).selectors == (Selectors { code_selector: 8, tss_selector: 16 }),
            r is Ok ==> kernel_idt_shape(
                final(self).idt.entries@,
                breakpoint_handler,
                double_fault_handler,
                timer_handler,
            ),
            r is Ok ==> final(self).pics.primary.offset == PIC_1_OFFSET && final(self).pics.secondary.offset == PIC_2_OFFSET && final(self).pics.primary.mask == 0 && final(self).pics.secondary.mask == 0 && final(self).pics.primary.pending == 0 && final(self).pics.secondary.pending == 0 && final(self).pics.primary.in_service == 0 && final(self).pics.secondary.in_service == 0,
    {
        self.load_descriptor_tables(fault_stack_start, tss_base)?;
        self.load_vector_table(breakpoint_handler, double_fault_handler, timer_handler)?;
        self.initialize_controller()?;
        self.enable_interrupts()?;
        Ok(())
    }

    /// The dispatch model over the live subsystem's tables; sanctioned
    /// only once the boot order has completed.
    pub fn into_machine(self) -> (r: Machine)
        requires
            kernel_wf(self),
            self.stage == InitStage::InterruptsEnabled,
        ensures
            machine_wf(r),
            r.idt == self.idt,
            r.tss == self.tss,
            r.pics == self.pics,
            !r.halted,
            !r.reset,
    {
        Machine::new(self.idt, self.tss, self.pics)
    }
}

/// Law: a step invoked anywhere but at its own place in the boot order is
/// refused deterministically — too early with `OutOfOrder`, after it has
/// already run with `AlreadyInitialized` — and the refusal depends on the
/// stage alone.
pub proof fn lemma_out_of_order_step_refused(current: InitStage, expected: InitStage)
    requires
        current != expected,
    ensures
        step_result(current, expected) is Err,
        stage_index(current) < stage_index(expected) ==> step_result(current, expected) == Err::<
            (),
            InitError,
        >(InitError::OutOfOrder),
        stage_index(current) > stage_index(expected) ==> step_result(current, expected) == Err::<
            (),
            InitError,
        >(InitError::AlreadyInitialized),
{
}

/// Law: the initialization entry point succeeds only from the pristine
/// stage; at every other stage — in particular after a successful run,
/// which ends in the final stage — it is refused with
/// `AlreadyInitialized`.
pub proof fn lemma_second_init_refused()
    ensures
        step_result(InitStage::Start, InitStage::Start) is Ok,
        forall|s: InitStage| s != InitStage::Start ==> step_result(s, InitStage::Start) == Err::<
            (),
            InitError,
        >(InitError::AlreadyInitialized),
{
}

} // verus!
