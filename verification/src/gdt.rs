//! Descriptor table manager: the task state segment that holds the
//! dedicated double-fault stack, and the global descriptor table with the
//! kernel code-segment and task-state descriptors in their exact bit
//! layout. Loading the finished tables into the CPU registers belongs to
//! the unverified shell; everything the load hands the CPU is computed and
//! checked here.
use vstd::prelude::*;

verus! {

/// The stack-switch table slot reserved for the double-fault stack.
pub const DOUBLE_FAULT_IST_INDEX: u16 = 0;

/// Size of the statically reserved double-fault stack: five pages.
pub const FAULT_STACK_SIZE: u64 = 4096 * 5;

/// Number of stack-switch slots in a task state segment.
pub const IST_ENTRIES: usize = 7;

/// The task state segment: an indexed table of stack-switch targets. A
/// slot holds the address an interrupt stack grows down from, or zero when
/// unused.
pub struct TaskStateSegment {
    pub interrupt_stack_table: Vec<u64>,
}

/// A well-formed task state segment has exactly the seven stack-switch
/// slots.
pub open spec fn tss_wf(tss: TaskStateSegment) -> bool {
    tss.interrupt_stack_table@.len() == IST_ENTRIES
}

impl TaskStateSegment {
    /// A task state segment with every stack-switch slot unused.
    pub fn new() -> (r: TaskStateSegment)
        ensures
            tss_wf(r),
            forall|i: int| 0 <= i < IST_ENTRIES ==> r.interrupt_stack_table@[i] == 0,
    {
        let mut interrupt_stack_table: Vec<u64> = Vec::new();
        for i in 0..IST_ENTRIES
            invariant
                interrupt_stack_table@.len() == i,
                forall|j: int| 0 <= j < i ==> interrupt_stack_table@[j] == 0,
        {
            interrupt_stack_table.push(0);
        }
        TaskStateSegment { interrupt_stack_table }
    }
}

/// The top of the dedicated fault stack: the stack grows downward, so the
/// stack-switch slot holds the end of the reserved region.
pub open spec fn fault_stack_top(stack_start: u64) -> int {
    stack_start + FAULT_STACK_SIZE
}

/// A task state segment whose slot 0 is bound to the dedicated
/// double-fault stack that starts at the given address; every other slot
/// is unused. The binding happens before interrupts are ever enabled and
/// is fixed for the life of the process.
pub fn fault_stack_tss(stack_start: u64) -> (r: TaskStateSegment)
    requires
        stack_start + FAULT_STACK_SIZE <= u64::MAX,
    ensures
        tss_wf(r),
        r.interrupt_stack_table@[DOUBLE_FAULT_IST_INDEX as int] == fault_stack_top(stack_start),
        forall|i: int| DOUBLE_FAULT_IST_INDEX < i < IST_ENTRIES ==> r.interrupt_stack_table@[i] == 0,
    {
    let mut tss = TaskStateSegment::new();
    let stack_end = stack_start + FAULT_STACK_SIZE;
    tss.interrupt_stack_table[DOUBLE_FAULT_IST_INDEX as usize] = stack_end;
    tss
}

/// A descriptor as it is appended to the table: user descriptors take one
/// table slot, system descriptors two.
#[derive(Debug, Clone, Copy, PartialEq, Eq, Structural)]
pub enum Descriptor {
    UserSegment(u64),
    SystemSegment(u64, u64),
}

/// The 64-bit kernel code-segment descriptor: accessed, writable,
/// executable, user-type, present, long-mode, with the full limit and
/// page granularity.
pub const KERNEL_CODE_DESCRIPTOR: u64 = 0x00af9b000000ffff;

/// The low half of the task-state descriptor for a segment based at the
/// given address: limit 0x67 (the segment's 0x68 bytes minus one), base
/// bits 0..24 at bit 16 and bits 24..32 at bit 56, type "available 64-bit
/// task state segment" at bit 40, present at bit 47.
pub open spec fn tss_descriptor_low(base: u64) -> u64 {
    0x67u64 | ((base & 0xffffff) << 16) | (0x89u64 << 40) | (((base >> 24) & 0xff) << 56)
}

/// The high half of the task-state descriptor: base bits 32..64.
pub open spec fn tss_descriptor_high(base: u64) -> u64 {
    base >> 32
}

/// The kernel code-segment descriptor.
pub fn kernel_code_segment() -> (r: Descriptor)
    ensures
        r == Descriptor::UserSegment(KERNEL_CODE_DESCRIPTOR),
{
    Descriptor::UserSegment(KERNEL_CODE_DESCRIPTOR)
}

/// The task-state descriptor for a task state segment at the given
/// address.
pub fn tss_segment(base: u64) -> (r: Descriptor)
    ensures
        r == Descriptor::SystemSegment(tss_descriptor_low(base), tss_descriptor_high(base)),
{
    let low: u64 = 0x67u64 | ((base & 0xffffff) << 16) | (0x89u64 << 40) | (((base >> 24) & 0xff) << 56);
    let high: u64 = base >> 32;
    Descriptor::SystemSegment(low, high)
}

/// The global descriptor table: the mandatory null descriptor followed by
/// the descriptors appended so far, at most eight slots in all. The order
/// of appension determines the selector values handed back.
pub struct GlobalDescriptorTable {
    pub table: Vec<u64>,
}

/// A well-formed descriptor table: the null descriptor in slot 0, at most
/// eight slots.
pub open spec fn gdt_wf(g: GlobalDescriptorTable) -> bool {
    &&& 1 <= g.table@.len() <= 8
    &&& g.table@[0] == 0
}

/// The selector for the descriptor that starts at a table slot: the slot
/// index in the upper bits, requested privilege level zero in the lower
/// three.
pub open spec fn selector_for(index: int) -> int {
    index * 8
}

impl GlobalDescriptorTable {
    /// An empty table: only the null descriptor.
    pub fn new() -> (r: GlobalDescriptorTable)
        ensures
            gdt_wf(r),
            r.table@ =~= seq![0u64],
    {
        let mut table: Vec<u64> = Vec::new();
        table.push(0);
        GlobalDescriptorTable { table }
    }

    /// Appends a descriptor and returns the selector that refers to it.
    pub fn append(&mut self, entry: Descriptor) -> (selector: u16)
        requires
            gdt_wf(*old(self)),
            (entry matches Descriptor::UserSegment(value) ==> old(self).table@.len() + 1 <= 8),
            (entry matches Descriptor::SystemSegment(low, high) ==> old(self).table@.len() + 2 <= 8),
        ensures
            gdt_wf(*final(self)),
            selector == selector_for(old(self).table@.len() as int),
            (entry matches Descriptor::UserSegment(value) ==> final(self).table@ =~= old(self).table@
                + seq![value]),
            (entry matches Descriptor::SystemSegment(low, high) ==> final(self).table@ =~= old(
                self,
            ).table@ + seq![low, high]),
    {
        let index = self.table.len();
        match entry {
            Descriptor::UserSegment(value) => {
                self.table.push(value);
            },
            Descriptor::SystemSegment(low, high) => {
                self.table.push(low);
                self.table.push(high);
            },
        }
        (index as u16) * 8
    }
}

/// The selectors the finished table hands back to the loading code.
#[derive(Debug, Clone, Copy, PartialEq, Eq, Structural)]
pub struct Selectors {
    pub code_selector: u16,
    pub tss_selector: u16,
}

/// The kernel's descriptor table: the null descriptor, the kernel code
/// segment, and the task-state descriptor for the given task state
/// segment base, with the selectors the CPU loads afterwards.
pub fn kernel_gdt(tss_base: u64) -> (r: (GlobalDescriptorTable, Selectors))
    ensures
        gdt_wf(r.0),
        r.0.table@ =~= seq![
            0u64,
            KERNEL_CODE_DESCRIPTOR,
            tss_descriptor_low(tss_base),
            tss_descriptor_high(tss_base),
        ],
        r.1.code_selector == 8,
        r.1.tss_selector == 16,
{
    let mut gdt = GlobalDescriptorTable::new();
    let code_selector = gdt.append(kernel_code_segment());
    let tss_selector = gdt.append(tss_segment(tss_base));
    (gdt, Selectors { code_selector, tss_selector })
}

} // verus!
