use rsos::gdt::fault_stack_tss;
use rsos::idt::{
    kernel_idt, HandlerEntry, HandlerKind, InterruptDescriptorTable, BREAKPOINT_VECTOR,
    DOUBLE_FAULT_VECTOR, TIMER_VECTOR,
};
use rsos::machine::{DispatchOutcome, Machine, StackUsed};
use rsos::pic::{ChainedPics, PIC_1_OFFSET, PIC_2_OFFSET};

fn booted_machine() -> Machine {
    let idt = kernel_idt(0x1000, 0x2000, 0x3000);
    let tss = fault_stack_tss(0x10_0000);
    let mut pics = ChainedPics::new(PIC_1_OFFSET, PIC_2_OFFSET);
    pics.initialize();
    Machine::new(idt, tss, pics)
}

#[test]
fn test_breakpoint_exception() {
    // Invoke the breakpoint trap; if execution continues after it, we
    // succeed.
    let mut machine = booted_machine();
    let outcome = machine.dispatch(BREAKPOINT_VECTOR, false);
    assert_eq!(outcome, DispatchOutcome::Resumed);
    // The instruction after the trap: reached, machine still running.
    let marker_after_trap = true;
    assert!(marker_after_trap);
    assert!(!machine.halted);
    assert!(!machine.reset);
}

#[test]
fn test_stack_overflow_lands_on_dedicated_stack() {
    // The running stack is exhausted when the fault arrives; the handler
    // must still run, on the dedicated stack, and halt rather than reset.
    let mut machine = booted_machine();
    let outcome = machine.dispatch(DOUBLE_FAULT_VECTOR, true);
    assert_eq!(
        outcome,
        DispatchOutcome::Halted(StackUsed::Dedicated(0x10_0000 + 4096 * 5))
    );
    assert!(machine.halted);
    assert!(!machine.reset);
}

#[test]
fn test_double_fault_without_dedicated_stack_resets() {
    let mut idt = InterruptDescriptorTable::new();
    idt.set_handler(
        DOUBLE_FAULT_VECTOR,
        HandlerEntry {
            handler: 0x2000,
            kind: HandlerKind::FatalHalt,
            privilege_level: 0,
            stack_index: None,
        },
    );
    let tss = fault_stack_tss(0x10_0000);
    let pics = ChainedPics::new(PIC_1_OFFSET, PIC_2_OFFSET);
    let mut machine = Machine::new(idt, tss, pics);
    let outcome = machine.dispatch(DOUBLE_FAULT_VECTOR, true);
    assert_eq!(outcome, DispatchOutcome::Reset);
    assert!(machine.reset);
}

#[test]
fn test_unpopulated_vector_is_fatal() {
    let mut machine = booted_machine();
    let outcome = machine.dispatch(100, false);
    assert_eq!(outcome, DispatchOutcome::UnhandledFatal);
    assert!(machine.reset);
}

#[test]
fn test_every_unpopulated_vector_is_fatal() {
    for vector in 0..=255u8 {
        if vector == BREAKPOINT_VECTOR || vector == DOUBLE_FAULT_VECTOR || vector == TIMER_VECTOR {
            continue;
        }
        let mut machine = booted_machine();
        assert!(!machine.idt.is_present(vector));
        let outcome = machine.dispatch(vector, false);
        assert_eq!(outcome, DispatchOutcome::UnhandledFatal);
        assert!(machine.reset);
    }
}

#[test]
fn test_booted_kernel_survives_stack_overflow_fault() {
    // End to end: run the fixed boot order, take the dispatch model over
    // the tables it built, exhaust the stack, raise the double fault.
    let mut kernel = rsos::Kernel::new();
    kernel
        .init(0x1000, 0x10_0000, 0x1000, 0x2000, 0x3000)
        .unwrap();
    let mut machine = kernel.into_machine();
    let outcome = machine.dispatch(DOUBLE_FAULT_VECTOR, true);
    assert_eq!(
        outcome,
        DispatchOutcome::Halted(StackUsed::Dedicated(0x1000 + 4096 * 5))
    );
    assert!(machine.halted);
    assert!(!machine.reset);
}

#[test]
fn test_two_timer_interrupts_both_delivered() {
    // Inject a timer interrupt, dispatch it (the handler signals
    // end-of-interrupt), inject a second one: both are delivered.
    let mut machine = booted_machine();
    machine.pics.raise_irq(0);
    let first = machine.pics.deliver();
    assert_eq!(first, Some(TIMER_VECTOR));
    let outcome = machine.dispatch(TIMER_VECTOR, false);
    assert_eq!(outcome, DispatchOutcome::Serviced);
    machine.pics.raise_irq(0);
    let second = machine.pics.deliver();
    assert_eq!(second, Some(TIMER_VECTOR));
    assert_eq!(machine.dispatch(TIMER_VECTOR, false), DispatchOutcome::Serviced);
}
