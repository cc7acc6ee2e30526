use rsos::gdt::{
    fault_stack_tss, kernel_code_segment, kernel_gdt, tss_segment, Descriptor, TaskStateSegment,
    DOUBLE_FAULT_IST_INDEX, FAULT_STACK_SIZE, KERNEL_CODE_DESCRIPTOR,
};
use rsos::idt::{kernel_idt, InterruptDescriptorTable, BREAKPOINT_VECTOR, DOUBLE_FAULT_VECTOR, TIMER_VECTOR};

#[test]
fn test_kernel_code_descriptor_value() {
    assert_eq!(KERNEL_CODE_DESCRIPTOR, 0x00af9b000000ffff);
    assert_eq!(
        kernel_code_segment(),
        Descriptor::UserSegment(0x00af9b000000ffff)
    );
}

#[test]
fn test_tss_descriptor_encoding() {
    let base: u64 = 0x1234_5678_9abc_def0;
    assert_eq!(
        tss_segment(base),
        Descriptor::SystemSegment(0x9a00_89bc_def0_0067, 0x1234_5678)
    );
    assert_eq!(
        tss_segment(0x10_0000),
        Descriptor::SystemSegment(0x0000_8910_0000_0067, 0)
    );
}

#[test]
fn test_fresh_tss_is_empty() {
    let tss = TaskStateSegment::new();
    assert_eq!(tss.interrupt_stack_table, vec![0; 7]);
}

#[test]
fn test_fault_stack_slot_holds_stack_end() {
    let tss = fault_stack_tss(0x1000);
    assert_eq!(FAULT_STACK_SIZE, 4096 * 5);
    assert_eq!(tss.interrupt_stack_table[DOUBLE_FAULT_IST_INDEX as usize], 0x1000 + 4096 * 5);
    for i in 1..7 {
        assert_eq!(tss.interrupt_stack_table[i], 0);
    }
}

#[test]
fn test_gdt_layout_and_selectors() {
    let base: u64 = 0x10_0000;
    let (gdt, selectors) = kernel_gdt(base);
    assert_eq!(
        gdt.table,
        vec![0, KERNEL_CODE_DESCRIPTOR, 0x0000_8910_0000_0067, 0]
    );
    assert_eq!(selectors.code_selector, 8);
    assert_eq!(selectors.tss_selector, 16);
}

#[test]
fn test_kernel_vectors_populated_all_others_absent() {
    let idt = kernel_idt(0x1000, 0x2000, 0x3000);
    for v in 0..=255u8 {
        let expected = v == BREAKPOINT_VECTOR || v == DOUBLE_FAULT_VECTOR || v == TIMER_VECTOR;
        assert_eq!(idt.is_present(v), expected);
    }
}

#[test]
fn test_gate_encoding() {
    let idt = kernel_idt(0x1000, 0x2000, 0x3000);
    // Double fault: stack-switch field 1 (slot 0), present interrupt gate.
    assert_eq!(
        idt.encode_gate(DOUBLE_FAULT_VECTOR, 8),
        Some((0x8e01_0008_2000, 0))
    );
    // Breakpoint: no stack switch.
    assert_eq!(idt.encode_gate(BREAKPOINT_VECTOR, 8), Some((0x8e00_0008_1000, 0)));
    // An absent vector has no gate.
    assert_eq!(idt.encode_gate(100, 8), None);
}

#[test]
fn test_gate_encoding_splits_handler_address() {
    let mut idt = InterruptDescriptorTable::new();
    idt.set_handler(
        3,
        rsos::idt::HandlerEntry {
            handler: 0x1234_5678_9abc_def0,
            kind: rsos::idt::HandlerKind::Resumable,
            privilege_level: 3,
            stack_index: None,
        },
    );
    let (low, high) = idt.encode_gate(3, 8).unwrap();
    // Bits: handler 0..16, selector at 16, type and privilege at 40,
    // handler 16..32 at 48.
    assert_eq!(low, 0x9abc_ee00_0008_def0);
    assert_eq!(high, 0x1234_5678);
}
