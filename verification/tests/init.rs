use std::cell::Cell;

use rsos::testing::{test_runner, QemuExitCode, Testable};
use rsos::{InitError, InitStage, Kernel};

const STACK_START: u64 = 0x1000;
const TSS_BASE: u64 = 0x10_0000;

fn run_init(kernel: &mut Kernel) -> Result<(), InitError> {
    kernel.init(STACK_START, TSS_BASE, 0x1000, 0x2000, 0x3000)
}

#[test]
fn test_init_succeeds_once() {
    let mut kernel = Kernel::new();
    assert_eq!(kernel.stage, InitStage::Start);
    assert_eq!(run_init(&mut kernel), Ok(()));
    assert_eq!(kernel.stage, InitStage::InterruptsEnabled);
    assert!(kernel.interrupts_enabled);
    assert_eq!(kernel.selectors.code_selector, 8);
    assert_eq!(kernel.selectors.tss_selector, 16);
    assert_eq!(kernel.pics.primary.offset, 32);
    assert_eq!(kernel.pics.secondary.offset, 40);
    assert_eq!(kernel.tss.interrupt_stack_table[0], STACK_START + 4096 * 5);
}

#[test]
fn test_second_init_is_refused() {
    let mut kernel = Kernel::new();
    assert_eq!(run_init(&mut kernel), Ok(()));
    assert_eq!(run_init(&mut kernel), Err(InitError::AlreadyInitialized));
    // The refused call changed nothing.
    assert_eq!(kernel.stage, InitStage::InterruptsEnabled);
    assert!(kernel.interrupts_enabled);
}

#[test]
fn test_out_of_order_steps_are_refused() {
    let mut kernel = Kernel::new();
    assert_eq!(
        kernel.load_vector_table(0x1000, 0x2000, 0x3000),
        Err(InitError::OutOfOrder)
    );
    assert_eq!(kernel.initialize_controller(), Err(InitError::OutOfOrder));
    assert_eq!(kernel.enable_interrupts(), Err(InitError::OutOfOrder));
    assert_eq!(kernel.stage, InitStage::Start);
    assert!(!kernel.interrupts_enabled);
}

#[test]
fn test_repeated_substep_is_refused() {
    let mut kernel = Kernel::new();
    assert_eq!(kernel.load_descriptor_tables(STACK_START, TSS_BASE), Ok(()));
    assert_eq!(
        kernel.load_descriptor_tables(STACK_START, TSS_BASE),
        Err(InitError::AlreadyInitialized)
    );
    assert_eq!(kernel.load_vector_table(0x1000, 0x2000, 0x3000), Ok(()));
    assert_eq!(
        kernel.load_vector_table(0x1000, 0x2000, 0x3000),
        Err(InitError::AlreadyInitialized)
    );
    assert_eq!(kernel.initialize_controller(), Ok(()));
    assert_eq!(kernel.initialize_controller(), Err(InitError::AlreadyInitialized));
    assert_eq!(kernel.enable_interrupts(), Ok(()));
    assert_eq!(kernel.enable_interrupts(), Err(InitError::AlreadyInitialized));
    assert_eq!(kernel.stage, InitStage::InterruptsEnabled);
}

#[test]
fn test_exit_code_values() {
    assert_eq!(QemuExitCode::Success.code(), 0x10);
    assert_eq!(QemuExitCode::Failed.code(), 0x11);
}

struct CountingCase {
    runs: Cell<u32>,
}

impl Testable for CountingCase {
    fn run(&self) {
        self.runs.set(self.runs.get() + 1);
    }
}

#[test]
fn test_runner_runs_every_case_and_reports_success() {
    let cases = [
        CountingCase { runs: Cell::new(0) },
        CountingCase { runs: Cell::new(0) },
        CountingCase { runs: Cell::new(0) },
    ];
    let code = test_runner(&cases);
    assert_eq!(code, QemuExitCode::Success);
    for case in &cases {
        assert_eq!(case.runs.get(), 1);
    }
}
