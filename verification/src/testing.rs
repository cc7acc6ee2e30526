//! Test harness logic: the pass/fail signal the kernel reports through
//! the emulator's debug-exit device, and the runner that executes a batch
//! of test cases. Writing the signal to the device port belongs to the
//! unverified shell.
use vstd::prelude::*;

verus! {

/// The exit signal reported when a test run finishes.
#[derive(Debug, Clone, Copy, PartialEq, Eq, Structural)]
pub enum QemuExitCode {
    Success,
    Failed,
}

/// The value the debug-exit device is handed for each signal. The device
/// shifts the value and sets its low bit, so the two signals stay apart
/// from every ordinary exit status.
pub open spec fn exit_code_value(code: QemuExitCode) -> u32 {
    match code {
        QemuExitCode::Success => 0x10,
        QemuExitCode::Failed => 0x11,
    }
}

impl QemuExitCode {
    /// The value written to the debug-exit device for this signal.
    pub fn code(self) -> (r: u32)
        ensures
            r == exit_code_value(self),
    {
        match self {
            QemuExitCode::Success => 0x10,
            QemuExitCode::Failed => 0x11,
        }
    }
}

/// One test case.
pub trait Testable {
    /// Runs the case; a failure panics.
    fn run(&self);
}

/// Runs every test in the batch in order. A run that comes back reports
/// success — a failing case never returns here, it panics into the
/// harness's panic path, which reports `Failed`.
pub fn test_runner<T: Testable>(tests: &[T]) -> (r: QemuExitCode)
    ensures
        r == QemuExitCode::Success,
{
    let mut i: usize = 0;
    while i < tests.len()
        invariant
            i <= tests@.len(),
        decreases tests@.len() - i,
    {
        tests[i].run();
        i = i + 1;
    }
    QemuExitCode::Success
}

} // verus!
