//! Fault-isolation core of a small freestanding x86-64 kernel, together with
//! the text console that its exception handlers report to.
//!
//! The kernel survives a processor fault only if three structures agree: the
//! segment descriptor table, the task-state record with its alternate stack,
//! and the exception vector table. This crate builds them, says in which
//! order boot code has to hand them to the processor, and holds both against
//! a model of the processor's exception dispatch.

use vstd::prelude::*;
use vstd::string::StringExecFns;
use crate::kernel::cpu::{ConfigError, PrivilegedOp, Processor, TablesView};
use crate::kernel::gdt::{gdt_init, gdt_sequence, resolve, DescriptorKind, Selectors};
use crate::kernel::interrupts::{idt_init, idt_sequence};

pub mod drivers;
pub mod kernel;
pub use crate::drivers::display::vga;
pub use crate::kernel::interrupts;

verus! {

/// The status with which a kernel under test asks its host to exit.
#[derive(Debug, Clone, Copy, PartialEq, Eq, Structural)]
pub enum QemuExitCode {
    /// Every test passed.
    Success,
    /// A test failed, or the kernel met a fatal fault.
    Failed,
}

/// Whether the kernel runs on its own or under a test harness.
#[derive(Debug, Clone, Copy, PartialEq, Eq, Structural)]
pub enum Mode {
    /// Normal operation: a fatal fault halts the processor.
    Normal,
    /// Under test: a fatal fault ends the run with a failure status.
    Verification,
}

/// A test that the kernel's test harness can run. A test that fails does
/// not return: it panics, and the panic handler ends the run.
pub trait Testable {
    /// Runs the test. Returning means that it passed.
    fn run(&self);
}

/// Runs every test, in order, and gives the number of tests that ran and
/// the status to exit with. Only a run in which every test returned gets
/// here, so the status is success.
pub fn test_runner(tests: &[&dyn Testable]) -> (summary: (usize, QemuExitCode))
    ensures
        summary.0 == tests@.len(),
        summary.1 == QemuExitCode::Success,
{
    let mut ran: usize = 0;
    while ran < tests.len()
        invariant
            ran <= tests@.len(),
        decreases tests@.len() - ran,
    {
        tests[ran].run();
        ran += 1;
    }
    (ran, QemuExitCode::Success)
}

/// What the test harness writes when a test panics: a failure mark and the
/// panic's description, each followed by an empty line.
pub open spec fn failure_report(info: Seq<char>) -> Seq<char> {
    "[failed]\n\nError: "@ + info + "\n\n"@
}

/// Panic handling under test: gives the text to write for a panic with the
/// given description, and the status to exit with, which is failure.
pub fn test_panic_handler(info: &str) -> (end: (String, QemuExitCode))
    ensures
        end.0@ == failure_report(info@),
        end.1 == QemuExitCode::Failed,
{
    let mut report = String::from_str("[failed]\n\nError: ");
    report.append(info);
    report.append("\n\n");
    (report, QemuExitCode::Failed)
}

/// The privileged operations of boot, in order: first everything that
/// concerns the descriptor table, then the vector table. The double-fault
/// gate refers to a stack of the task-state record, which means something
/// only once the task register names that record.
pub open spec fn boot_sequence(selectors: Selectors) -> Seq<PrivilegedOp> {
    gdt_sequence(selectors) + idt_sequence()
}

/// Initialises the fault-isolation core: gives the privileged operations
/// that boot code has to perform, once and in this order, before any
/// exception may occur. There is no failure path.
pub fn init(selectors: &Selectors) -> (plan: Result<Vec<PrivilegedOp>, ()>)
    ensures
        plan is Ok,
        plan->Ok_0@ == boot_sequence(*selectors),
{
    let mut plan = gdt_init(selectors);
    let mut vectors = idt_init();
    plan.append(&mut vectors);
    Ok(plan)
}

/// The processor after the first `done` operations of boot, provided that
/// both selectors name descriptors of the right type.
pub open spec fn boot_progress(selectors: Selectors, done: int) -> Processor {
    Processor {
        descriptor_table: done >= 1,
        code_segment: if done >= 2 {
            Some(selectors.code_selector)
        } else {
            None
        },
        task_register: if done >= 3 {
            Some(selectors.tss_selector)
        } else {
            None
        },
        vector_table: done >= 4,
    }
}

/// Boot is in the right order. If the two selectors name a code segment and
/// a task-state record, the processor refuses none of the operations of
/// `boot_sequence`, and at no point on the way is the vector table active
/// while the task register does not yet name the task-state record. At the
/// end the processor is configured.
pub proof fn lemma_boot_order(tables: TablesView, selectors: Selectors, done: int)
    requires
        resolve(tables.descriptors, selectors.code_selector) == DescriptorKind::Code,
        resolve(tables.descriptors, selectors.tss_selector) == DescriptorKind::TaskState,
        0 <= done <= boot_sequence(selectors).len(),
    ensures
        boot_sequence(selectors).len() == 4,
        Processor::fresh().run(tables, boot_sequence(selectors).take(done)) == Ok::<
            Processor,
            ConfigError,
        >(boot_progress(selectors, done)),
        boot_progress(selectors, done).vector_table ==> boot_progress(
            selectors,
            done,
        ).task_state_active(tables),
        boot_progress(selectors, 4).configured(tables),
{
    let ops = boot_sequence(selectors);
    let prefix = ops.take(done);
    reveal_with_fuel(Processor::run, 5);
    assert(ops.len() == 4);
    if done >= 1 {
        assert(prefix[0] == ops[0]);
        assert(prefix.skip(1).len() == done - 1);
    }
    if done >= 2 {
        assert(prefix.skip(1)[0] == ops[1]);
        assert(prefix.skip(1).skip(1).len() == done - 2);
    }
    if done >= 3 {
        assert(prefix.skip(1).skip(1)[0] == ops[2]);
        assert(prefix.skip(1).skip(1).skip(1).len() == done - 3);
    }
    if done >= 4 {
        assert(prefix.skip(1).skip(1).skip(1)[0] == ops[3]);
        assert(prefix.skip(1).skip(1).skip(1).skip(1).len() == 0);
    }
}

} // verus!
