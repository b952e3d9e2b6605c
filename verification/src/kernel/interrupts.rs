//! The exception vector table and the two exception handlers.
//!
//! The table maps each of the 256 vectors to a gate: the handler to enter
//! and, optionally, the slot of the interrupt stack table whose stack the
//! processor switches to before it enters the handler. Only the breakpoint
//! and the double fault have gates; the double fault's is bound to the
//! alternate stack, because a double fault is what follows when the kernel
//! stack runs out.

use vstd::prelude::*;
use vstd::string::StringExecFns;
use x86_64::structures::idt::InterruptStackFrameValue;
use x86_64::VirtAddr;
use crate::kernel::cpu::PrivilegedOp;
use crate::kernel::gdt::{DOUBLE_FAULT_IST_INDEX, IST_SLOTS};
use crate::{Mode, QemuExitCode};

verus! {

/// Number of vectors.
pub const VECTORS: usize = 256;

/// Vector of the breakpoint trap.
pub const BREAKPOINT_VECTOR: u8 = 3;

/// Vector of the double fault.
pub const DOUBLE_FAULT_VECTOR: u8 = 8;

/// The entry point that a gate leads to.
#[derive(Debug, Clone, Copy, PartialEq, Eq, Structural)]
pub enum Handler {
    /// This module's breakpoint handler.
    Breakpoint,
    /// This module's double-fault handler.
    DoubleFault,
    /// Code outside this module, at the given address.
    External(u64),
}

/// A populated entry of the vector table.
#[derive(Debug, Clone, Copy, PartialEq, Eq, Structural)]
pub struct Gate {
    /// Where the processor enters.
    pub handler: Handler,
    /// Slot of the interrupt stack table to switch to first, if any.
    pub stack_index: Option<u16>,
}

/// The exception vector table.
pub struct VectorTable {
    gates: Vec<Option<Gate>>,
}

impl View for VectorTable {
    type V = Seq<Option<Gate>>;

    closed spec fn view(&self) -> Seq<Option<Gate>> {
        self.gates@
    }
}

/// The table as `build_idt` fills it: a gate for the breakpoint on the
/// current stack, a gate for the double fault on the alternate stack, and
/// nothing else.
pub open spec fn kernel_vectors() -> Seq<Option<Gate>> {
    Seq::new(VECTORS as nat, |v: int| None::<Gate>).update(
        BREAKPOINT_VECTOR as int,
        Some(Gate { handler: Handler::Breakpoint, stack_index: None }),
    ).update(
        DOUBLE_FAULT_VECTOR as int,
        Some(Gate { handler: Handler::DoubleFault, stack_index: Some(DOUBLE_FAULT_IST_INDEX) }),
    )
}

impl VectorTable {
    #[verifier::type_invariant]
    spec fn inv(self) -> bool {
        self.gates@.len() == VECTORS
    }

    /// A table in which no vector has a gate.
    pub fn new() -> (table: VectorTable)
        ensures
            table@ == Seq::new(VECTORS as nat, |v: int| None::<Gate>),
    {
        let mut gates: Vec<Option<Gate>> = Vec::new();
        while gates.len() < VECTORS
            invariant
                gates@.len() <= VECTORS,
                forall|v: int| 0 <= v < gates@.len() ==> gates@[v] == None::<Gate>,
            decreases VECTORS - gates@.len(),
        {
            gates.push(None);
        }
        assert(gates@ =~= Seq::new(VECTORS as nat, |v: int| None::<Gate>));
        VectorTable { gates }
    }

    /// What a vector leads to, if it has a gate.
    pub fn gate(&self, vector: u8) -> (gate: Option<Gate>)
        ensures
            self@.len() == VECTORS,
            gate == self@[vector as int],
    {
        proof {
            use_type_invariant(self);
        }
        self.gates[vector as usize]
    }

    /// Gives a vector a handler. A gate that the vector already has keeps
    /// its stack; a new gate runs on the current stack.
    pub fn set_handler(&mut self, vector: u8, handler: Handler)
        ensures
            final(self)@ == old(self)@.update(
                vector as int,
                Some(
                    Gate {
                        handler,
                        stack_index: match old(self)@[vector as int] {
                            Some(gate) => gate.stack_index,
                            None => None,
                        },
                    },
                ),
            ),
    {
        proof {
            use_type_invariant(&*self);
        }
        let stack_index = match self.gates[vector as usize] {
            Some(gate) => gate.stack_index,
            None => None,
        };
        self.gates[vector as usize] = Some(Gate { handler, stack_index });
    }

    /// Binds a vector's gate to a slot of the interrupt stack table.
    /// Refused, with the table unchanged, if the vector has no gate or the
    /// table has no such slot.
    pub fn set_stack_index(&mut self, vector: u8, index: u16) -> (r: Result<(), ()>)
        ensures
            r is Ok <==> old(self)@[vector as int] is Some && index < IST_SLOTS,
            r is Ok ==> final(self)@ == old(self)@.update(
                vector as int,
                Some(Gate { handler: old(self)@[vector as int]->0.handler, stack_index: Some(index) }),
            ),
            r is Err ==> final(self)@ == old(self)@,
    {
        proof {
            use_type_invariant(&*self);
        }
        if index as usize >= IST_SLOTS {
            return Err(());
        }
        match self.gates[vector as usize] {
            Some(gate) => {
                self.gates[vector as usize] = Some(
                    Gate { handler: gate.handler, stack_index: Some(index) },
                );
                Ok(())
            },
            None => Err(()),
        }
    }
}

/// Builds the kernel's vector table: the breakpoint handler on the current
/// stack and the double-fault handler on the alternate stack. Every other
/// vector is left without a gate. Nothing is loaded into the processor.
pub fn build_idt() -> (table: VectorTable)
    ensures
        table@ == kernel_vectors(),
{
    let mut table = VectorTable::new();
    table.set_handler(BREAKPOINT_VECTOR, Handler::Breakpoint);
    table.set_handler(DOUBLE_FAULT_VECTOR, Handler::DoubleFault);
    let bound = table.set_stack_index(DOUBLE_FAULT_VECTOR, DOUBLE_FAULT_IST_INDEX);
    assert(bound is Ok);
    table
}

/// What initialising the vector table asks of the processor: load it.
pub open spec fn idt_sequence() -> Seq<PrivilegedOp> {
    seq![PrivilegedOp::LoadVectorTable]
}

/// The privileged operations that make the kernel's vector table the active
/// one, in order.
pub fn idt_init() -> (plan: Vec<PrivilegedOp>)
    ensures
        plan@ == idt_sequence(),
{
    let mut plan: Vec<PrivilegedOp> = Vec::new();
    plan.push(PrivilegedOp::LoadVectorTable);
    assert(plan@ =~= idt_sequence());
    plan
}

/// The execution context that the processor saves when it raises an
/// exception, and restores when the handler returns.
#[derive(Debug, Clone, Copy, PartialEq, Eq, Structural)]
pub struct StackFrame {
    /// Where execution continues when the handler returns.
    pub instruction_pointer: u64,
    /// The code-segment selector, padded with zeros.
    pub code_segment: u64,
    /// The flags register.
    pub cpu_flags: u64,
    /// The stack pointer at the time of the exception.
    pub stack_pointer: u64,
    /// The stack-segment selector, padded with zeros.
    pub stack_segment: u64,
}

/// How a handler that does not return ends.
#[derive(Debug, Clone, Copy, PartialEq, Eq, Structural)]
pub enum Terminal {
    /// The processor is halted for good.
    Halt,
    /// The hosting environment is told to exit with a status.
    Exit(QemuExitCode),
}

impl Terminal {
    /// How the kernel ends after a fatal fault: a kernel under test reports
    /// failure to its host, any other halts.
    pub open spec fn of(mode: Mode) -> Terminal {
        match mode {
            Mode::Normal => Terminal::Halt,
            Mode::Verification => Terminal::Exit(QemuExitCode::Failed),
        }
    }
}

/// The text that `{:#?}` gives for an `InterruptStackFrameValue` with the
/// given instruction pointer, code segment, flags, stack pointer and stack
/// segment.
pub uninterp spec fn frame_debug_text(ip: u64, cs: u64, flags: u64, sp: u64, ss: u64) -> Seq<char>;

/// The decimal digits of a number, most significant first.
pub open spec fn decimal(n: nat) -> Seq<char>
    decreases n,
{
    let digit = (0x30 + n % 10) as u8 as char;
    if n < 10 {
        seq![digit]
    } else {
        decimal(n / 10).push(digit)
    }
}

/// `x86_64`'s `Debug` for `InterruptStackFrameValue`, in its `{:#?}` form,
/// on a value made of the frame's fields. The two addresses go through
/// `VirtAddr::new_truncate`, which takes any value. The text depends on the
/// five fields alone.
#[verifier::external_body]
fn frame_dump(frame: &StackFrame) -> (text: String)
    ensures
        text@ == frame_debug_text(
            frame.instruction_pointer,
            frame.code_segment,
            frame.cpu_flags,
            frame.stack_pointer,
            frame.stack_segment,
        ),
{
    let value = InterruptStackFrameValue {
        instruction_pointer: VirtAddr::new_truncate(frame.instruction_pointer),
        code_segment: frame.code_segment,
        cpu_flags: frame.cpu_flags,
        stack_pointer: VirtAddr::new_truncate(frame.stack_pointer),
        stack_segment: frame.stack_segment,
    };
    format!("{:#?}", value)
}

/// The text of one decimal digit.
fn digit_text(digit: u64) -> (text: &'static str)
    requires
        digit < 10,
    ensures
        text@ == seq![(0x30 + digit) as u8 as char],
{
    proof {
        reveal_strlit("0");
        reveal_strlit("1");
        reveal_strlit("2");
        reveal_strlit("3");
        reveal_strlit("4");
        reveal_strlit("5");
        reveal_strlit("6");
        reveal_strlit("7");
        reveal_strlit("8");
        reveal_strlit("9");
    }
    let text = if digit == 0 {
        "0"
    } else if digit == 1 {
        "1"
    } else if digit == 2 {
        "2"
    } else if digit == 3 {
        "3"
    } else if digit == 4 {
        "4"
    } else if digit == 5 {
        "5"
    } else if digit == 6 {
        "6"
    } else if digit == 7 {
        "7"
    } else if digit == 8 {
        "8"
    } else {
        "9"
    };
    assert(text@ =~= seq![(0x30 + digit) as u8 as char]);
    text
}

/// A number in decimal.
fn decimal_string(n: u64) -> (text: String)
    ensures
        text@ == decimal(n as nat),
    decreases n,
{
    if n < 10 {
        let text = String::from_str(digit_text(n));
        assert(text@ =~= decimal(n as nat));
        text
    } else {
        let mut text = decimal_string(n / 10);
        text.append(digit_text(n % 10));
        assert(text@ =~= decimal(n as nat));
        text
    }
}

impl StackFrame {
    /// The frame as the handlers print it.
    pub open spec fn dump(self) -> Seq<char> {
        frame_debug_text(
            self.instruction_pointer,
            self.code_segment,
            self.cpu_flags,
            self.stack_pointer,
            self.stack_segment,
        )
    }
}

/// What the breakpoint handler reports: a banner and the saved context.
pub open spec fn breakpoint_report(frame: StackFrame) -> Seq<char> {
    "### CPU EXCEPTION: BREAKPOINT ###\n "@ + frame.dump()
}

/// What the double-fault handler reports: a banner with the error code and
/// the saved context.
pub open spec fn double_fault_report(frame: StackFrame, err_code: u64) -> Seq<char> {
    "### CPU EXCEPTION: DOUBLE FAULT | EC: "@ + decimal(err_code as nat) + " ###\n "@
        + frame.dump()
}

/// Breakpoint handler. It gives the diagnostic to emit and returns, so the
/// interrupted code resumes with the context it was interrupted in.
pub fn bp_handler(frame: &StackFrame) -> (report: String)
    ensures
        report@ == breakpoint_report(*frame),
{
    let mut report = String::from_str("### CPU EXCEPTION: BREAKPOINT ###\n ");
    let dump = frame_dump(frame);
    report.append(dump.as_str());
    report
}

/// Double-fault handler. The processor does not allow a return from a
/// double fault, so besides the diagnostic to emit the handler gives the
/// way in which the kernel ends.
pub fn df_handler(frame: &StackFrame, err_code: u64, mode: Mode) -> (end: (String, Terminal))
    ensures
        end.0@ == double_fault_report(*frame, err_code),
        end.1 == Terminal::of(mode),
{
    let mut report = String::from_str("### CPU EXCEPTION: DOUBLE FAULT | EC: ");
    let code = decimal_string(err_code);
    report.append(code.as_str());
    report.append(" ###\n ");
    let dump = frame_dump(frame);
    report.append(dump.as_str());
    let terminal = match mode {
        Mode::Normal => Terminal::Halt,
        Mode::Verification => Terminal::Exit(QemuExitCode::Failed),
    };
    (report, terminal)
}

} // verus!
