//! The kernel and the processor together, as a machine that takes
//! exceptions.
//!
//! Once boot is over, control enters the fault-isolation core only when the
//! processor raises an exception. The machine says what follows: which
//! handler is entered on which stack, what it reports, and whether the
//! kernel goes on running.

use vstd::prelude::*;
use crate::kernel::cpu::{
    lemma_kernel_dispatch,
    Dispatch,
    Processor,
    Stack,
    Tables,
    TablesView,
};
use crate::kernel::gdt::{
    kernel_table,
    lemma_selectors_resolve,
    Selectors,
    DOUBLE_FAULT_IST_INDEX,
    KERNEL_CODE_SELECTOR,
    TSS_SELECTOR,
};
use crate::kernel::interrupts::{
    bp_handler,
    breakpoint_report,
    df_handler,
    double_fault_report,
    kernel_vectors,
    Handler,
    StackFrame,
    Terminal,
    BREAKPOINT_VECTOR,
    DOUBLE_FAULT_VECTOR,
};
use crate::{boot_sequence, init, lemma_boot_order, Mode, QemuExitCode};

verus! {

/// Vector of the page fault, which is what running off the end of the
/// kernel stack raises first.
pub const PAGE_FAULT_VECTOR: u8 = 14;

/// Error code that the processor passes to the double-fault handler. It is
/// always zero.
pub const DOUBLE_FAULT_ERROR_CODE: u64 = 0;

/// Whether the kernel is still running, and if not, how it ended.
#[derive(Debug, Clone, Copy, PartialEq, Eq, Structural)]
pub enum Status {
    /// The kernel runs.
    Running,
    /// A fatal fault was reported and the processor halted.
    Halted,
    /// A fatal fault was reported and the host was told to exit.
    Exited(QemuExitCode),
    /// The processor reset: a misconfiguration, of which nothing is
    /// reported.
    Reset,
    /// Control went to a handler outside the fault-isolation core, at the
    /// given address.
    Foreign(u64),
}

/// How the kernel stands after a handler that does not return.
pub open spec fn ended(terminal: Terminal) -> Status {
    match terminal {
        Terminal::Halt => Status::Halted,
        Terminal::Exit(code) => Status::Exited(code),
    }
}

/// The kernel's tables, the processor, and what has happened so far.
pub struct Machine {
    pub cpu: Processor,
    pub tables: Tables,
    pub mode: Mode,
    pub status: Status,
    /// The diagnostics that the handlers have emitted, oldest first.
    pub diagnostics: Vec<String>,
    /// The handler entries that the processor has made, oldest first.
    pub entries: Vec<Dispatch>,
}

/// The mathematical content of `Machine`.
pub struct MachineView {
    pub cpu: Processor,
    pub tables: TablesView,
    pub mode: Mode,
    pub status: Status,
    pub diagnostics: Seq<Seq<char>>,
    pub entries: Seq<Dispatch>,
}

impl View for Machine {
    type V = MachineView;

    open spec fn view(&self) -> MachineView {
        MachineView {
            cpu: self.cpu,
            tables: self.tables@,
            mode: self.mode,
            status: self.status,
            diagnostics: self.diagnostics@.map_values(|s: String| s@),
            entries: self.entries@,
        }
    }
}

impl MachineView {
    /// The machine after `vector` is raised with the given saved context,
    /// while the current stack is, or is not, usable. A kernel that has
    /// ended takes no more exceptions.
    pub open spec fn after_exception(
        self,
        vector: u8,
        frame: StackFrame,
        stack_usable: bool,
    ) -> MachineView {
        if self.status != Status::Running {
            self
        } else {
            match self.cpu.dispatch(self.tables, vector, stack_usable) {
                Dispatch::Reset => MachineView { status: Status::Reset, ..self },
                Dispatch::Enter { vector: taken, handler, stack } => {
                    let entries = self.entries.push(
                        Dispatch::Enter { vector: taken, handler, stack },
                    );
                    match handler {
                        Handler::Breakpoint => MachineView {
                            diagnostics: self.diagnostics.push(breakpoint_report(frame)),
                            entries,
                            ..self
                        },
                        Handler::DoubleFault => MachineView {
                            diagnostics: self.diagnostics.push(
                                double_fault_report(frame, DOUBLE_FAULT_ERROR_CODE),
                            ),
                            status: ended(Terminal::of(self.mode)),
                            entries,
                            ..self
                        },
                        Handler::External(address) => MachineView {
                            status: Status::Foreign(address),
                            entries,
                            ..self
                        },
                    }
                },
            }
        }
    }

    /// The machine after a breakpoint is hit once for each of the saved
    /// contexts, in order, each time with a usable stack.
    pub open spec fn after_breakpoints(self, frames: Seq<StackFrame>) -> MachineView
        decreases frames.len(),
    {
        if frames.len() == 0 {
            self
        } else {
            self.after_breakpoints(frames.drop_last()).after_exception(
                BREAKPOINT_VECTOR,
                frames.last(),
                true,
            )
        }
    }

    /// Whether the machine is the kernel after a boot that went well: it
    /// runs, the processor is configured, the vector table is the kernel's
    /// and the double-fault slot of the interrupt stack table holds a stack.
    pub open spec fn protected(self) -> bool {
        &&& self.status == Status::Running
        &&& self.cpu.configured(self.tables)
        &&& self.tables.vectors == kernel_vectors()
        &&& self.tables.stacks.len() > DOUBLE_FAULT_IST_INDEX
        &&& self.tables.stacks[DOUBLE_FAULT_IST_INDEX as int] != 0
    }
}

impl Machine {
    /// Boots the kernel on a fresh processor: performs the operations that
    /// `init` gives, in its order. If the processor refuses one of them it
    /// resets, since no handler can be entered yet.
    pub fn boot(tables: Tables, selectors: &Selectors, mode: Mode) -> (machine: Machine)
        ensures
            machine@.tables == tables@,
            machine@.mode == mode,
            machine@.diagnostics == Seq::<Seq<char>>::empty(),
            machine@.entries == Seq::<Dispatch>::empty(),
            match Processor::fresh().run(tables@, boot_sequence(*selectors)) {
                Ok(cpu) => machine@.cpu == cpu && machine@.status == Status::Running,
                Err(_) => machine@.cpu == Processor::fresh() && machine@.status == Status::Reset,
            },
    {
        let mut cpu = Processor::new();
        let status = match init(selectors) {
            Ok(plan) => match cpu.run_plan(&tables, &plan) {
                Ok(()) => Status::Running,
                Err(_) => Status::Reset,
            },
            Err(()) => Status::Reset,
        };
        let machine = Machine {
            cpu,
            tables,
            mode,
            status,
            diagnostics: Vec::new(),
            entries: Vec::new(),
        };
        assert(machine@.diagnostics =~= Seq::<Seq<char>>::empty());
        machine
    }

    /// Raises `vector` with the given saved context, while the current
    /// stack is, or is not, usable.
    pub fn exception(&mut self, vector: u8, frame: &StackFrame, stack_usable: bool)
        ensures
            final(self)@ == old(self)@.after_exception(vector, *frame, stack_usable),
    {
        match self.status {
            Status::Running => {},
            _ => {
                return ;
            },
        }
        let ghost before = self@;
        match self.cpu.raise(&self.tables, vector, stack_usable) {
            Dispatch::Reset => {
                self.status = Status::Reset;
            },
            Dispatch::Enter { vector: taken, handler, stack } => {
                self.entries.push(Dispatch::Enter { vector: taken, handler, stack });
                match handler {
                    Handler::Breakpoint => {
                        let report = bp_handler(frame);
                        self.diagnostics.push(report);
                        assert(self@.diagnostics =~= before.diagnostics.push(
                            breakpoint_report(*frame),
                        ));
                    },
                    Handler::DoubleFault => {
                        let (report, terminal) = df_handler(
                            frame,
                            DOUBLE_FAULT_ERROR_CODE,
                            self.mode,
                        );
                        self.diagnostics.push(report);
                        self.status = match terminal {
                            Terminal::Halt => Status::Halted,
                            Terminal::Exit(code) => Status::Exited(code),
                        };
                        assert(self@.diagnostics =~= before.diagnostics.push(
                            double_fault_report(*frame, DOUBLE_FAULT_ERROR_CODE),
                        ));
                    },
                    Handler::External(address) => {
                        self.status = Status::Foreign(address);
                    },
                }
            },
        }
    }

    /// Hits a breakpoint: the breakpoint vector is raised from code whose
    /// stack is in order.
    pub fn breakpoint(&mut self, frame: &StackFrame)
        ensures
            final(self)@ == old(self)@.after_exception(BREAKPOINT_VECTOR, *frame, true),
    {
        self.exception(BREAKPOINT_VECTOR, frame, true)
    }

    /// Runs off the end of the kernel stack: a page fault is raised and the
    /// current stack cannot take the exception frame.
    pub fn stack_overflow(&mut self, frame: &StackFrame)
        ensures
            final(self)@ == old(self)@.after_exception(PAGE_FAULT_VECTOR, *frame, false),
    {
        self.exception(PAGE_FAULT_VECTOR, frame, false)
    }
}

/// A breakpoint is resumable. However often a breakpoint is hit on a
/// protected machine, the kernel goes on running with the processor and the
/// tables as they were; each hit enters the breakpoint handler on the
/// current stack and adds exactly one diagnostic, the report of the context
/// it was hit in.
pub proof fn lemma_breakpoints_resume(machine: MachineView, frames: Seq<StackFrame>)
    requires
        machine.protected(),
    ensures
        ({
            let after = machine.after_breakpoints(frames);
            &&& after.protected()
            &&& after.cpu == machine.cpu
            &&& after.tables == machine.tables
            &&& after.mode == machine.mode
            &&& after.diagnostics == machine.diagnostics + frames.map_values(
                |f: StackFrame| breakpoint_report(f),
            )
            &&& after.entries == machine.entries + frames.map_values(
                |f: StackFrame|
                    Dispatch::Enter {
                        vector: BREAKPOINT_VECTOR,
                        handler: Handler::Breakpoint,
                        stack: Stack::Current,
                    },
            )
        }),
    decreases frames.len(),
{
    let report = |f: StackFrame| breakpoint_report(f);
    let entry = |f: StackFrame|
        Dispatch::Enter {
            vector: BREAKPOINT_VECTOR,
            handler: Handler::Breakpoint,
            stack: Stack::Current,
        };
    if frames.len() == 0 {
        assert(machine.diagnostics + frames.map_values(report) =~= machine.diagnostics);
        assert(machine.entries + frames.map_values(entry) =~= machine.entries);
    } else {
        let earlier = machine.after_breakpoints(frames.drop_last());
        lemma_breakpoints_resume(machine, frames.drop_last());
        lemma_kernel_dispatch(earlier.cpu, earlier.tables, BREAKPOINT_VECTOR, true);
        assert(frames.map_values(report) =~= frames.drop_last().map_values(report).push(
            breakpoint_report(frames.last()),
        ));
        assert(frames.map_values(entry) =~= frames.drop_last().map_values(entry).push(
            entry(frames.last()),
        ));
        let after = machine.after_breakpoints(frames);
        assert(after.diagnostics =~= machine.diagnostics + frames.map_values(report));
        assert(after.entries =~= machine.entries + frames.map_values(entry));
    }
}

/// A double fault is survived. Whatever is raised on a protected machine
/// while the current stack is unusable, the processor enters the
/// double-fault handler, once, on the alternate stack; the handler reports
/// the fault and the kernel ends in the way its mode asks for. It never
/// resets, and it takes no further exception.
pub proof fn lemma_stack_exhaustion_is_survived(
    machine: MachineView,
    vector: u8,
    frame: StackFrame,
)
    requires
        machine.protected(),
    ensures
        ({
            let after = machine.after_exception(vector, frame, false);
            &&& after.entries == machine.entries.push(
                Dispatch::Enter {
                    vector: DOUBLE_FAULT_VECTOR,
                    handler: Handler::DoubleFault,
                    stack: Stack::Alternate(machine.tables.stacks[DOUBLE_FAULT_IST_INDEX as int]),
                },
            )
            &&& after.diagnostics == machine.diagnostics.push(
                double_fault_report(frame, DOUBLE_FAULT_ERROR_CODE),
            )
            &&& after.status == match machine.mode {
                Mode::Normal => Status::Halted,
                Mode::Verification => Status::Exited(QemuExitCode::Failed),
            }
            &&& forall|v: u8, f: StackFrame, usable: bool| #[trigger]
                after.after_exception(v, f, usable) == after
        }),
{
    lemma_kernel_dispatch(machine.cpu, machine.tables, vector, false);
}

/// Boot protects. With a descriptor table as `build_gdt` lays it out and its
/// selectors, the kernel's vector table and a stack in the double-fault slot
/// of the interrupt stack table, the processor refuses no operation of boot
/// and the machine that results is protected.
pub proof fn lemma_boot_protects(tables: TablesView, selectors: Selectors, mode: Mode)
    requires
        kernel_table(tables.descriptors),
        selectors.code_selector.0 == KERNEL_CODE_SELECTOR,
        selectors.tss_selector.0 == TSS_SELECTOR,
        tables.vectors == kernel_vectors(),
        tables.stacks.len() > DOUBLE_FAULT_IST_INDEX,
        tables.stacks[DOUBLE_FAULT_IST_INDEX as int] != 0,
    ensures
        Processor::fresh().run(tables, boot_sequence(selectors)) matches Ok(cpu) && (MachineView {
            cpu,
            tables,
            mode,
            status: Status::Running,
            diagnostics: Seq::empty(),
            entries: Seq::empty(),
        }).protected(),
{
    lemma_selectors_resolve(tables.descriptors);
    lemma_boot_order(tables, selectors, 4);
    assert(boot_sequence(selectors).take(4) =~= boot_sequence(selectors));
}

} // verus!
