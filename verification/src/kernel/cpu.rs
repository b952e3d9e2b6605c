//! A model of the processor, as far as the fault-isolation core programs it
//! and depends on it.
//!
//! Boot code performs a short sequence of privileged operations; afterwards
//! the processor enters the kernel on its own whenever it raises an
//! exception. The model records which of the kernel's tables are active and
//! which selectors the segment and task registers hold, and says which
//! handler the processor enters on which stack when an exception is raised.
//! A misconfiguration that real hardware answers with a reset is a
//! `ConfigError` or a `Dispatch::Reset` here.

use vstd::prelude::*;
use x86_64::structures::gdt::GlobalDescriptorTable;
use x86_64::structures::tss::TaskStateSegment;
use crate::kernel::gdt::{
    gdt_entries,
    gdt_words,
    lookup,
    resolve,
    tss_stack_table,
    tss_stacks,
    DescriptorKind,
    Selector,
    DOUBLE_FAULT_IST_INDEX,
};
use crate::kernel::interrupts::{
    kernel_vectors,
    Gate,
    Handler,
    VectorTable,
    BREAKPOINT_VECTOR,
    DOUBLE_FAULT_VECTOR,
    VECTORS,
};

verus! {

/// A privileged operation that boot code performs on the processor.
#[derive(Debug, Clone, Copy, PartialEq, Eq, Structural)]
pub enum PrivilegedOp {
    /// Make the kernel's descriptor table the active one. The segment and
    /// task registers keep what they hold.
    LoadDescriptorTable,
    /// Reload the code-segment register with a selector.
    ReloadCodeSegment(Selector),
    /// Load the task register with a selector.
    AdoptTaskState(Selector),
    /// Make the kernel's vector table the active one.
    LoadVectorTable,
}

/// Why the processor refuses a privileged operation.
#[derive(Debug, Clone, Copy, PartialEq, Eq, Structural)]
pub enum ConfigError {
    /// A selector was used before the kernel's descriptor table was loaded.
    StaleTable,
    /// The selector for the code-segment register does not name a code
    /// segment.
    NotCode,
    /// The selector for the task register does not name an available
    /// task-state record.
    NotTaskState,
}

/// The kernel's tables as the processor reads them from memory.
pub struct Tables {
    /// The words of the descriptor table.
    pub descriptors: Vec<u64>,
    /// The interrupt stack table of the task-state record.
    pub stacks: Vec<u64>,
    /// The vector table.
    pub vectors: VectorTable,
}

/// The mathematical content of `Tables`.
pub struct TablesView {
    pub descriptors: Seq<u64>,
    pub stacks: Seq<u64>,
    pub vectors: Seq<Option<Gate>>,
}

impl View for Tables {
    type V = TablesView;

    open spec fn view(&self) -> TablesView {
        TablesView {
            descriptors: self.descriptors@,
            stacks: self.stacks@,
            vectors: self.vectors@,
        }
    }
}

impl Tables {
    /// Records what the three structures hold.
    pub fn snapshot(
        gdt: &GlobalDescriptorTable,
        tss: &TaskStateSegment,
        vectors: VectorTable,
    ) -> (tables: Tables)
        ensures
            tables@.descriptors == gdt_entries(*gdt),
            tables@.stacks == tss_stack_table(*tss),
            tables@.vectors == vectors@,
    {
        Tables { descriptors: gdt_words(gdt), stacks: tss_stacks(tss), vectors }
    }
}

/// What the processor has been told so far.
#[derive(Debug, Clone, Copy, PartialEq, Eq, Structural)]
pub struct Processor {
    /// Whether the kernel's descriptor table is the active one.
    pub descriptor_table: bool,
    /// The selector that the code-segment register was reloaded with, if it
    /// was.
    pub code_segment: Option<Selector>,
    /// The selector that the task register was loaded with, if it was.
    pub task_register: Option<Selector>,
    /// Whether the kernel's vector table is the active one.
    pub vector_table: bool,
}

/// The stack that a handler runs on.
#[derive(Debug, Clone, Copy, PartialEq, Eq, Structural)]
pub enum Stack {
    /// The stack that was in use when the exception was raised.
    Current,
    /// A stack from the interrupt stack table, with its initial stack
    /// pointer.
    Alternate(u64),
}

/// What the processor does when an exception is raised.
#[derive(Debug, Clone, Copy, PartialEq, Eq, Structural)]
pub enum Dispatch {
    /// It enters a handler. `vector` is the vector whose gate was taken: the
    /// one raised, or the double fault if that one could not be delivered.
    Enter { vector: u8, handler: Handler, stack: Stack },
    /// Not even the double fault could be delivered: the processor resets.
    Reset,
}

impl Processor {
    /// The processor as the boot loader hands it over: none of the kernel's
    /// tables is active.
    pub open spec fn fresh() -> Processor {
        Processor {
            descriptor_table: false,
            code_segment: None,
            task_register: None,
            vector_table: false,
        }
    }

    /// Whether the task register names an available task-state record in
    /// the active descriptor table, so that the interrupt stack table can be
    /// found.
    pub open spec fn task_state_active(self, tables: TablesView) -> bool {
        &&& self.descriptor_table
        &&& self.task_register is Some
        &&& resolve(tables.descriptors, self.task_register->0) == DescriptorKind::TaskState
    }

    /// Whether the code-segment register names a code segment in the active
    /// descriptor table.
    pub open spec fn code_segment_active(self, tables: TablesView) -> bool {
        &&& self.descriptor_table
        &&& self.code_segment is Some
        &&& resolve(tables.descriptors, self.code_segment->0) == DescriptorKind::Code
    }

    /// Whether boot is complete: both tables are active and both registers
    /// name descriptors of the right type.
    pub open spec fn configured(self, tables: TablesView) -> bool {
        &&& self.code_segment_active(tables)
        &&& self.task_state_active(tables)
        &&& self.vector_table
    }

    /// The processor after one privileged operation, or why it refuses it.
    pub open spec fn step(self, tables: TablesView, op: PrivilegedOp) -> Result<
        Processor,
        ConfigError,
    > {
        match op {
            PrivilegedOp::LoadDescriptorTable => Ok(Processor { descriptor_table: true, ..self }),
            PrivilegedOp::ReloadCodeSegment(selector) => {
                if !self.descriptor_table {
                    Err(ConfigError::StaleTable)
                } else if resolve(tables.descriptors, selector) != DescriptorKind::Code {
                    Err(ConfigError::NotCode)
                } else {
                    Ok(Processor { code_segment: Some(selector), ..self })
                }
            },
            PrivilegedOp::AdoptTaskState(selector) => {
                if !self.descriptor_table {
                    Err(ConfigError::StaleTable)
                } else if resolve(tables.descriptors, selector) != DescriptorKind::TaskState {
                    Err(ConfigError::NotTaskState)
                } else {
                    Ok(Processor { task_register: Some(selector), ..self })
                }
            },
            PrivilegedOp::LoadVectorTable => Ok(Processor { vector_table: true, ..self }),
        }
    }

    /// The processor after a sequence of privileged operations, or the
    /// reason for which the first refused one is refused.
    pub open spec fn run(self, tables: TablesView, ops: Seq<PrivilegedOp>) -> Result<
        Processor,
        ConfigError,
    >
        decreases ops.len(),
    {
        if ops.len() == 0 {
            Ok(self)
        } else {
            match self.step(tables, ops[0]) {
                Ok(next) => next.run(tables, ops.skip(1)),
                Err(e) => Err(e),
            }
        }
    }

    /// The stack on which the processor enters through `gate`, or `None` if
    /// it cannot enter: a gate without a stack of its own needs the current
    /// stack to be usable; a gate bound to a slot of the interrupt stack
    /// table needs an active task-state record with a stack in that slot.
    pub open spec fn stack_for(self, tables: TablesView, gate: Gate, stack_usable: bool) -> Option<
        Stack,
    > {
        match gate.stack_index {
            None => if stack_usable {
                Some(Stack::Current)
            } else {
                None
            },
            Some(slot) => if self.task_state_active(tables) && slot < tables.stacks.len()
                && tables.stacks[slot as int] != 0 {
                Some(Stack::Alternate(tables.stacks[slot as int]))
            } else {
                None
            },
        }
    }

    /// Delivery of one vector, without escalation: `None` if the vector
    /// table is not active, the vector has no gate, or its gate's stack
    /// cannot be had.
    pub open spec fn deliver(self, tables: TablesView, vector: u8, stack_usable: bool) -> Option<
        Dispatch,
    > {
        if !self.vector_table || vector >= tables.vectors.len() {
            None
        } else {
            match tables.vectors[vector as int] {
                None => None,
                Some(gate) => match self.stack_for(tables, gate, stack_usable) {
                    Some(stack) => Some(Dispatch::Enter { vector, handler: gate.handler, stack }),
                    None => None,
                },
            }
        }
    }

    /// What the processor does when `vector` is raised while the current
    /// stack is, or is not, usable. An exception that cannot be delivered
    /// becomes a double fault; a double fault that cannot be delivered
    /// resets the processor.
    pub open spec fn dispatch(self, tables: TablesView, vector: u8, stack_usable: bool) -> Dispatch {
        match self.deliver(tables, vector, stack_usable) {
            Some(entered) => entered,
            None => match self.deliver(tables, DOUBLE_FAULT_VECTOR, stack_usable) {
                Some(entered) => entered,
                None => Dispatch::Reset,
            },
        }
    }

    /// The processor as the boot loader hands it over.
    pub fn new() -> (cpu: Processor)
        ensures
            cpu == Processor::fresh(),
    {
        Processor {
            descriptor_table: false,
            code_segment: None,
            task_register: None,
            vector_table: false,
        }
    }

    /// Performs one privileged operation. A refused operation changes
    /// nothing.
    pub fn execute(&mut self, tables: &Tables, op: PrivilegedOp) -> (r: Result<(), ConfigError>)
        ensures
            match old(self).step(tables@, op) {
                Ok(next) => r is Ok && *final(self) == next,
                Err(e) => r == Err::<(), ConfigError>(e) && *final(self) == *old(self),
            },
    {
        match op {
            PrivilegedOp::LoadDescriptorTable => {
                self.descriptor_table = true;
                Ok(())
            },
            PrivilegedOp::ReloadCodeSegment(selector) => {
                if !self.descriptor_table {
                    Err(ConfigError::StaleTable)
                } else if lookup(&tables.descriptors, selector) != DescriptorKind::Code {
                    Err(ConfigError::NotCode)
                } else {
                    self.code_segment = Some(selector);
                    Ok(())
                }
            },
            PrivilegedOp::AdoptTaskState(selector) => {
                if !self.descriptor_table {
                    Err(ConfigError::StaleTable)
                } else if lookup(&tables.descriptors, selector) != DescriptorKind::TaskState {
                    Err(ConfigError::NotTaskState)
                } else {
                    self.task_register = Some(selector);
                    Ok(())
                }
            },
            PrivilegedOp::LoadVectorTable => {
                self.vector_table = true;
                Ok(())
            },
        }
    }

    /// Performs a sequence of privileged operations in order, up to the
    /// first that is refused. If one is refused, nothing changes.
    pub fn run_plan(&mut self, tables: &Tables, plan: &Vec<PrivilegedOp>) -> (r: Result<
        (),
        ConfigError,
    >)
        ensures
            match old(self).run(tables@, plan@) {
                Ok(last) => r is Ok && *final(self) == last,
                Err(e) => r == Err::<(), ConfigError>(e) && *final(self) == *old(self),
            },
    {
        let mut cpu = *self;
        let mut i: usize = 0;
        assert(plan@.skip(0) =~= plan@);
        while i < plan.len()
            invariant
                i <= plan@.len(),
                old(self).run(tables@, plan@) == cpu.run(tables@, plan@.skip(i as int)),
                *self == *old(self),
            decreases plan@.len() - i,
        {
            let ghost rest = plan@.skip(i as int);
            assert(rest[0] == plan@[i as int]);
            assert(rest.skip(1) =~= plan@.skip(i + 1));
            match cpu.execute(tables, plan[i]) {
                Ok(()) => {},
                Err(e) => {
                    return Err(e);
                },
            }
            i += 1;
        }
        *self = cpu;
        Ok(())
    }

    /// Whether the task register names an available task-state record in
    /// the active descriptor table.
    pub fn has_task_state(&self, tables: &Tables) -> (active: bool)
        ensures
            active == self.task_state_active(tables@),
    {
        match self.task_register {
            Some(selector) => self.descriptor_table && lookup(&tables.descriptors, selector)
                == DescriptorKind::TaskState,
            None => false,
        }
    }

    /// Delivery of one vector, without escalation.
    fn try_deliver(&self, tables: &Tables, vector: u8, stack_usable: bool) -> (entered: Option<
        Dispatch,
    >)
        ensures
            entered == self.deliver(tables@, vector, stack_usable),
    {
        if !self.vector_table {
            return None;
        }
        let gate = match tables.vectors.gate(vector) {
            Some(gate) => gate,
            None => {
                return None;
            },
        };
        let stack = match gate.stack_index {
            None => {
                if !stack_usable {
                    return None;
                }
                Stack::Current
            },
            Some(slot) => {
                let slot = slot as usize;
                if !self.has_task_state(tables) || slot >= tables.stacks.len()
                    || tables.stacks[slot] == 0 {
                    return None;
                }
                Stack::Alternate(tables.stacks[slot])
            },
        };
        Some(Dispatch::Enter { vector, handler: gate.handler, stack })
    }

    /// What the processor does when `vector` is raised while the current
    /// stack is, or is not, usable.
    pub fn raise(&self, tables: &Tables, vector: u8, stack_usable: bool) -> (d: Dispatch)
        ensures
            d == self.dispatch(tables@, vector, stack_usable),
    {
        match self.try_deliver(tables, vector, stack_usable) {
            Some(entered) => entered,
            None => match self.try_deliver(tables, DOUBLE_FAULT_VECTOR, stack_usable) {
                Some(entered) => entered,
                None => Dispatch::Reset,
            },
        }
    }
}

/// The alternate stack is out of reach until the task register names the
/// task-state record: whatever is raised, no handler is entered on a stack
/// of the interrupt stack table, and a double fault whose gate is bound to
/// such a stack resets the processor. So a vector table that is loaded
/// before the descriptor table and the task register leaves the double
/// fault unhandled.
pub proof fn lemma_alternate_stack_needs_task_state(
    cpu: Processor,
    tables: TablesView,
    vector: u8,
    stack_usable: bool,
)
    requires
        !cpu.task_state_active(tables),
    ensures
        cpu.dispatch(tables, vector, stack_usable) is Enter ==> cpu.dispatch(
            tables,
            vector,
            stack_usable,
        )->stack == Stack::Current,
        tables.vectors.len() == VECTORS && tables.vectors[DOUBLE_FAULT_VECTOR as int] is Some
            && tables.vectors[DOUBLE_FAULT_VECTOR as int]->0.stack_index is Some ==> cpu.dispatch(
            tables,
            DOUBLE_FAULT_VECTOR,
            stack_usable,
        ) == Dispatch::Reset,
{
}

/// A double-fault gate without a stack of its own does not survive stack
/// exhaustion: if no gate of the table is bound to a stack, whatever is
/// raised while the current stack is unusable resets the processor.
pub proof fn lemma_unbound_gates_reset(cpu: Processor, tables: TablesView, vector: u8)
    requires
        forall|v: int|
            0 <= v < tables.vectors.len() && (#[trigger] tables.vectors[v]) is Some
                ==> tables.vectors[v]->0.stack_index is None,
    ensures
        cpu.dispatch(tables, vector, false) == Dispatch::Reset,
{
}

/// With the kernel's vector table on a configured processor, a breakpoint
/// hit on a usable stack enters the breakpoint handler on that stack, and
/// anything raised while the current stack is unusable, as well as any
/// other vector, enters the double-fault handler on the alternate stack.
pub proof fn lemma_kernel_dispatch(
    cpu: Processor,
    tables: TablesView,
    vector: u8,
    stack_usable: bool,
)
    requires
        cpu.configured(tables),
        tables.vectors == kernel_vectors(),
        tables.stacks.len() > DOUBLE_FAULT_IST_INDEX,
        tables.stacks[DOUBLE_FAULT_IST_INDEX as int] != 0,
    ensures
        cpu.dispatch(tables, vector, stack_usable) == if vector
            == BREAKPOINT_VECTOR && stack_usable {
            Dispatch::Enter { vector, handler: Handler::Breakpoint, stack: Stack::Current }
        } else {
            Dispatch::Enter {
                vector: DOUBLE_FAULT_VECTOR,
                handler: Handler::DoubleFault,
                stack: Stack::Alternate(
                    tables.stacks[DOUBLE_FAULT_IST_INDEX as int],
                ),
            }
        },
{
}

} // verus!
