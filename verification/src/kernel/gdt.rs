//! The segment descriptor table, the task-state record and the alternate
//! stack that the double-fault handler runs on.
//!
//! In 64-bit mode the descriptor table no longer describes memory, but the
//! processor still needs one: the active code segment is named by a selector
//! into it, and so is the task-state record whose interrupt stack table
//! gives the processor a known-good stack to switch to before it enters a
//! handler.

use vstd::prelude::*;
use x86_64::structures::gdt::{Descriptor, GlobalDescriptorTable};
use x86_64::structures::tss::TaskStateSegment;
use x86_64::VirtAddr;
use crate::kernel::cpu::PrivilegedOp;

verus! {

/// Slot of the interrupt stack table that holds the double-fault stack.
pub const DOUBLE_FAULT_IST_INDEX: u16 = 0;

/// Number of slots in the interrupt stack table.
pub const IST_SLOTS: usize = 7;

/// Size in bytes of the memory reserved for the double-fault stack.
pub const STACK_SIZE: usize = 4096 * 5;

/// Alignment in bytes that the ABI asks of a stack.
pub const STACK_ALIGN: u64 = 16;

/// Largest number of 64-bit words in a descriptor table.
pub const GDT_CAPACITY: usize = 8;

/// The descriptor of a flat 64-bit ring-0 code segment.
pub const KERNEL_CODE64: u64 = 0x00af_9b00_0000_ffff;

/// Whether bits 47 to 63 of an address are all equal, which is what the
/// processor asks of every virtual address.
pub open spec fn is_canonical(addr: u64) -> bool {
    addr < 0x0000_8000_0000_0000 || addr >= 0xffff_8000_0000_0000
}

/// Whether `STACK_SIZE` bytes starting at `start` can serve as a stack: the
/// region is aligned, lies in one half of the canonical address space and
/// does not wrap around.
pub open spec fn valid_stack_region(start: u64) -> bool {
    &&& start % STACK_ALIGN == 0
    &&& is_canonical(start)
    &&& start + STACK_SIZE <= u64::MAX
    &&& is_canonical((start + STACK_SIZE) as u64)
}

/// `x86_64::structures::gdt::GlobalDescriptorTable`, by its words alone: see
/// `gdt_entries`.
#[verifier::external_type_specification]
#[verifier::external_body]
pub struct ExGlobalDescriptorTable(GlobalDescriptorTable);

/// `x86_64::structures::tss::TaskStateSegment`, by its interrupt stack table
/// alone: see `tss_stack_table`.
#[verifier::external_type_specification]
#[verifier::external_body]
pub struct ExTaskStateSegment(TaskStateSegment);

/// The 64-bit words of a descriptor table that are in use, the reserved null
/// descriptor first.
pub uninterp spec fn gdt_entries(gdt: GlobalDescriptorTable) -> Seq<u64>;

/// The interrupt stack table of a task-state record: `IST_SLOTS` stack
/// pointers, zero where a slot is not in use.
pub uninterp spec fn tss_stack_table(tss: TaskStateSegment) -> Seq<u64>;

/// `VirtAddr::new` followed by `VirtAddr + usize`: the address `len` bytes
/// above `start`. Both panic on an address that is not canonical, and the
/// sum must not overflow.
#[verifier::external_body]
fn address_above(start: u64, len: usize) -> (end: u64)
    requires
        is_canonical(start),
        start + len <= u64::MAX,
        is_canonical((start + len) as u64),
    ensures
        end == start + len,
{
    (VirtAddr::new(start) + len).as_u64()
}

/// `TaskStateSegment::new`: a record whose interrupt stack table is all
/// zero.
#[verifier::external_body]
fn tss_new() -> (tss: TaskStateSegment)
    ensures
        tss_stack_table(tss) == Seq::new(IST_SLOTS as nat, |i: int| 0u64),
{
    TaskStateSegment::new()
}

/// Stores a stack pointer in one slot of `interrupt_stack_table`, through
/// `VirtAddr::new`, which panics on an address that is not canonical. The
/// other slots keep their values.
#[verifier::external_body]
fn tss_set_stack(tss: &mut TaskStateSegment, index: usize, top: u64)
    requires
        index < IST_SLOTS,
        is_canonical(top),
    ensures
        tss_stack_table(*final(tss)) == tss_stack_table(*old(tss)).update(index as int, top),
{
    tss.interrupt_stack_table[index] = VirtAddr::new(top);
}

/// Reads `interrupt_stack_table` out as plain addresses, slot by slot.
#[verifier::external_body]
pub(crate) fn tss_stacks(tss: &TaskStateSegment) -> (stacks: Vec<u64>)
    ensures
        stacks@ == tss_stack_table(*tss),
{
    let table = tss.interrupt_stack_table;
    table.iter().map(|a| a.as_u64()).collect()
}

/// An index into the descriptor table together with a requested privilege
/// level: the table index in bits 3 to 15, the level in bits 0 and 1.
#[derive(Debug, Clone, Copy, PartialEq, Eq, Structural)]
pub struct Selector(pub u16);

impl Selector {
    /// Index of the table entry that the selector names.
    pub open spec fn spec_index(self) -> int {
        self.0 as int / 8
    }

    /// Privilege level that the selector asks for.
    pub open spec fn spec_rpl(self) -> int {
        self.0 as int % 4
    }

    /// Index of the table entry that the selector names.
    pub fn index(self) -> (i: u16)
        ensures
            i == self.spec_index(),
    {
        let bits: u16 = self.0;
        assert(bits >> 3 == bits / 8) by (bit_vector);
        bits >> 3
    }

    /// Privilege level that the selector asks for.
    pub fn rpl(self) -> (level: u16)
        ensures
            level == self.spec_rpl(),
    {
        let bits: u16 = self.0;
        assert(bits & 3 == bits % 4) by (bit_vector);
        bits & 3
    }
}

/// An entry for the descriptor table.
#[derive(Debug, Clone, Copy, PartialEq, Eq, Structural)]
pub enum SegmentDescriptor {
    /// A code or data segment: one 64-bit word.
    UserSegment(u64),
    /// A system segment such as a task-state record: two 64-bit words, the
    /// low one first.
    SystemSegment(u64, u64),
}

impl SegmentDescriptor {
    /// The word that holds the descriptor's type and privilege level.
    pub open spec fn low(self) -> u64 {
        match self {
            SegmentDescriptor::UserSegment(word) => word,
            SegmentDescriptor::SystemSegment(low, _) => low,
        }
    }

    /// The words the descriptor takes up in the table, in order.
    pub open spec fn words(self) -> Seq<u64> {
        match self {
            SegmentDescriptor::UserSegment(word) => seq![word],
            SegmentDescriptor::SystemSegment(low, high) => seq![low, high],
        }
    }

    /// Privilege level of the descriptor: bits 45 and 46 of its low word.
    pub open spec fn dpl(self) -> int {
        (self.low() as int / 0x2000_0000_0000) % 4
    }
}

/// Bit 47 of a descriptor: the segment is present.
pub const PRESENT: u64 = 0x0000_8000_0000_0000;

/// Bit 44 of a descriptor: set for code and data segments, clear for system
/// segments.
pub const USER_SEGMENT: u64 = 0x0000_1000_0000_0000;

/// Bit 43 of a code or data descriptor: set for code.
pub const EXECUTABLE: u64 = 0x0000_0800_0000_0000;

/// Bits 40 to 43 of a system descriptor: its type.
pub const SYSTEM_TYPE: u64 = 0x0000_0f00_0000_0000;

/// The type of an available 64-bit task-state record, in place.
pub const SYSTEM_TYPE_TSS: u64 = 0x0000_0900_0000_0000;

/// What a descriptor describes, as far as the processor's checks on segment
/// and task registers go.
#[derive(Debug, Clone, Copy, PartialEq, Eq, Structural)]
pub enum DescriptorKind {
    /// Not present: the null descriptor, an unused word, or an index
    /// outside the table.
    Absent,
    /// A code segment, which the code-segment register may name.
    Code,
    /// A data segment.
    Data,
    /// An available task-state record, which the task register may name.
    TaskState,
    /// A present system descriptor of another type, or a task-state
    /// descriptor whose second word lies outside the table.
    Other,
}

/// What the descriptor that starts with `word` describes.
pub open spec fn kind_of_word(word: u64) -> DescriptorKind {
    if word & PRESENT == 0 {
        DescriptorKind::Absent
    } else if word & USER_SEGMENT != 0 {
        if word & EXECUTABLE != 0 {
            DescriptorKind::Code
        } else {
            DescriptorKind::Data
        }
    } else if word & SYSTEM_TYPE == SYSTEM_TYPE_TSS {
        DescriptorKind::TaskState
    } else {
        DescriptorKind::Other
    }
}

/// What a selector names in a table with the given words. Index 0 is the
/// null descriptor whatever the table holds there.
pub open spec fn resolve(entries: Seq<u64>, selector: Selector) -> DescriptorKind {
    let i = selector.spec_index();
    if i == 0 || i >= entries.len() {
        DescriptorKind::Absent
    } else if kind_of_word(entries[i]) == DescriptorKind::TaskState && i + 1 >= entries.len() {
        DescriptorKind::Other
    } else {
        kind_of_word(entries[i])
    }
}

/// Looks a selector up in a table.
pub fn lookup(entries: &Vec<u64>, selector: Selector) -> (kind: DescriptorKind)
    ensures
        kind == resolve(entries@, selector),
{
    let i = selector.index() as usize;
    if i == 0 || i >= entries.len() {
        return DescriptorKind::Absent;
    }
    let word: u64 = entries[i];
    if word & PRESENT == 0 {
        DescriptorKind::Absent
    } else if word & USER_SEGMENT != 0 {
        if word & EXECUTABLE != 0 {
            DescriptorKind::Code
        } else {
            DescriptorKind::Data
        }
    } else if word & SYSTEM_TYPE == SYSTEM_TYPE_TSS {
        if i + 1 >= entries.len() {
            DescriptorKind::Other
        } else {
            DescriptorKind::TaskState
        }
    } else {
        DescriptorKind::Other
    }
}

/// The selectors of the two descriptors that the kernel's table holds.
#[derive(Debug, Clone, Copy, PartialEq, Eq, Structural)]
pub struct Selectors {
    /// Names the kernel code segment; goes into the code-segment register.
    pub code_selector: Selector,
    /// Names the task-state record; goes into the task register.
    pub tss_selector: Selector,
}

/// Selector of the kernel code segment: entry 1, ring 0.
pub const KERNEL_CODE_SELECTOR: u16 = 8;

/// Selector of the task-state record: entry 2, ring 0.
pub const TSS_SELECTOR: u16 = 16;

/// Bits of a task-state descriptor's low word that do not depend on where
/// the record lies: the limit, the type and the present bit.
pub const TSS_FIXED_MASK: u64 = 0x00ff_ff00_0000_ffff;

/// What those bits hold for an available 64-bit task-state record of 104
/// bytes that is present.
pub const TSS_FIXED_BITS: u64 = 0x0000_8900_0000_0067;

/// `GlobalDescriptorTable::new`: a table that holds the null descriptor and
/// nothing else.
#[verifier::external_body]
fn gdt_new() -> (gdt: GlobalDescriptorTable)
    ensures
        gdt_entries(gdt) == seq![0u64],
{
    GlobalDescriptorTable::new()
}

/// `GlobalDescriptorTable::add_entry`: appends the descriptor's words and
/// returns a selector made of the index of the first of them and of the
/// descriptor's privilege level. It panics when the table has no room.
#[verifier::external_body]
fn gdt_add_entry(gdt: &mut GlobalDescriptorTable, entry: SegmentDescriptor) -> (selector: Selector)
    requires
        gdt_entries(*old(gdt)).len() + entry.words().len() <= GDT_CAPACITY,
    ensures
        gdt_entries(*final(gdt)) == gdt_entries(*old(gdt)) + entry.words(),
        selector.0 == gdt_entries(*old(gdt)).len() * 8 + entry.dpl(),
{
    let entry = match entry {
        SegmentDescriptor::UserSegment(word) => Descriptor::UserSegment(word),
        SegmentDescriptor::SystemSegment(low, high) => Descriptor::SystemSegment(low, high),
    };
    Selector(gdt.add_entry(entry).0)
}

/// `GlobalDescriptorTable::as_raw_slice`: the words in use, copied out.
#[verifier::external_body]
pub(crate) fn gdt_words(gdt: &GlobalDescriptorTable) -> (words: Vec<u64>)
    ensures
        words@ == gdt_entries(*gdt),
{
    gdt.as_raw_slice().to_vec()
}

/// `Descriptor::kernel_code_segment`: the flat 64-bit ring-0 code segment.
#[verifier::external_body]
fn kernel_code_segment() -> (entry: SegmentDescriptor)
    ensures
        entry == SegmentDescriptor::UserSegment(KERNEL_CODE64),
{
    match Descriptor::kernel_code_segment() {
        Descriptor::UserSegment(word) => SegmentDescriptor::UserSegment(word),
        Descriptor::SystemSegment(low, high) => SegmentDescriptor::SystemSegment(low, high),
    }
}

/// `Descriptor::tss_segment`: a system descriptor for the record. The base
/// address it holds is where the record lies, so only the other bits are
/// stated: present, type "available 64-bit task state", limit 103, and a
/// high word that holds nothing but the upper half of the base.
#[verifier::external_body]
fn tss_segment(tss: &'static TaskStateSegment) -> (entry: SegmentDescriptor)
    ensures
        entry is SystemSegment,
        entry.low() & TSS_FIXED_MASK == TSS_FIXED_BITS,
        entry->SystemSegment_1 <= 0xffff_ffff,
{
    match Descriptor::tss_segment(tss) {
        Descriptor::UserSegment(word) => SegmentDescriptor::UserSegment(word),
        Descriptor::SystemSegment(low, high) => SegmentDescriptor::SystemSegment(low, high),
    }
}

/// The memory set aside for the double-fault handler's stack, known by the
/// address of its lowest byte.
pub struct AlternateStack {
    start: u64,
}

impl AlternateStack {
    #[verifier::type_invariant]
    spec fn inv(self) -> bool {
        valid_stack_region(self.start)
    }

    /// Address of the lowest byte of the region.
    pub closed spec fn start(self) -> u64 {
        self.start
    }

    /// Address just above the region, where an empty stack begins: stacks
    /// grow towards lower addresses.
    pub open spec fn spec_top(self) -> int {
        self.start() + STACK_SIZE
    }

    /// Takes the region of `STACK_SIZE` bytes at `start` as the alternate
    /// stack, if it can serve as a stack at all.
    pub fn new(start: u64) -> (stack: Option<AlternateStack>)
        ensures
            stack is Some <==> valid_stack_region(start),
            stack is Some ==> stack->0.start() == start,
    {
        let low: bool = start < 0x0000_8000_0000_0000;
        let high: bool = start >= 0xffff_8000_0000_0000;
        if start % STACK_ALIGN != 0 || !(low || high) {
            return None;
        }
        if start > u64::MAX - (STACK_SIZE as u64) {
            return None;
        }
        let end: u64 = start + (STACK_SIZE as u64);
        if end < 0x0000_8000_0000_0000 || end >= 0xffff_8000_0000_0000 {
            Some(AlternateStack { start })
        } else {
            None
        }
    }

    /// The initial stack pointer for this stack.
    pub fn top(&self) -> (top: u64)
        ensures
            top == self.spec_top(),
            top % STACK_ALIGN == 0,
            is_canonical(top),
            top != 0,
    {
        proof {
            use_type_invariant(self);
        }
        address_above(self.start, STACK_SIZE)
    }
}

/// A task-state record whose only stack is the double-fault stack, in slot
/// `DOUBLE_FAULT_IST_INDEX`.
pub fn build_tss(stack: &AlternateStack) -> (tss: TaskStateSegment)
    ensures
        tss_stack_table(tss) == Seq::new(IST_SLOTS as nat, |i: int| 0u64).update(
            DOUBLE_FAULT_IST_INDEX as int,
            stack.spec_top() as u64,
        ),
{
    let mut tss = tss_new();
    tss_set_stack(&mut tss, DOUBLE_FAULT_IST_INDEX as usize, stack.top());
    tss
}

/// What the bits that `tss_segment` fixes say about a task-state descriptor:
/// it is present, a system descriptor of the task-state type, at ring 0.
proof fn lemma_tss_descriptor(low: u64, high: u64)
    requires
        low & TSS_FIXED_MASK == TSS_FIXED_BITS,
        high <= 0xffff_ffff,
    ensures
        kind_of_word(low) == DescriptorKind::TaskState,
        kind_of_word(high) == DescriptorKind::Absent,
        SegmentDescriptor::SystemSegment(low, high).dpl() == 0,
{
    assert(low & PRESENT != 0 && low & USER_SEGMENT == 0 && low & SYSTEM_TYPE == SYSTEM_TYPE_TSS
        && (low / 0x2000_0000_0000) % 4 == 0) by (bit_vector)
        requires
            low & 0x00ff_ff00_0000_ffff == 0x0000_8900_0000_0067,
    ;
    assert(high & PRESENT == 0) by (bit_vector)
        requires
            high <= 0xffff_ffff,
    ;
}

/// What the kernel code descriptor says: present, code, ring 0.
proof fn lemma_code_descriptor()
    ensures
        kind_of_word(KERNEL_CODE64) == DescriptorKind::Code,
        kind_of_word(0) == DescriptorKind::Absent,
        SegmentDescriptor::UserSegment(KERNEL_CODE64).dpl() == 0,
{
    assert(KERNEL_CODE64 & PRESENT != 0 && KERNEL_CODE64 & USER_SEGMENT != 0 && KERNEL_CODE64
        & EXECUTABLE != 0 && (KERNEL_CODE64 / 0x2000_0000_0000) % 4 == 0) by (bit_vector);
    assert(0u64 & PRESENT == 0) by (bit_vector);
}

/// Whether `entries` is a table as `build_gdt` lays it out: the null
/// descriptor, the kernel code segment, and the two words of a task-state
/// descriptor.
pub open spec fn kernel_table(entries: Seq<u64>) -> bool {
    &&& entries.len() == 4
    &&& entries[0] == 0
    &&& entries[1] == KERNEL_CODE64
    &&& entries[2] & TSS_FIXED_MASK == TSS_FIXED_BITS
    &&& entries[3] <= 0xffff_ffff
}

/// In a table laid out by `build_gdt`, each of the two selectors names a
/// descriptor of the type its register asks for: the code selector a code
/// segment, the task-state selector a task-state record. There is one of
/// each, and nothing else is present.
pub proof fn lemma_selectors_resolve(entries: Seq<u64>)
    requires
        kernel_table(entries),
    ensures
        resolve(entries, Selector(KERNEL_CODE_SELECTOR)) == DescriptorKind::Code,
        resolve(entries, Selector(TSS_SELECTOR)) == DescriptorKind::TaskState,
        kind_of_word(entries[0]) == DescriptorKind::Absent,
        kind_of_word(entries[1]) == DescriptorKind::Code,
        kind_of_word(entries[2]) == DescriptorKind::TaskState,
        kind_of_word(entries[3]) == DescriptorKind::Absent,
{
    lemma_code_descriptor();
    lemma_tss_descriptor(entries[2], entries[3]);
}

/// Builds the kernel's descriptor table: after the null descriptor, the
/// kernel code segment and a descriptor for the given task-state record.
/// Nothing is loaded into the processor.
pub fn build_gdt(tss: &'static TaskStateSegment) -> (built: (GlobalDescriptorTable, Selectors))
    ensures
        kernel_table(gdt_entries(built.0)),
        built.1.code_selector == Selector(KERNEL_CODE_SELECTOR),
        built.1.tss_selector == Selector(TSS_SELECTOR),
        resolve(gdt_entries(built.0), built.1.code_selector) == DescriptorKind::Code,
        resolve(gdt_entries(built.0), built.1.tss_selector) == DescriptorKind::TaskState,
{
    let mut gdt = gdt_new();
    let code = kernel_code_segment();
    let task_state = tss_segment(tss);
    proof {
        lemma_code_descriptor();
        lemma_tss_descriptor(task_state.low(), task_state->SystemSegment_1);
    }
    let code_selector = gdt_add_entry(&mut gdt, code);
    let tss_selector = gdt_add_entry(&mut gdt, task_state);
    proof {
        lemma_selectors_resolve(gdt_entries(gdt));
    }
    (gdt, Selectors { code_selector, tss_selector })
}

/// What initialising the descriptor table asks of the processor: load the
/// table, then reload the code-segment register and the task register from
/// it. Loading the table alone changes neither register.
pub open spec fn gdt_sequence(selectors: Selectors) -> Seq<PrivilegedOp> {
    seq![
        PrivilegedOp::LoadDescriptorTable,
        PrivilegedOp::ReloadCodeSegment(selectors.code_selector),
        PrivilegedOp::AdoptTaskState(selectors.tss_selector),
    ]
}

/// The privileged operations that make the kernel's descriptor table the
/// active one and put its selectors to use, in order.
pub fn gdt_init(selectors: &Selectors) -> (plan: Vec<PrivilegedOp>)
    ensures
        plan@ == gdt_sequence(*selectors),
{
    let mut plan: Vec<PrivilegedOp> = Vec::new();
    plan.push(PrivilegedOp::LoadDescriptorTable);
    plan.push(PrivilegedOp::ReloadCodeSegment(selectors.code_selector));
    plan.push(PrivilegedOp::AdoptTaskState(selectors.tss_selector));
    assert(plan@ =~= gdt_sequence(*selectors));
    plan
}

} // verus!
