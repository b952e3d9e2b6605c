use project_fox::kernel::cpu::{PrivilegedOp, Tables};
use project_fox::kernel::gdt::{
    build_gdt, build_tss, gdt_init, lookup, AlternateStack, DescriptorKind, Selector, Selectors,
    DOUBLE_FAULT_IST_INDEX, IST_SLOTS, KERNEL_CODE64, KERNEL_CODE_SELECTOR, STACK_SIZE,
    TSS_FIXED_BITS, TSS_FIXED_MASK, TSS_SELECTOR,
};
use project_fox::kernel::interrupts::build_idt;
use x86_64::structures::tss::TaskStateSegment;

fn task_state(start: u64) -> &'static TaskStateSegment {
    let stack = AlternateStack::new(start).unwrap();
    Box::leak(Box::new(build_tss(&stack)))
}

fn tables(start: u64) -> (Tables, Selectors, u64) {
    let tss = task_state(start);
    let (gdt, selectors) = build_gdt(tss);
    let address = x86_64::VirtAddr::from_ptr(tss).as_u64();
    (Tables::snapshot(&gdt, tss, build_idt()), selectors, address)
}

#[test]
fn stack_top_is_the_high_end_of_the_region() {
    assert_eq!(STACK_SIZE, 20480);
    assert_eq!(AlternateStack::new(0x10_0000).unwrap().top(), 0x10_5000);
    assert_eq!(AlternateStack::new(0).unwrap().top(), 0x5000);
    assert_eq!(
        AlternateStack::new(0xffff_8000_0000_0000).unwrap().top(),
        0xffff_8000_0000_5000
    );
    assert_eq!(AlternateStack::new(0x0000_7fff_ffff_aff0).unwrap().top(), 0x0000_7fff_ffff_fff0);
}

#[test]
fn a_misaligned_stack_is_refused() {
    assert!(AlternateStack::new(0x10_0008).is_none());
    assert!(AlternateStack::new(0x10_0001).is_none());
    assert!(AlternateStack::new(0x10_000f).is_none());
    assert!(AlternateStack::new(0x10_0010).is_some());
}

#[test]
fn a_stack_outside_the_canonical_halves_is_refused() {
    assert!(AlternateStack::new(0x0000_8000_0000_0000).is_none());
    assert!(AlternateStack::new(0x1234_0000_0000_0000).is_none());
    assert!(AlternateStack::new(0xffff_7fff_ffff_fff0).is_none());
    // The region may not end in the hole either.
    assert!(AlternateStack::new(0x0000_7fff_ffff_b000).is_none());
    assert!(AlternateStack::new(0x0000_7fff_ffff_f000).is_none());
}

#[test]
fn a_stack_that_wraps_around_is_refused() {
    assert!(AlternateStack::new(0xffff_ffff_ffff_f000).is_none());
    assert!(AlternateStack::new(0xffff_ffff_ffff_fff0).is_none());
    assert!(AlternateStack::new(0xffff_ffff_ffff_b000).is_none());
    assert_eq!(
        AlternateStack::new(0xffff_ffff_ffff_aff0).unwrap().top(),
        0xffff_ffff_ffff_fff0
    );
}

#[test]
fn task_state_holds_the_stack_in_the_double_fault_slot() {
    let (tables, _, _) = tables(0x20_0000);
    assert_eq!(DOUBLE_FAULT_IST_INDEX, 0);
    assert_eq!(IST_SLOTS, 7);
    assert_eq!(tables.stacks, vec![0x20_5000, 0, 0, 0, 0, 0, 0]);
}

#[test]
fn descriptor_table_has_null_code_and_task_state() {
    let (tables, _, address) = tables(0x20_0000);
    let words = &tables.descriptors;
    assert_eq!(words.len(), 4);
    assert_eq!(words[0], 0);
    assert_eq!(words[1], 0x00af_9b00_0000_ffff);
    assert_eq!(words[1], KERNEL_CODE64);
    assert_eq!(words[2] & TSS_FIXED_MASK, TSS_FIXED_BITS);
    assert_eq!(words[2] & 0xffff, 0x67);
    assert_eq!((words[2] >> 40) & 0xff, 0x89);
    assert!(words[3] <= 0xffff_ffff);
    // The descriptor's base is where the record lies.
    let base = ((words[2] >> 16) & 0xff_ffff) | ((words[2] >> 56) << 24) | (words[3] << 32);
    assert_eq!(base, address);
}

#[test]
fn selectors_name_entries_one_and_two_at_ring_zero() {
    let (_, selectors, _) = tables(0x20_0000);
    assert_eq!(selectors.code_selector, Selector(8));
    assert_eq!(selectors.tss_selector, Selector(16));
    assert_eq!(KERNEL_CODE_SELECTOR, 8);
    assert_eq!(TSS_SELECTOR, 16);
    assert_eq!(selectors.code_selector.index(), 1);
    assert_eq!(selectors.code_selector.rpl(), 0);
    assert_eq!(selectors.tss_selector.index(), 2);
    assert_eq!(selectors.tss_selector.rpl(), 0);
}

#[test]
fn selector_fields() {
    assert_eq!(Selector(0x1b).index(), 3);
    assert_eq!(Selector(0x1b).rpl(), 3);
    assert_eq!(Selector(0).index(), 0);
    assert_eq!(Selector(0xffff).index(), 0x1fff);
    assert_eq!(Selector(0xffff).rpl(), 3);
    assert_eq!(Selector(7).index(), 0);
}

#[test]
fn every_selector_resolves_to_the_type_of_its_register() {
    let (tables, selectors, _) = tables(0x20_0000);
    assert_eq!(lookup(&tables.descriptors, selectors.code_selector), DescriptorKind::Code);
    assert_eq!(lookup(&tables.descriptors, selectors.tss_selector), DescriptorKind::TaskState);
}

#[test]
fn nothing_else_in_the_table_is_present() {
    let (tables, _, _) = tables(0x20_0000);
    assert_eq!(lookup(&tables.descriptors, Selector(0)), DescriptorKind::Absent);
    assert_eq!(lookup(&tables.descriptors, Selector(3 << 3)), DescriptorKind::Absent);
    assert_eq!(lookup(&tables.descriptors, Selector(4 << 3)), DescriptorKind::Absent);
    assert_eq!(lookup(&tables.descriptors, Selector(0xffff)), DescriptorKind::Absent);
}

#[test]
fn lookup_tells_descriptor_types_apart() {
    let code: u64 = 0x00af_9b00_0000_ffff;
    let data: u64 = 0x00cf_9300_0000_ffff;
    let absent_code: u64 = code & !(1 << 47);
    let tss_low: u64 = 0x0000_8900_0000_0067;
    let busy_tss: u64 = 0x0000_8b00_0000_0067;
    let table = vec![code, code, data, absent_code, busy_tss, tss_low, 0, tss_low];
    // Index 0 is the null descriptor whatever the word.
    assert_eq!(lookup(&table, Selector(0)), DescriptorKind::Absent);
    assert_eq!(lookup(&table, Selector(1 << 3)), DescriptorKind::Code);
    assert_eq!(lookup(&table, Selector((1 << 3) | 3)), DescriptorKind::Code);
    assert_eq!(lookup(&table, Selector(2 << 3)), DescriptorKind::Data);
    assert_eq!(lookup(&table, Selector(3 << 3)), DescriptorKind::Absent);
    assert_eq!(lookup(&table, Selector(4 << 3)), DescriptorKind::Other);
    assert_eq!(lookup(&table, Selector(5 << 3)), DescriptorKind::TaskState);
    assert_eq!(lookup(&table, Selector(6 << 3)), DescriptorKind::Absent);
    // A task-state descriptor needs two words.
    assert_eq!(lookup(&table, Selector(7 << 3)), DescriptorKind::Other);
    assert_eq!(lookup(&table, Selector(8 << 3)), DescriptorKind::Absent);
    assert_eq!(lookup(&Vec::new(), Selector(8)), DescriptorKind::Absent);
}

#[test]
fn gdt_init_loads_then_reloads_both_registers() {
    let selectors = Selectors { code_selector: Selector(8), tss_selector: Selector(16) };
    assert_eq!(
        gdt_init(&selectors),
        vec![
            PrivilegedOp::LoadDescriptorTable,
            PrivilegedOp::ReloadCodeSegment(Selector(8)),
            PrivilegedOp::AdoptTaskState(Selector(16)),
        ]
    );
    let other = Selectors { code_selector: Selector(0x2b), tss_selector: Selector(0x30) };
    assert_eq!(
        gdt_init(&other),
        vec![
            PrivilegedOp::LoadDescriptorTable,
            PrivilegedOp::ReloadCodeSegment(Selector(0x2b)),
            PrivilegedOp::AdoptTaskState(Selector(0x30)),
        ]
    );
}
