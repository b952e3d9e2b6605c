use project_fox::kernel::cpu::PrivilegedOp;
use project_fox::kernel::interrupts::{
    bp_handler, build_idt, df_handler, idt_init, Gate, Handler, StackFrame, Terminal, VectorTable,
    BREAKPOINT_VECTOR, DOUBLE_FAULT_VECTOR, VECTORS,
};
use project_fox::{Mode, QemuExitCode};

fn frame() -> StackFrame {
    StackFrame {
        instruction_pointer: 0x20_1000,
        code_segment: 8,
        cpu_flags: 0x202,
        stack_pointer: 0x0000_7fff_ffff_f000,
        stack_segment: 0,
    }
}

const FRAME_TEXT: &str = "InterruptStackFrame {
    instruction_pointer: VirtAddr(
        0x201000,
    ),
    code_segment: 8,
    cpu_flags: 0x202,
    stack_pointer: VirtAddr(
        0x7ffffffff000,
    ),
    stack_segment: 0,
}";

#[test]
fn a_new_table_has_no_gates() {
    let table = VectorTable::new();
    assert_eq!(VECTORS, 256);
    for vector in 0..=255u8 {
        assert_eq!(table.gate(vector), None);
    }
}

#[test]
fn only_breakpoint_and_double_fault_have_gates() {
    let table = build_idt();
    assert_eq!(BREAKPOINT_VECTOR, 3);
    assert_eq!(DOUBLE_FAULT_VECTOR, 8);
    for vector in 0..=255u8 {
        let expected = match vector {
            3 => Some(Gate { handler: Handler::Breakpoint, stack_index: None }),
            8 => Some(Gate { handler: Handler::DoubleFault, stack_index: Some(0) }),
            _ => None,
        };
        assert_eq!(table.gate(vector), expected);
    }
}

#[test]
fn only_the_double_fault_is_bound_to_a_stack() {
    let table = build_idt();
    let bound: Vec<u8> = (0..=255u8)
        .filter(|v| matches!(table.gate(*v), Some(Gate { stack_index: Some(_), .. })))
        .collect();
    assert_eq!(bound, vec![8]);
}

#[test]
fn set_handler_keeps_the_stack_of_an_existing_gate() {
    let mut table = build_idt();
    table.set_handler(8, Handler::External(0x1000));
    assert_eq!(
        table.gate(8),
        Some(Gate { handler: Handler::External(0x1000), stack_index: Some(0) })
    );
    table.set_handler(255, Handler::External(0x2000));
    assert_eq!(
        table.gate(255),
        Some(Gate { handler: Handler::External(0x2000), stack_index: None })
    );
    assert_eq!(table.gate(3), Some(Gate { handler: Handler::Breakpoint, stack_index: None }));
    assert_eq!(table.gate(254), None);
}

#[test]
fn set_stack_index_binds_a_gate() {
    let mut table = VectorTable::new();
    table.set_handler(14, Handler::External(0x3000));
    assert_eq!(table.set_stack_index(14, 6), Ok(()));
    assert_eq!(
        table.gate(14),
        Some(Gate { handler: Handler::External(0x3000), stack_index: Some(6) })
    );
    assert_eq!(table.set_stack_index(14, 2), Ok(()));
    assert_eq!(
        table.gate(14),
        Some(Gate { handler: Handler::External(0x3000), stack_index: Some(2) })
    );
}

#[test]
fn set_stack_index_refuses_a_missing_gate() {
    let mut table = VectorTable::new();
    assert_eq!(table.set_stack_index(8, 0), Err(()));
    assert_eq!(table.gate(8), None);
}

#[test]
fn set_stack_index_refuses_a_slot_the_table_does_not_have() {
    let mut table = build_idt();
    assert_eq!(table.set_stack_index(3, 7), Err(()));
    assert_eq!(table.set_stack_index(3, u16::MAX), Err(()));
    assert_eq!(table.gate(3), Some(Gate { handler: Handler::Breakpoint, stack_index: None }));
    assert_eq!(table.set_stack_index(8, 7), Err(()));
    assert_eq!(table.gate(8), Some(Gate { handler: Handler::DoubleFault, stack_index: Some(0) }));
}

#[test]
fn idt_init_loads_the_vector_table() {
    assert_eq!(idt_init(), vec![PrivilegedOp::LoadVectorTable]);
}

#[test]
fn breakpoint_report_is_banner_and_context() {
    let report = bp_handler(&frame());
    assert_eq!(report, format!("### CPU EXCEPTION: BREAKPOINT ###\n {}", FRAME_TEXT));
    assert!(report.contains("BREAKPOINT"));
}

#[test]
fn breakpoint_report_shows_the_frame_it_was_given() {
    let mut other = frame();
    other.instruction_pointer = 0xdead_beef;
    other.stack_segment = 16;
    let report = bp_handler(&other);
    assert!(report.contains("0xdeadbeef"));
    assert!(report.contains("stack_segment: 16"));
    assert_ne!(report, bp_handler(&frame()));
}

#[test]
fn double_fault_report_has_the_error_code() {
    let (report, _) = df_handler(&frame(), 0, Mode::Normal);
    assert_eq!(report, format!("### CPU EXCEPTION: DOUBLE FAULT | EC: 0 ###\n {}", FRAME_TEXT));
    let (report, _) = df_handler(&frame(), 1234567890, Mode::Normal);
    assert_eq!(
        report,
        format!("### CPU EXCEPTION: DOUBLE FAULT | EC: 1234567890 ###\n {}", FRAME_TEXT)
    );
    let (report, _) = df_handler(&frame(), u64::MAX, Mode::Verification);
    assert!(report.starts_with("### CPU EXCEPTION: DOUBLE FAULT | EC: 18446744073709551615 ###"));
}

#[test]
fn double_fault_ends_the_kernel_as_its_mode_asks() {
    assert_eq!(df_handler(&frame(), 0, Mode::Normal).1, Terminal::Halt);
    assert_eq!(
        df_handler(&frame(), 0, Mode::Verification).1,
        Terminal::Exit(QemuExitCode::Failed)
    );
}

#[test]
fn addresses_in_a_report_are_made_canonical() {
    let mut odd = frame();
    odd.instruction_pointer = 0x0000_8000_0000_0000;
    assert!(bp_handler(&odd).contains("0xffff800000000000"));
}
