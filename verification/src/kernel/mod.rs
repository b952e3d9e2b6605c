pub mod cpu;
pub mod gdt;
pub mod interrupts;
pub mod machine;
