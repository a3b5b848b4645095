use bit32::cpu::{Cpu, FLAGS, IDT};
use bit32::opcodes::Opcode;

#[test]
fn interrupt() {
    let mut cpu = Cpu::new();

    // address of isr_table.
    cpu.registers[IDT] = 1;

    cpu.load_program(&[
        Opcode::Interrupt as u8,         // 0  ; int 0 
        Opcode::InterruptReturn as u8,  // 1  ; iret
    ]);

    cpu.run();
    assert_eq!(cpu.ip(), 3);
    assert_eq!((cpu.registers[FLAGS] & Cpu::INTERRUPT_FLAG as u32), 0);
}
