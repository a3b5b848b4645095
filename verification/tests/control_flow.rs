use bit32::cpu::Cpu;
use bit32::opcodes::Opcode;

#[test]
fn call() {
    let mut cpu = Cpu::new();
    cpu.memory.set_byte(100, Opcode::Hlt as u8);
    cpu.load_program(&[Opcode::Call as u8, 100]);
    cpu.run();
    assert_eq!(cpu.ip(), 101);
}
#[test]
fn _return() {
    let mut cpu = Cpu::new();
    // 1 cycle in routine
    cpu.memory.set_byte(100, Opcode::Return as u8);

    // call: 1 cycle
    // long addr: 4 cycles
    // ret instruction: 1 cycle
    // halt on return: 1 cycle
    cpu.load_program(&[Opcode::Call as u8, 100, 0, 0, 0, 0]);
    cpu.run();
    assert_eq!(cpu.ip(), 6)
}
