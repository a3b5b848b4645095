use bit32::cpu::Cpu;
use bit32::opcodes::Opcode;

#[test]
fn and_byte_imm() {
    let mut cpu = Cpu::new();
    cpu.registers[0] = 0xFF;
    cpu.load_program(&[Opcode::AndByteImm as u8, 0xCC]);
    cpu.cycle();
    assert_eq!(cpu.registers[0], 0xCC);
}
#[test]
fn and_long_imm() {
    let mut cpu = Cpu::new();
    cpu.registers[0] = 0xFFFFFFFF;
    cpu.load_program(&[Opcode::AndLongImm as u8, 0xCC, 0xCC, 0xCC, 0xCC]);
    cpu.cycle();
    assert_eq!(cpu.registers[0], 0xCCCCCCCC);
}
#[test]
fn and_short_imm() {
    let mut cpu = Cpu::new();
    cpu.registers[0] = 0xFFFF;
    cpu.load_program(&[Opcode::AndShortImm as u8, 0xCC, 0xCC]);
    cpu.cycle();
    assert_eq!(cpu.registers[0], 0xCCCC);
}
#[test]
fn and_byte_reg() {
    let mut cpu = Cpu::new();
    cpu.registers[0] = 0xFF;
    cpu.registers[1] = 0xCC;
    cpu.load_program(&[Opcode::AndByteReg as u8, 1]);
    cpu.cycle();
    assert_eq!(cpu.registers[0], 0xCC);
}
#[test]
fn and_long_reg() {
    let mut cpu = Cpu::new();
    cpu.registers[0] = 0xFFFFFFFF;
    cpu.registers[1] = 0xCCCCCCCC;
    cpu.load_program(&[Opcode::AndLongReg as u8, 1]);
    cpu.cycle();
    assert_eq!(cpu.registers[0], 0xCCCCCCCC);
}
#[test]
fn and_short_reg() {
    let mut cpu = Cpu::new();
    cpu.registers[0] = 0xFFFF;
    cpu.registers[1] = 0xCCCC;
    cpu.load_program(&[Opcode::AndShortReg as u8, 1]);
    cpu.cycle();
    assert_eq!(cpu.registers[0], 0xCCCC);
}
