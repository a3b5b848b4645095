use bit32::cpu::Cpu;
use bit32::opcodes::Opcode;

#[test]
fn xor_byte_reg() {
    let mut cpu = Cpu::new();
    cpu.registers[0] = 0xFA;
    cpu.registers[1] = 0x55;
    cpu.load_program(&[Opcode::XorByteReg as u8, 1]);
    cpu.cycle();
    assert_eq!(cpu.registers[0], 0xAF);
}
#[test]
fn xor_short_reg() {
    let mut cpu = Cpu::new();
    cpu.registers[0] = 0xFAFA;
    cpu.registers[1] = 0x5555;
    cpu.load_program(&[Opcode::XorShortReg as u8, 1]);
    cpu.cycle();
    assert_eq!(cpu.registers[0], 0xAFAF);
}
#[test]
fn xor_long_reg() {
    let mut cpu = Cpu::new();
    cpu.registers[0] = 0xFAFAFAFA;
    cpu.registers[1] = 0x55555555;
    cpu.load_program(&[Opcode::XorLongReg as u8, 1]);
    cpu.cycle();
    assert_eq!(cpu.registers[0], 0xAFAFAFAF);
}
#[test]
fn xor_byte_imm() {
    let mut cpu = Cpu::new();
    cpu.registers[0] = 0xFA;
    cpu.load_program(&[Opcode::XorByteImm as u8, 0x55]);
    cpu.cycle();
    assert_eq!(cpu.registers[0], 0xAF);
}
#[test]
fn xor_short_imm() {
    let mut cpu = Cpu::new();
    cpu.registers[0] = 0xFAFA;
    cpu.load_program(&[Opcode::XorShortImm as u8, 0x55, 0x55]);
    cpu.cycle();
    assert_eq!(cpu.registers[0], 0xAFAF);
}
#[test]
fn xor_long_imm() {
    let mut cpu = Cpu::new();
    cpu.registers[0] = 0xFAFAFAFA;
    cpu.load_program(&[Opcode::XorLongImm as u8, 0x55, 0x55, 0x55, 0x55]);
    cpu.cycle();
    assert_eq!(cpu.registers[0], 0xAFAFAFAF);
}
