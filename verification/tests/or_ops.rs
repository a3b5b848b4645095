use bit32::cpu::Cpu;
use bit32::opcodes::Opcode;

#[test]
fn or_byte_reg() {
    let mut cpu = Cpu::new();
    cpu.registers[0] = 0xFA;
    cpu.registers[1] = 0x55;
    cpu.load_program(&[Opcode::OrByteReg as u8, 1]);
    cpu.cycle();
    assert_eq!(cpu.registers[0], 0xFF);
}
#[test]
fn or_short_reg() {
    let mut cpu = Cpu::new();
    cpu.registers[0] = 0xFAFA;
    cpu.registers[1] = 0x5555;
    cpu.load_program(&[Opcode::OrShortReg as u8, 1]);
    cpu.cycle();
    assert_eq!(cpu.registers[0], 0xFFFF);
}
#[test]
fn or_long_reg() {
    let mut cpu = Cpu::new();
    cpu.registers[0] = 0xFAFAFAFA;
    cpu.registers[1] = 0x55555555;
    cpu.load_program(&[Opcode::OrLongReg as u8, 1]);
    cpu.cycle();
    assert_eq!(cpu.registers[0], 0xFFFFFFFF);
}
#[test]
fn or_byte_imm() {
    let mut cpu = Cpu::new();
    cpu.registers[0] = 0xFA;
    cpu.load_program(&[Opcode::OrByteImm as u8, 0x55]);
    cpu.cycle();
    assert_eq!(cpu.registers[0], 0xFF);
}
#[test]
fn or_short_imm() {
    let mut cpu = Cpu::new();
    cpu.registers[0] = 0xFAFA;
    cpu.load_program(&[Opcode::OrShortImm as u8, 0x55, 0x55]);
    cpu.cycle();
    assert_eq!(cpu.registers[0], 0xFFFF);
}
#[test]
fn or_long_imm() {
    let mut cpu = Cpu::new();
    cpu.registers[0] = 0xFAFAFAFA;
    cpu.load_program(&[Opcode::OrLongImm as u8, 0x55, 0x55, 0x55, 0x55]);
    cpu.cycle();
    assert_eq!(cpu.registers[0], 0xFFFFFFFF);
}
