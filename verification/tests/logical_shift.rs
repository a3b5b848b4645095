use bit32::cpu::Cpu;
use bit32::opcodes::Opcode;

#[test]
fn test_left_byte_imm() {
    let mut cpu = Cpu::new();
    cpu.registers[0] = 0x0F;
    cpu.load_program(&[Opcode::LogShiftLeftByteImm as u8, 0x01]);
    cpu.cycle();
    assert_eq!(cpu.registers[0], 0x1E);
}
#[test]
fn test_left_short_imm() {
    let mut cpu = Cpu::new();
    cpu.registers[0] = 0x0FFF;
    cpu.load_program(&[Opcode::LogShiftLeftShortImm as u8, 0x01]);
    cpu.cycle();
    assert_eq!(cpu.registers[0], 0x1FFE);
}
#[test]
fn test_left_long_imm() {
    let mut cpu = Cpu::new();
    cpu.registers[0] = 0x0FFFFFFF;
    cpu.load_program(&[Opcode::LogShiftLeftLongImm as u8, 0x01]);
    cpu.cycle();
    assert_eq!(cpu.registers[0], 0x1FFFFFFE);
}
#[test]
fn test_left_byte_reg() {
    let mut cpu = Cpu::new();
    cpu.registers[0] = 0x0F;
    cpu.registers[1] = 0x01;
    cpu.load_program(&[Opcode::LogShiftLeftByteReg as u8, 1]);
    cpu.cycle();
    assert_eq!(cpu.registers[0], 0x1E);
}
#[test]
fn test_left_short_reg() {
    let mut cpu = Cpu::new();
    cpu.registers[0] = 0x0FFF;
    cpu.registers[1] = 0x01;
    cpu.load_program(&[Opcode::LogShiftLeftShortReg as u8, 1]);
    cpu.cycle();
    assert_eq!(cpu.registers[0], 0x1FFE);
}
#[test]
fn test_left_long_reg() {
    let mut cpu = Cpu::new();
    cpu.registers[0] = 0x0FFFFFFF;
    cpu.registers[1] = 0x01;
    cpu.load_program(&[Opcode::LogShiftLeftLongReg as u8, 1]);
    cpu.cycle();
    assert_eq!(cpu.registers[0], 0x1FFFFFFE);
}
#[test]
fn test_right_byte_imm() {
    let mut cpu = Cpu::new();
    cpu.registers[0] = 0x1E;
    cpu.load_program(&[Opcode::LogShiftRightByteImm as u8, 0x01]);
    cpu.cycle();
    assert_eq!(cpu.registers[0], 0x0F);
}
#[test]
fn test_right_short_imm() {
    let mut cpu = Cpu::new();
    cpu.registers[0] = 0x1FFE;
    cpu.load_program(&[Opcode::LogShiftRightShortImm as u8, 0x01]);
    cpu.cycle();
    assert_eq!(cpu.registers[0], 0x0FFF);
}
#[test]
fn test_right_long_imm() {
    let mut cpu = Cpu::new();
    cpu.registers[0] = 0x1FFFFFFE;
    cpu.load_program(&[Opcode::LogShiftRightLongImm as u8, 0x01]);
    cpu.cycle();
    assert_eq!(cpu.registers[0], 0x0FFFFFFF);
}
#[test]
fn test_right_byte_reg() {
    let mut cpu = Cpu::new();
    cpu.registers[0] = 0x1E;
    cpu.registers[1] = 0x01;
    cpu.load_program(&[Opcode::LogShiftRightByteReg as u8, 1]);
    cpu.cycle();
    assert_eq!(cpu.registers[0], 0x0F);
}
#[test]
fn test_right_short_reg() {
    let mut cpu = Cpu::new();
    cpu.registers[0] = 0x1FFE;
    cpu.registers[1] = 0x01;
    cpu.load_program(&[Opcode::LogShiftRightShortReg as u8, 1]);
    cpu.cycle();
    assert_eq!(cpu.registers[0], 0x0FFF);
}
#[test]
fn test_right_long_reg() {
    let mut cpu = Cpu::new();
    cpu.registers[0] = 0x1FFFFFFE;
    cpu.registers[1] = 0x01;
    cpu.load_program(&[Opcode::LogShiftRightLongReg as u8, 1]);
    cpu.cycle();
    assert_eq!(cpu.registers[0], 0x0FFFFFFF);
}
