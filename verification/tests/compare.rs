use bit32::cpu::Cpu;
use bit32::opcodes::Opcode;

#[test]
fn compare_byte_imm() {
    let mut cpu = Cpu::new();
    cpu.registers[0] = 100;
    cpu.load_program(&[Opcode::CompareByteImm as u8, 100]);
    cpu.cycle();
    assert_eq!(cpu.registers[0], 1);
}
#[test]
fn compare_short_imm() {
    let mut cpu = Cpu::new();
    cpu.registers[0] = 511;
    cpu.load_program(&[Opcode::CompareShortImm as u8, 255, 1]);
    cpu.cycle();
    assert_eq!(cpu.registers[0], 1);
}
#[test]
fn compare_long_imm() {
    let mut cpu = Cpu::new();
    cpu.registers[0] = 0xFF_FF_FF_FF;
    cpu.load_program(&[Opcode::CompareLongImm as u8, 0xFF, 0xFF, 0xFF, 0xFF]);
    cpu.cycle();
    assert_eq!(cpu.registers[0], 1);
}
#[test]
fn compare_byte_reg() {
    let mut cpu = Cpu::new();
    cpu.registers[0] = 100;
    cpu.registers[1] = 100;
    cpu.load_program(&[Opcode::CompareByteReg as u8, 1]);
    cpu.cycle();
    assert_eq!(cpu.registers[0], 1);
}
#[test]
fn compare_short_reg() {
    let mut cpu = Cpu::new();
    cpu.registers[0] = 511;
    cpu.registers[1] = 511;
    cpu.load_program(&[Opcode::CompareShortReg as u8, 1]);
    cpu.cycle();
    assert_eq!(cpu.registers[0], 1);
}
#[test]
fn compare_long_reg() {
    let mut cpu = Cpu::new();
    cpu.registers[0] = 0xFF_FF_FF_FF;
    cpu.registers[1] = 0xFF_FF_FF_FF;
    cpu.load_program(&[Opcode::CompareLongReg as u8, 1]);
    cpu.cycle();
    assert_eq!(cpu.registers[0], 1);
}
#[test]
fn compare_byte_imm_neg() {
    let mut cpu = Cpu::new();
    cpu.registers[0] = 0;
    cpu.load_program(&[Opcode::CompareByteImm as u8, 100]);
    cpu.cycle();
    assert_eq!(cpu.registers[0], 0);
}
#[test]
fn compare_short_imm_neg() {
    let mut cpu = Cpu::new();
    cpu.registers[0] = 0;
    cpu.load_program(&[Opcode::CompareShortImm as u8, 255, 1]);
    cpu.cycle();
    assert_eq!(cpu.registers[0], 0);
}
#[test]
fn compare_long_imm_neg() {
    let mut cpu = Cpu::new();
    cpu.registers[0] = 0;
    cpu.load_program(&[Opcode::CompareLongImm as u8, 0xFF, 0xFF, 0xFF, 0xFF]);
    cpu.cycle();
    assert_eq!(cpu.registers[0], 0);
}
#[test]
fn compare_byte_reg_neg() {
    let mut cpu = Cpu::new();
    cpu.registers[0] = 100;
    cpu.registers[1] = 0;
    cpu.load_program(&[Opcode::CompareByteReg as u8, 1]);
    cpu.cycle();
    assert_eq!(cpu.registers[0], 0);
}
#[test]
fn compare_short_reg_neg() {
    let mut cpu = Cpu::new();
    cpu.registers[0] = 511;
    cpu.registers[1] = 0;
    cpu.load_program(&[Opcode::CompareShortReg as u8, 1]);
    cpu.cycle();
    assert_eq!(cpu.registers[0], 0);
}
#[test]
fn compare_long_reg_neg() {
    let mut cpu = Cpu::new();
    cpu.registers[0] = 0xFF_FF_FF_FF;
    cpu.registers[1] = 0;
    cpu.load_program(&[Opcode::CompareLongReg as u8, 0]);
    cpu.cycle();
    assert_eq!(cpu.registers[0], 1);
}
