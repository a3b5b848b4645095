use bit32::cpu::Cpu;
use bit32::opcodes::Opcode;

#[test]
fn test_arith_left_byte_imm() {
    let mut cpu = Cpu::new();
    cpu.registers[0] = 0x0F;
    cpu.load_program(&[Opcode::ArithShiftLeftByteImm as u8, 0x01]);
    cpu.cycle();
    assert_eq!(cpu.registers[0], 0x1E);
}
#[test]
fn test_arith_left_short_imm() {
    let mut cpu = Cpu::new();
    cpu.registers[0] = 0x0FFF;
    cpu.load_program(&[Opcode::ArithShiftLeftShortImm as u8, 0x01]);
    cpu.cycle();
    assert_eq!(cpu.registers[0], 0x1FFE);
}
#[test]
fn test_arith_left_long_imm() {
    let mut cpu = Cpu::new();
    cpu.registers[0] = 0x0FFFFFFF;
    cpu.load_program(&[Opcode::ArithShiftLeftLongImm as u8, 0x01]);
    cpu.cycle();
    assert_eq!(cpu.registers[0], 0x1FFFFFFE);
}
#[test]
fn test_arith_left_byte_reg() {
    let mut cpu = Cpu::new();
    cpu.registers[0] = 0x0F;
    cpu.registers[1] = 0x01;
    cpu.load_program(&[Opcode::ArithShiftLeftByteReg as u8, 1]);
    cpu.cycle();
    assert_eq!(cpu.registers[0], 0x1E);
}
#[test]
fn test_arith_left_short_reg() {
    let mut cpu = Cpu::new();
    cpu.registers[0] = 0x0FFF;
    cpu.registers[1] = 0x01;
    cpu.load_program(&[Opcode::ArithShiftLeftShortReg as u8, 1]);
    cpu.cycle();
    assert_eq!(cpu.registers[0], 0x1FFE);
}
#[test]
fn test_arith_left_long_reg() {
    let mut cpu = Cpu::new();
    cpu.registers[0] = 0x0FFFFFFF;
    cpu.registers[1] = 0x01;
    cpu.load_program(&[Opcode::ArithShiftLeftLongReg as u8, 1]);
    cpu.cycle();
    assert_eq!(cpu.registers[0], 0x1FFFFFFE);
}
#[test]
fn test_arith_right_byte_imm() {
    let mut cpu = Cpu::new();
    cpu.registers[0] = 0x1E;
    cpu.load_program(&[Opcode::ArithShiftRightByteImm as u8, 0x01]);
    cpu.cycle();
    assert_eq!(cpu.registers[0], 0x0F);
}
#[test]
fn test_arith_right_short_imm() {
    let mut cpu = Cpu::new();
    cpu.registers[0] = 0x1FFE;
    cpu.load_program(&[Opcode::ArithShiftRightShortImm as u8, 0x01]);
    cpu.cycle();
    assert_eq!(cpu.registers[0], 0x0FFF);
}
#[test]
fn test_arith_right_long_imm() {
    let mut cpu = Cpu::new();
    cpu.registers[0] = 0x1FFFFFFE;
    cpu.load_program(&[Opcode::ArithShiftRightLongImm as u8, 0x01]);
    cpu.cycle();
    assert_eq!(cpu.registers[0], 0x0FFFFFFF);
}
#[test]
fn test_arith_right_byte_reg() {
    let mut cpu = Cpu::new();
    cpu.registers[0] = 0x1E;
    cpu.registers[1] = 0x01;
    cpu.load_program(&[Opcode::ArithShiftRightByteReg as u8, 1]);
    cpu.cycle();
    assert_eq!(cpu.registers[0], 0x0F);
}
#[test]
fn test_arith_right_short_reg() {
    let mut cpu = Cpu::new();
    cpu.registers[0] = 0x1FFE;
    cpu.registers[1] = 0x01;
    cpu.load_program(&[Opcode::ArithShiftRightShortReg as u8, 1]);
    cpu.cycle();
    assert_eq!(cpu.registers[0], 0x0FFF);
}
#[test]
fn test_arith_right_long_reg() {
    let mut cpu = Cpu::new();
    cpu.registers[0] = 0x1FFFFFFE;
    cpu.registers[1] = 0x01;
    cpu.load_program(&[Opcode::ArithShiftRightLongReg as u8, 1]);
    cpu.cycle();
    assert_eq!(cpu.registers[0], 0x0FFFFFFF);
}
