use bit32::cpu::Cpu;
use bit32::opcodes::Opcode;

#[test]
fn test_rotate_left_byte_imm() {
    let mut cpu = Cpu::new();
    cpu.registers[0] = 0x85;
    cpu.load_program(&[Opcode::RotateLeftByteImm as u8, 0x01]);
    cpu.cycle();
    assert_eq!(cpu.registers[0], 0x0B);
}
#[test]
fn test_rotate_left_short_imm() {
    let mut cpu = Cpu::new();
    cpu.registers[0] = 0x8001;
    cpu.load_program(&[Opcode::RotateLeftShortImm as u8, 0x01]);
    cpu.cycle();
    assert_eq!(cpu.registers[0], 0x0003);
}
#[test]
fn test_rotate_left_long_imm() {
    let mut cpu = Cpu::new();
    cpu.registers[0] = 0x80000001;
    cpu.load_program(&[Opcode::RotateLeftLongImm as u8, 0x01]);
    cpu.cycle();
    assert_eq!(cpu.registers[0], 0x00000003);
}
#[test]
fn test_rotate_left_byte_reg() {
    let mut cpu = Cpu::new();
    cpu.registers[0] = 0x85;
    cpu.registers[1] = 0x01;
    cpu.load_program(&[Opcode::RotateLeftByteReg as u8, 1]);
    cpu.cycle();
    assert_eq!(cpu.registers[0], 0x0B);
}
#[test]
fn test_rotate_left_short_reg() {
    let mut cpu = Cpu::new();
    cpu.registers[0] = 0x8001;
    cpu.registers[1] = 0x01;
    cpu.load_program(&[Opcode::RotateLeftShortReg as u8, 1]);
    cpu.cycle();
    assert_eq!(cpu.registers[0], 0x0003);
}
#[test]
fn test_rotate_left_long_reg() {
    let mut cpu = Cpu::new();
    cpu.registers[0] = 0x80000001;
    cpu.registers[1] = 0x01;
    cpu.load_program(&[Opcode::RotateLeftLongReg as u8, 1]);
    cpu.cycle();
    assert_eq!(cpu.registers[0], 0x00000003);
}
#[test]
fn test_rotate_right_byte_imm() {
    let mut cpu = Cpu::new();
    cpu.registers[0] = 0x85;
    cpu.load_program(&[Opcode::RotateRightByteImm as u8, 0x01]);
    cpu.cycle();
    assert_eq!(cpu.registers[0], 0xC2);
}
#[test]
fn test_rotate_right_short_imm() {
    let mut cpu = Cpu::new();
    cpu.registers[0] = 0x8001;
    cpu.load_program(&[Opcode::RotateRightShortImm as u8, 0x01]);
    cpu.cycle();
    assert_eq!(cpu.registers[0], 0xC000);
}
#[test]
fn test_rotate_right_long_imm() {
    let mut cpu = Cpu::new();
    cpu.registers[0] = 0x80000001;
    cpu.load_program(&[Opcode::RotateRightLongImm as u8, 0x01]);
    cpu.cycle();
    assert_eq!(cpu.registers[0], 0xC0000000);
}
#[test]
fn test_rotate_right_byte_reg() {
    let mut cpu = Cpu::new();
    cpu.registers[0] = 0x85;
    cpu.registers[1] = 0x01;
    cpu.load_program(&[Opcode::RotateRightByteReg as u8, 1]);
    cpu.cycle();
    assert_eq!(cpu.registers[0], 0xC2);
}
#[test]
fn test_rotate_right_short_reg() {
    let mut cpu = Cpu::new();
    cpu.registers[0] = 0x8001;
    cpu.registers[1] = 0x01;
    cpu.load_program(&[Opcode::RotateRightShortReg as u8, 1]);
    cpu.cycle();
    assert_eq!(cpu.registers[0], 0xC000);
}
#[test]
fn test_rotate_right_long_reg() {
    let mut cpu = Cpu::new();
    cpu.registers[0] = 0x80000001;
    cpu.registers[1] = 0x01;
    cpu.load_program(&[Opcode::RotateRightLongReg as u8, 1]);
    cpu.cycle();
    assert_eq!(cpu.registers[0], 0xC0000000);
}
