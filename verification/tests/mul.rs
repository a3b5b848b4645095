use bit32::cpu::Cpu;
use bit32::opcodes::Opcode;

#[test]
fn mul_byte() {
    let mut cpu = Cpu::new();
    cpu.registers[0] = 2;
    cpu.load_program(&[Opcode::MulByteImm as u8, 10]);
    cpu.run();

    assert_eq!(cpu.registers[0], 20);
}
#[test]
fn mul_byte_wrap() {
    let mut cpu = Cpu::new();
    cpu.registers[0] = 100;
    cpu.load_program(&[Opcode::MulByteImm as u8, 100]);
    cpu.run();

    let result = 100u8.wrapping_mul(100u8);
    assert_eq!((cpu.registers[0] & 0xFF) as u8, result);
}
#[test]
fn mul_short() {
    let mut cpu = Cpu::new();
    cpu.registers[0] = 2;
    cpu.load_program(&[Opcode::MulShortImm as u8, 10, 0]);
    cpu.run();

    assert_eq!(cpu.registers[0], 20);
}
#[test]
fn mul_short_wrap() {
    let mut cpu = Cpu::new();
    cpu.registers[0] = 70_000;
    cpu.load_program(&[Opcode::MulShortImm as u8, 100, 0]);
    cpu.run();

    let result = 4_464u16.wrapping_mul(100u16);
    assert_eq!((cpu.registers[0] & 0xFFFF) as u16, result);
}
#[test]
fn mul_long() {
    let mut cpu = Cpu::new();
    cpu.registers[0] = 2;
    cpu.load_program(&[Opcode::MulLongImm as u8, 10, 0, 0, 0]);
    cpu.run();

    assert_eq!(cpu.registers[0], 20);
}
#[test]
fn mul_long_wrap() {
    let mut cpu = Cpu::new();
    cpu.registers[0] = 2_000_000_000;
    cpu.load_program(&[Opcode::MulLongImm as u8, 100, 0, 0, 0]);
    cpu.run();

    let result = 2_000_000_000u32.wrapping_mul(100);
    assert_eq!(cpu.registers[0], result);
}
#[test]
fn singed_mul_byte() {
    let mut cpu = Cpu::new();
    cpu.registers[0] = -2_i32 as u32;
    cpu.load_program(&[Opcode::SignedMulByteImm as u8, 10]);
    cpu.run();

    assert_eq!(cpu.registers[0] as i32, -20);
}
#[test]
fn singed_mul_short() {
    let mut cpu = Cpu::new();
    cpu.registers[0] = -2_i32 as u32;
    cpu.load_program(&[Opcode::SignedMulShortImm as u8, 0, 10]);
    cpu.run();

    assert_eq!(cpu.registers[0] as i32, -5120);
}
#[test]
fn singed_mul_long() {
    let mut cpu = Cpu::new();
    cpu.registers[0] = -2_i32 as u32;
    cpu.load_program(&[Opcode::SignedMulLongImm as u8, 0, 0, 0, 10]);
    cpu.run();

    assert_eq!(cpu.registers[0] as i32, -335544320);
}
