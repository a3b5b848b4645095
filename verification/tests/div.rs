use bit32::cpu::Cpu;
use bit32::opcodes::Opcode;

#[test]
fn div_byte() {
    let mut cpu = Cpu::new();
    cpu.registers[0] = 10;
    cpu.load_program(&[Opcode::DivByteImm as u8, 2]);
    cpu.run();

    assert_eq!(cpu.registers[0], 5);
    assert_eq!(cpu.registers[1], 0);
}
#[test]
fn div_byte_wrap() {
    let mut cpu = Cpu::new();
    cpu.registers[0] = 1000;
    cpu.load_program(&[Opcode::DivByteImm as u8, 2]);
    cpu.run();
    // 1000 as a byte wraps to 232
    let result = 232u8.wrapping_div(2);
    assert_eq!((cpu.registers[0] & 0xFF) as u8, result);
    assert_eq!((cpu.registers[1] & 0xFF) as u8, 0);
}
#[test]
fn div_byte_remainder() {
    let mut cpu = Cpu::new();
    cpu.registers[0] = 9;
    cpu.load_program(&[Opcode::DivByteImm as u8, 2]);
    cpu.run();
    assert_eq!((cpu.registers[0] & 0xFF) as u8, 4);
    assert_eq!((cpu.registers[1] & 0xFF) as u8, 1);
}
#[test]
fn div_short() {
    let mut cpu = Cpu::new();
    cpu.registers[0] = 10;
    cpu.load_program(&[Opcode::DivShortImm as u8, 2, 0]);
    cpu.run();

    assert_eq!(cpu.registers[0], 5);
    assert_eq!(cpu.registers[1], 0);
}
#[test]
fn div_short_wrap() {
    let mut cpu = Cpu::new();
    cpu.registers[0] = 70_000; // Value larger than u16::MAX
    cpu.load_program(&[Opcode::DivShortImm as u8, 2, 0]);
    cpu.run();
    // 70,000 as a u16 wraps to 4,464
    let result = 4_464u16 / 2;
    assert_eq!((cpu.registers[0] & 0xFFFF) as u16, result);
    assert_eq!(cpu.registers[1], 0);
}
#[test]
fn div_short_remainder() {
    let mut cpu = Cpu::new();
    cpu.registers[0] = 9;
    cpu.load_program(&[Opcode::DivShortImm as u8, 2, 0]);
    cpu.run();
    assert_eq!(cpu.registers[0], 4);
    assert_eq!(cpu.registers[1], 1);
}
#[test]
fn div_long() {
    let mut cpu = Cpu::new();
    cpu.registers[0] = 10;
    cpu.load_program(&[Opcode::DivLongImm as u8, 2, 0, 0, 0]);
    cpu.run();

    assert_eq!(cpu.registers[0], 5);
    assert_eq!(cpu.registers[1], 0);
}
#[test]
fn div_long_wrap() {
    let mut cpu = Cpu::new();
    cpu.registers[0] = 2_000_000_000;
    cpu.load_program(&[Opcode::DivLongImm as u8, 2, 0, 0, 0]);
    cpu.run();

    let result = 1_000_000_000u32;
    assert_eq!(cpu.registers[0], result);
    assert_eq!(cpu.registers[1], 0);
}
#[test]
fn div_long_remainder() {
    let mut cpu = Cpu::new();
    cpu.registers[0] = 9;
    cpu.load_program(&[Opcode::DivLongImm as u8, 2, 0, 0, 0]);
    cpu.run();

    assert_eq!(cpu.registers[0], 4);
    assert_eq!(cpu.registers[1], 1);
}
#[test]
fn singed_div_byte() {
    let mut cpu = Cpu::new();
    cpu.registers[0] = -10_i32 as u32;
    cpu.load_program(&[Opcode::SignedDivByteImm as u8, 2]);
    cpu.run();

    assert_eq!(cpu.registers[0] as i32, -5);
    assert_eq!(cpu.registers[1], 0);
}
#[test]
fn singed_div_short() {
    let mut cpu = Cpu::new();
    cpu.registers[0] = -10_i32 as u32;
    cpu.load_program(&[Opcode::SignedDivShortImm as u8, 2, 0]);
    cpu.run();

    assert_eq!(cpu.registers[0] as i32, -5);
    assert_eq!(cpu.registers[1], 0);
}
#[test]
fn singed_div_long() {
    let mut cpu = Cpu::new();
    cpu.registers[0] = -10_i32 as u32;
    cpu.load_program(&[Opcode::SignedDivLongImm as u8, 2, 0, 0, 0]);
    cpu.run();

    assert_eq!(cpu.registers[0] as i32, -5);
    assert_eq!(cpu.registers[1], 0);
}
