use bit32::cpu::{Cpu, SP};
use bit32::opcodes::Opcode;

fn create_cpu() -> Cpu {
    let mut cpu = Cpu::new();
    cpu.registers[SP] = 50;
    return cpu;
}

#[test]
fn push_byte_reg() {
    let mut cpu = create_cpu();
    let expected_sp = cpu.sp() - 1;

    cpu.registers[0] = 100;
    cpu.load_program(&[Opcode::PushByteReg as u8, 0]);
    cpu.run();

    assert_eq!(cpu.memory.byte(expected_sp), 100);
}
#[test]
fn push_byte_imm() {
    let mut cpu = create_cpu();
    let expected_sp = cpu.sp() - 1;

    cpu.load_program(&[Opcode::PushByteImm as u8, 100]);
    cpu.run();

    assert_eq!(cpu.memory.byte(expected_sp), 100);
}
#[test]
fn push_short_reg() {
    let mut cpu = create_cpu();
    let expected_sp = cpu.sp() - 2;
    cpu.registers[0] = 100;
    cpu.load_program(&[Opcode::PushShortReg as u8, 0]);
    cpu.run();

    assert_eq!(cpu.memory.short(expected_sp), 100);
}
#[test]
fn push_short_imm() {
    let mut cpu = create_cpu();
    let expected_sp = cpu.sp() - 2;
    cpu.load_program(&[Opcode::PushShortImm as u8, 100, 0]);
    cpu.run();

    assert_eq!(cpu.memory.short(expected_sp), 100);
}
#[test]
fn push_long_reg() {
    let mut cpu = create_cpu();
    let expected_sp = cpu.sp() - 4;
    cpu.registers[0] = 100;
    cpu.load_program(&[Opcode::PushLongReg as u8, 0, 0, 0]);
    cpu.run();

    assert_eq!(cpu.memory.long(expected_sp), 100);
}
#[test]
fn push_long_imm() {
    let mut cpu = create_cpu();
    let expected_sp = cpu.sp() - 4;
    cpu.load_program(&[Opcode::PushLongImm as u8, 100, 0, 0, 0]);
    cpu.run();

    assert_eq!(cpu.memory.long(expected_sp), 100);
}
#[test]
fn pop_byte_reg() {
    let mut cpu = create_cpu();
    let expected_sp = cpu.sp() + 1;
    cpu.memory.set_byte(cpu.sp(), 100);

    cpu.load_program(&[Opcode::PopByte as u8, 0]);
    cpu.run();

    assert_eq!(cpu.registers[0], 100);
    assert_eq!(cpu.sp(), expected_sp);
}
#[test]
fn pop_short_reg() {
    let mut cpu = create_cpu();
    let expected_sp = cpu.sp() + 2;
    cpu.memory.set_short(cpu.sp(), 100);

    cpu.load_program(&[Opcode::PopShort as u8, 0]);
    cpu.run();

    assert_eq!(cpu.registers[0], 100);
    assert_eq!(cpu.sp(), expected_sp);
}
#[test]
fn pop_long_reg() {
    let mut cpu = create_cpu();
    let expected_sp = cpu.sp() + 4;
    cpu.memory.set_long(cpu.sp(), 100);

    cpu.load_program(&[Opcode::PopLong as u8, 0, 0, 0]);
    cpu.run();

    assert_eq!(cpu.registers[0], 100);
    assert_eq!(cpu.sp(), expected_sp);
}
