use bit32::cpu::Cpu;
use bit32::opcodes::Opcode;

#[test]
fn sub_byte_imm() {
    let mut cpu = Cpu::new();
    cpu.registers[0] = 100;
    cpu.load_program(&[Opcode::SubByteImm as u8, 100]);
    cpu.run();

    assert_eq!(cpu.registers[0], 0);
}
#[test]
fn sub_byte_imm_wrap() {
    let mut cpu = Cpu::new();
    cpu.registers[0] = 0;
    cpu.load_program(&[Opcode::SubByteImm as u8, 100]);
    cpu.run();

    assert_eq!(cpu.registers[0], 156);
}
#[test]
fn sub_short_imm() {
    let mut cpu = Cpu::new();
    cpu.registers[0] = 100;
    cpu.load_program(&[Opcode::SubShortImm as u8, 100, 0]);
    cpu.run();

    assert_eq!(cpu.registers[0], 0);
}
#[test]
fn sub_short_imm_wrap() {
    let mut cpu = Cpu::new();
    cpu.registers[0] = 0;
    cpu.load_program(&[Opcode::SubShortImm as u8, 100, 0]);
    cpu.run();

    assert_eq!(cpu.registers[0], 65536 - 100);
}
#[test]
fn sub_long_imm() {
    let mut cpu = Cpu::new();
    cpu.registers[0] = 100;
    cpu.load_program(&[Opcode::SubLongImm as u8, 100, 0, 0, 0]);
    cpu.run();

    assert_eq!(cpu.registers[0], 0);
}
#[test]
fn sub_long_imm_wrap() {
    let mut cpu = Cpu::new();
    cpu.registers[0] = 0;
    cpu.load_program(&[Opcode::SubLongImm as u8, 100, 0, 0, 0]);
    cpu.run();

    assert_eq!(cpu.registers[0], 4_294_967_295 - 99);
}
#[test]
fn sub_byte_reg() {
    let mut cpu = Cpu::new();
    cpu.registers[0] = 100;
    cpu.registers[1] = 50;
    cpu.load_program(&[Opcode::SubByteReg as u8, 1]);
    cpu.run();

    assert_eq!(cpu.registers[0], 50);
}
#[test]
fn sub_short_reg() {
    let mut cpu = Cpu::new();
    cpu.registers[0] = 100;
    cpu.registers[1] = 50;
    cpu.load_program(&[Opcode::SubShortReg as u8, 1]);
    cpu.run();

    assert_eq!(cpu.registers[0], 50);
}
#[test]
fn sub_long_reg() {
    let mut cpu = Cpu::new();
    cpu.registers[0] = 100;
    cpu.registers[1] = 50;
    cpu.load_program(&[Opcode::SubLongReg as u8, 1]);
    cpu.run();

    assert_eq!(cpu.registers[0], 50);
}
#[test]
fn sub_borrow_byte_imm() {
    let mut cpu = Cpu::new();
    cpu.registers[0] = 100;
    cpu.load_program(&[Opcode::SubBorrowByteImm as u8, 100]);
    cpu.run();

    assert_eq!(cpu.registers[0], 0);
}
#[test]
fn sub_borrow_byte_imm_carry_set() {
    let mut cpu = Cpu::new();
    cpu.set_flag(Cpu::CARRY_FLAG, true);
    cpu.registers[0] = 100;
    cpu.load_program(&[Opcode::SubBorrowByteImm as u8, 49]);
    cpu.run();

    assert_eq!(cpu.registers[0], 50);
}
#[test]
fn sub_borrow_short_imm() {
    let mut cpu = Cpu::new();
    cpu.registers[0] = 100;
    cpu.load_program(&[Opcode::SubBorrowShortImm as u8, 100, 0]);
    cpu.run();

    assert_eq!(cpu.registers[0], 0);
}
#[test]
fn sub_borrow_short_imm_carry_set() {
    let mut cpu = Cpu::new();
    cpu.set_flag(Cpu::CARRY_FLAG, true);
    cpu.registers[0] = 0xFFFF;
    cpu.load_program(&[Opcode::SubBorrowShortImm as u8, 0xFF, 0]);
    cpu.run();

    assert_eq!(cpu.registers[0], 0xFEFF);
}
#[test]
fn sub_borrow_long_imm() {
    let mut cpu = Cpu::new();
    cpu.registers[0] = 100;
    cpu.load_program(&[Opcode::SubBorrowLongImm as u8, 100, 0, 0, 0]);
    cpu.run();

    assert_eq!(cpu.registers[0], 0);
}
#[test]
fn sub_borrow_long_imm_carry_set() {
    let mut cpu = Cpu::new();
    cpu.set_flag(Cpu::CARRY_FLAG, true);
    cpu.registers[0] = 0xFFFFFFFF;
    cpu.load_program(&[Opcode::SubBorrowLongImm as u8, 0xFF, 0, 0, 0]);
    cpu.run();

    assert_eq!(cpu.registers[0], 0xFFFFFEFF);
}
#[test]
fn sub_borrow_byte_reg() {
    let mut cpu = Cpu::new();
    cpu.registers[0] = 100;
    cpu.registers[1] = 50;
    cpu.load_program(&[Opcode::SubBorrowByteReg as u8, 1]);
    cpu.run();

    assert_eq!(cpu.registers[0], 50);
}
#[test]
fn sub_borrow_short_reg() {
    let mut cpu = Cpu::new();
    cpu.registers[0] = 100;
    cpu.registers[1] = 50;
    cpu.load_program(&[Opcode::SubBorrowShortReg as u8, 1]);
    cpu.run();

    assert_eq!(cpu.registers[0], 50);
}
#[test]
fn sub_borrow_long_reg() {
    let mut cpu = Cpu::new();
    cpu.registers[0] = 100;
    cpu.registers[1] = 50;
    cpu.load_program(&[Opcode::SubBorrowLongReg as u8, 1]);
    cpu.run();

    assert_eq!(cpu.registers[0], 50);
}
