use bit32::cpu::Cpu;
use bit32::opcodes::Opcode;

#[test]
fn add_byte_reg() {
    let mut cpu = Cpu::new();
    cpu.registers[0] = 100;
    cpu.registers[1] = 50;

    cpu.load_program(&[Opcode::AddByteReg as u8, 1]);
    cpu.run();

    assert_eq!(cpu.registers[0], 150);
}
#[test]
fn add_short_reg() {
    let mut cpu = Cpu::new();
    cpu.registers[0] = 100;
    cpu.registers[1] = 50;

    cpu.load_program(&[Opcode::AddShortReg as u8, 1]);
    cpu.run();

    assert_eq!(cpu.registers[0], 150);
}
#[test]
fn add_long_reg() {
    let mut cpu = Cpu::new();
    cpu.registers[0] = 100;
    cpu.registers[1] = 50;

    cpu.load_program(&[Opcode::AddLongReg as u8, 1]);
    cpu.run();

    assert_eq!(cpu.registers[0], 150);
}
#[test]
fn add_byte_imm() {
    let mut cpu = Cpu::new();
    cpu.registers[0] = 100;
    cpu.load_program(&[Opcode::AddByteImm as u8, 100]);
    cpu.run();

    assert_eq!(cpu.registers[0], 200);
}
#[test]
fn add_byte_imm_wrap() {
    let mut cpu = Cpu::new();
    cpu.registers[0] = 156;
    cpu.load_program(&[Opcode::AddByteImm as u8, 100]);
    cpu.run();

    assert_eq!(cpu.registers[0], 0);
}
#[test]
fn add_short_imm() {
    let mut cpu = Cpu::new();
    cpu.registers[0] = 100;
    cpu.load_program(&[Opcode::AddShortImm as u8, 100, 0]);
    cpu.run();

    assert_eq!(cpu.registers[0], 200);
}
#[test]
fn add_short_imm_wrap() {
    let mut cpu = Cpu::new();
    cpu.registers[0] = 65535;
    cpu.load_program(&[Opcode::AddShortImm as u8, 100, 0]);
    cpu.run();

    assert_eq!(cpu.registers[0], 99);
}
#[test]
fn add_long_imm() {
    let mut cpu = Cpu::new();
    cpu.registers[0] = 100;
    cpu.load_program(&[Opcode::AddLongImm as u8, 100, 0, 0, 0]);
    cpu.run();

    assert_eq!(cpu.registers[0], 200);
}
#[test]
fn add_long_imm_wrap() {
    let mut cpu = Cpu::new();
    cpu.registers[0] = 4_294_967_295;
    cpu.load_program(&[Opcode::AddLongImm as u8, 100, 0, 0, 0]);
    cpu.run();

    assert_eq!(cpu.registers[0], 99);
}
#[test]
fn add_carry_byte_reg() {
    let mut cpu = Cpu::new();
    cpu.registers[0] = 100;
    cpu.registers[1] = 50;

    cpu.load_program(&[Opcode::AddByteReg as u8, 1]);
    cpu.run();

    assert_eq!(cpu.registers[0], 150);
}
#[test]
fn add_carry_short_reg() {
    let mut cpu = Cpu::new();
    cpu.registers[0] = 100;
    cpu.registers[1] = 50;

    cpu.load_program(&[Opcode::AddShortReg as u8, 1]);
    cpu.run();

    assert_eq!(cpu.registers[0], 150);
}
#[test]
fn add_carry_long_reg() {
    let mut cpu = Cpu::new();
    cpu.registers[0] = 100;
    cpu.registers[1] = 50;

    cpu.load_program(&[Opcode::AddCarryLongReg as u8, 1]);
    cpu.run();

    assert_eq!(cpu.registers[0], 150);
}
#[test]
fn add_carry_byte_imm() {
    let mut cpu = Cpu::new();
    cpu.registers[0] = 100;
    cpu.load_program(&[Opcode::AddCarryByteImm as u8, 100]);
    cpu.run();

    assert_eq!(cpu.registers[0], 200);
}
#[test]
fn add_carry_byte_imm_carry_set() {
    let mut cpu = Cpu::new();
    cpu.set_flag(Cpu::CARRY_FLAG, true);
    cpu.registers[0] = 100;
    cpu.load_program(&[Opcode::AddCarryByteImm as u8, 100]);
    cpu.run();

    assert_eq!(cpu.registers[0], 201);
}
#[test]
fn add_carry_short_imm() {
    let mut cpu = Cpu::new();
    cpu.registers[0] = 100;
    cpu.load_program(&[Opcode::AddCarryShortImm as u8, 100, 0]);
    cpu.run();

    assert_eq!(cpu.registers[0], 200);
}
#[test]
fn add_carry_short_imm_carry_set() {
    let mut cpu = Cpu::new();
    cpu.set_flag(Cpu::CARRY_FLAG, true);
    cpu.registers[0] = 100;
    cpu.load_program(&[Opcode::AddCarryShortImm as u8, 100, 0]);
    cpu.run();

    assert_eq!(cpu.registers[0], 201);
}
#[test]
fn add_carry_long_imm() {
    let mut cpu = Cpu::new();
    cpu.registers[0] = 0x0F;
    cpu.load_program(&[Opcode::AddCarryLongImm as u8, 0xF0, 0xFF, 0, 0]);
    cpu.run();

    assert_eq!(cpu.registers[0], 0xFFFF);
}
#[test]
fn add_carry_long_imm_carry_set() {
    let mut cpu = Cpu::new();
    cpu.set_flag(Cpu::CARRY_FLAG, true);
    cpu.registers[0] = 0x0F;
    cpu.load_program(&[Opcode::AddCarryLongImm as u8, 0xF0, 0xFF, 0, 0]);
    cpu.run();

    assert_eq!(cpu.registers[0], 0x10000);
}
