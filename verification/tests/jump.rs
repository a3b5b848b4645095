use bit32::cpu::Cpu;
use bit32::opcodes::Opcode;

#[test]
fn jump() {
    let mut cpu = Cpu::new();
    let mut program = vec![];
    program.push(Opcode::JumpImm as u8);
    program.extend_from_slice(&10_u32.to_le_bytes());
    cpu.load_program(program.as_slice());
    cpu.cycle();
    assert_eq!(cpu.registers[bit32::cpu::IP], 10);
}
#[test]
fn jump_reg() {
    let mut cpu = Cpu::new();
    cpu.registers[0] = 10;
    let mut program = vec![];
    program.push(Opcode::JumpReg as u8);
    program.push(0);
    cpu.load_program(program.as_slice());
    cpu.cycle();
    assert_eq!(cpu.registers[bit32::cpu::IP], 10);
}
#[test]
fn jne() {
    let mut cpu = Cpu::new();
    cpu.registers[0] = 10;
    cpu.registers[1] = 11;
    let mut program = vec![];
    program.push(Opcode::JumpNotEqual as u8);
    let jmp_addr = 10 as u32;
    program.extend_from_slice(&jmp_addr.to_le_bytes());
    cpu.load_program(program.as_slice());
    cpu.cycle();
    assert_eq!(cpu.registers[bit32::cpu::IP], jmp_addr);
}
#[test]
fn jne_negative() {
    let mut cpu = Cpu::new();
    cpu.registers[0] = 10;
    cpu.registers[1] = 10;
    let mut program = vec![];
    program.push(Opcode::JumpNotEqual as u8);
    let jmp_addr = 10 as u32;
    program.extend_from_slice(&jmp_addr.to_le_bytes());
    let no_jmp_addr = program.len() as u32;
    cpu.load_program(program.as_slice());
    cpu.cycle();
    assert_eq!(cpu.registers[bit32::cpu::IP], no_jmp_addr);
}
#[test]
fn je() {
    let mut cpu = Cpu::new();
    cpu.registers[0] = 10;
    cpu.registers[1] = 10;
    let mut program = vec![];
    program.push(Opcode::JumpEqual as u8);
    let jmp_addr = 10 as u32;
    program.extend_from_slice(&jmp_addr.to_le_bytes());
    cpu.load_program(program.as_slice());
    cpu.cycle();
    assert_eq!(cpu.registers[bit32::cpu::IP], jmp_addr);
}
#[test]
fn je_negative() {
    let mut cpu = Cpu::new();
    cpu.registers[0] = 10;
    cpu.registers[1] = 11;
    let mut program = vec![];
    program.push(Opcode::JumpEqual as u8);
    let jmp_addr = 10 as u32;
    program.extend_from_slice(&jmp_addr.to_le_bytes());
    let no_jmp_addr = program.len() as u32;
    cpu.load_program(program.as_slice());
    cpu.cycle();
    assert_eq!(cpu.registers[bit32::cpu::IP], no_jmp_addr);
}
#[test]
fn jl_when_less() {
    let mut cpu = Cpu::new();
    cpu.registers[0] = 10;
    cpu.registers[1] = 11;
    let mut program = vec![];
    program.push(Opcode::JumpLess as u8);
    let jmp_addr = 10 as u32;
    program.extend_from_slice(&jmp_addr.to_le_bytes());
    cpu.load_program(program.as_slice());
    cpu.cycle();
    assert_eq!(cpu.registers[bit32::cpu::IP], jmp_addr);
}
#[test]
fn jl_when_eq() {
    let mut cpu = Cpu::new();
    cpu.registers[0] = 10;
    cpu.registers[1] = 10;
    let mut program = vec![];
    program.push(Opcode::JumpLess as u8);
    let jmp_addr = 10 as u32;
    program.extend_from_slice(&jmp_addr.to_le_bytes());
    let no_jmp_addr = program.len() as u32;
    cpu.load_program(program.as_slice());
    cpu.cycle();
    assert_eq!(cpu.registers[bit32::cpu::IP], no_jmp_addr);
}
#[test]
fn jl_when_gr() {
    let mut cpu = Cpu::new();
    cpu.registers[0] = 10;
    cpu.registers[1] = 9;
    let mut program = vec![];
    program.push(Opcode::JumpLess as u8);
    let jmp_addr = 10 as u32;
    program.extend_from_slice(&jmp_addr.to_le_bytes());
    let no_jmp_addr = program.len() as u32;
    cpu.load_program(program.as_slice());
    cpu.cycle();
    assert_eq!(cpu.registers[bit32::cpu::IP], no_jmp_addr);
}
#[test]
fn jg_when_less() {
    let mut cpu = Cpu::new();
    cpu.registers[0] = 10;
    cpu.registers[1] = 11;
    let mut program = vec![];
    program.push(Opcode::JumpGreater as u8);
    let jmp_addr = 10 as u32;
    program.extend_from_slice(&jmp_addr.to_le_bytes());
    let no_jmp_addr = program.len() as u32;
    cpu.load_program(program.as_slice());
    cpu.cycle();
    assert_eq!(cpu.registers[bit32::cpu::IP], no_jmp_addr);
}
#[test]
fn jg_when_eq() {
    let mut cpu = Cpu::new();
    cpu.registers[0] = 10;
    cpu.registers[1] = 10;
    let mut program = vec![];
    program.push(Opcode::JumpGreater as u8);
    let jmp_addr = 10 as u32;
    program.extend_from_slice(&jmp_addr.to_le_bytes());
    let no_jmp_addr = program.len() as u32;
    cpu.load_program(program.as_slice());
    cpu.cycle();
    assert_eq!(cpu.registers[bit32::cpu::IP], no_jmp_addr);
}
#[test]
fn jg_when_gr() {
    let mut cpu = Cpu::new();
    cpu.registers[0] = 10;
    cpu.registers[1] = 9;
    let mut program = vec![];
    program.push(Opcode::JumpGreater as u8);
    let jmp_addr = 10 as u32;
    program.extend_from_slice(&jmp_addr.to_le_bytes());
    cpu.load_program(program.as_slice());
    cpu.cycle();
    assert_eq!(cpu.registers[bit32::cpu::IP], jmp_addr);
}
#[test]
fn jle_when_less() {
    let mut cpu = Cpu::new();
    cpu.registers[0] = 10;
    cpu.registers[1] = 11;
    let mut program = vec![];
    program.push(Opcode::JumpLessEqual as u8);
    let jmp_addr = 10 as u32;
    program.extend_from_slice(&jmp_addr.to_le_bytes());
    cpu.load_program(program.as_slice());
    cpu.cycle();
    assert_eq!(cpu.registers[bit32::cpu::IP], jmp_addr);
}
#[test]
fn jle_when_eq() {
    let mut cpu = Cpu::new();
    cpu.registers[0] = 10;
    cpu.registers[1] = 10;
    let mut program = vec![];
    program.push(Opcode::JumpLessEqual as u8);
    let jmp_addr = 10 as u32;
    program.extend_from_slice(&jmp_addr.to_le_bytes());
    let no_jmp_addr = program.len() as u32;
    cpu.load_program(program.as_slice());
    cpu.cycle();
    assert_eq!(cpu.registers[bit32::cpu::IP], jmp_addr);
}
#[test]
fn jle_when_gr() {
    let mut cpu = Cpu::new();
    cpu.registers[0] = 10;
    cpu.registers[1] = 9;
    let mut program = vec![];
    program.push(Opcode::JumpLessEqual as u8);
    let jmp_addr = 10 as u32;
    program.extend_from_slice(&jmp_addr.to_le_bytes());
    let no_jmp_addr = program.len() as u32;
    cpu.load_program(program.as_slice());
    cpu.cycle();
    assert_eq!(cpu.registers[bit32::cpu::IP], no_jmp_addr);
}
#[test]
fn jge_when_less() {
    let mut cpu = Cpu::new();
    cpu.registers[0] = 10;
    cpu.registers[1] = 11;
    let mut program = vec![];
    program.push(Opcode::JumpGreaterEqual as u8);
    let jmp_addr = 10 as u32;
    program.extend_from_slice(&jmp_addr.to_le_bytes());
    let no_jmp_addr = program.len() as u32;
    cpu.load_program(program.as_slice());
    cpu.cycle();
    assert_eq!(cpu.registers[bit32::cpu::IP], no_jmp_addr);
}
#[test]
fn jge_when_eq() {
    let mut cpu = Cpu::new();
    cpu.registers[0] = 10;
    cpu.registers[1] = 10;
    let mut program = vec![];
    program.push(Opcode::JumpGreaterEqual as u8);
    let jmp_addr = 10 as u32;
    program.extend_from_slice(&jmp_addr.to_le_bytes());
    let no_jmp_addr = program.len() as u32;
    cpu.load_program(program.as_slice());
    cpu.cycle();
    assert_eq!(cpu.registers[bit32::cpu::IP], jmp_addr);
}
#[test]
fn jge_when_gr() {
    let mut cpu = Cpu::new();
    cpu.registers[0] = 10;
    cpu.registers[1] = 9;
    let mut program = vec![];
    program.push(Opcode::JumpGreaterEqual as u8);
    let jmp_addr = 10 as u32;
    program.extend_from_slice(&jmp_addr.to_le_bytes());
    cpu.load_program(program.as_slice());
    cpu.cycle();
    assert_eq!(cpu.registers[bit32::cpu::IP], jmp_addr);
}
