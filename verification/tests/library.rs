use bit32::cpu::{Cpu, Memory, RunStop, BP, FLAGS, IDT, IP, SP};
use bit32::machine::MEMORY_SIZE;
use bit32::debug::{DebugAction, DebugState, Debugger};
use bit32::functions::{log, log_memory, print_register, print_string, MemoryLog};
use bit32::gpu::{cell_size, text_cells, vga_to_color, GpuAction, GpuState, VgaColor, DRAW_VGA, HLT, WRITE_BYTE, WRITE_LONG, WRITE_SHORT};
use bit32::hardware::{ReceivedBytes, combine_le, combine_short, port_bytes, read_byte, read_long, read_short, write_byte_imm, write_byte_reg, write_long_imm, write_long_reg, write_short_imm, write_short_reg, Hardware};
use bit32::machine::Width;
use bit32::opcodes::Opcode;
use bit32::semantics::Syscall;

fn machine(program: &[u8]) -> Cpu {
    let mut cpu = Cpu::new();
    cpu.load_program(program);
    cpu
}

#[test]
fn new_machine_has_default_stack_and_blank_text_buffer() {
    let cpu = Cpu::new();
    assert_eq!(cpu.memory.buffer.len(), MEMORY_SIZE);
    assert_eq!(cpu.bp(), MEMORY_SIZE - 20);
    assert_eq!(cpu.sp(), MEMORY_SIZE - 1020);
    assert_eq!(cpu.registers[BP], (MEMORY_SIZE - 20) as u32);
    assert_eq!(cpu.ip(), 0);
    assert_eq!(cpu.flags(), 0);
    assert_eq!(cpu.memory.buffer[Cpu::VGA_BUFFER_ADDRESS], b' ');
    assert_eq!(cpu.memory.buffer[Cpu::VGA_BUFFER_ADDRESS + 1], 0);
    assert_eq!(cpu.memory.buffer[Cpu::VGA_BUFFER_ADDRESS + Cpu::VGA_BUFFER_LEN - 2], b' ');
    assert_eq!(cpu.memory.buffer[Cpu::VGA_BUFFER_ADDRESS + Cpu::VGA_BUFFER_LEN], 0);
    assert_eq!(cpu.memory.buffer[Cpu::VGA_BUFFER_ADDRESS - 2], 0);
}

#[test]
fn memory_reads_back_little_endian_writes() {
    let mut memory = Memory::new();
    memory.set_long(100, 0x1234_5678);
    assert_eq!(memory.byte(100), 0x78);
    assert_eq!(memory.byte(103), 0x12);
    assert_eq!(memory.short(100), 0x5678);
    assert_eq!(memory.short(102), 0x1234);
    assert_eq!(memory.long(100), 0x1234_5678);
    memory.set_short(200, 0xBEEF);
    assert_eq!(memory.short(200), 0xBEEF);
    assert_eq!(memory.byte(199), 0);
    assert_eq!(memory.byte(202), 0);
    memory.set_byte(104, 7);
    assert_eq!(memory.long(100), 0x1234_5678);
}

#[test]
fn memory_decodes_terminated_utf8_strings() {
    let mut memory = Memory::new();
    memory.buffer[10..16].copy_from_slice(b"h\xC3\xA9llo");
    assert_eq!(memory.utf8(10).unwrap(), "héllo");
    memory.buffer[30..33].copy_from_slice(&[0x61, 0xFF, 0x62]);
    assert!(memory.utf8(30).is_err());
    assert_eq!(memory.utf8(40).unwrap(), "");
}

#[test]
fn next_utf8_moves_to_the_terminator() {
    let mut cpu = machine(b"ab\xC3\xA9\0rest");
    let text = cpu.next_utf8();
    assert_eq!(text, "abé");
    assert_eq!(cpu.ip(), 4);
}

#[test]
fn instruction_fetch_is_little_endian() {
    let mut cpu = machine(&[0x11, 0x22, 0x33, 0x44, 0x55, 0x66, 0x77]);
    assert_eq!(cpu.next_byte(), 0x11);
    assert_eq!(cpu.next_short(), 0x3322);
    assert_eq!(cpu.next_long(), 0x7766_5544);
    assert_eq!(cpu.ip(), 7);
}

#[test]
fn flags_set_and_clear_independently() {
    let mut cpu = Cpu::new();
    cpu.set_flag(Cpu::CARRY_FLAG, true);
    cpu.set_flag(Cpu::INTERRUPT_FLAG, true);
    assert!(cpu.has_flag(Cpu::CARRY_FLAG));
    cpu.set_flag(Cpu::CARRY_FLAG, false);
    assert!(!cpu.has_flag(Cpu::CARRY_FLAG));
    assert!(cpu.has_flag(Cpu::INTERRUPT_FLAG));
    assert!(!cpu.has_flag(Cpu::HALT_FLAG));
    assert_eq!(cpu.registers[FLAGS], Cpu::INTERRUPT_FLAG);
}

#[test]
fn stack_pointer_moves() {
    let mut cpu = Cpu::new();
    cpu.registers[SP] = 100;
    cpu.dec_sp(4);
    assert_eq!(cpu.sp(), 96);
    cpu.inc_sp(10);
    assert_eq!(cpu.sp(), 106);
    cpu.inc_ip(3);
    assert_eq!(cpu.ip(), 3);
}

#[test]
fn load_program_keeps_the_rest_of_memory() {
    let mut cpu = Cpu::new();
    cpu.memory.buffer[5] = 9;
    cpu.load_program(&[1, 2, 3]);
    assert_eq!(&cpu.memory.buffer[0..6], &[1, 2, 3, 0, 0, 9]);
}

#[test]
fn register_names() {
    assert_eq!(Cpu::reg_index_to_str(&0), "rax");
    assert_eq!(Cpu::reg_index_to_str(&10), "r9");
    assert_eq!(Cpu::reg_index_to_str(&17), "flags");
    assert_eq!(Cpu::reg_index_to_str(&IP), "ip");
    assert_eq!(Cpu::reg_index_to_str(&21), "idt");
}

#[test]
fn opcode_bytes_follow_the_declaration_order() {
    assert_eq!(Opcode::Hlt.to_byte(), 0);
    assert_eq!(Opcode::MoveImmRegByte.to_byte(), 1);
    assert_eq!(Opcode::Nop.to_byte(), 208);
    for b in 0..=255u8 {
        match Opcode::from_byte(b) {
            Some(op) => {
                assert_eq!(op.to_byte(), b);
                assert_eq!(op as u8, b);
            }
            None => assert!(b > 208),
        }
    }
}

#[test]
fn operand_sizes_of_some_opcodes() {
    assert_eq!(Opcode::MoveImmRegShort.operand_sizes(), (1, 2));
    assert_eq!(Opcode::MoveMemAbsLong.operand_sizes(), (4, 4));
    assert_eq!(Opcode::AddShortImm.operand_sizes(), (2, 0));
    assert_eq!(Opcode::Call.operand_sizes(), (4, 0));
    assert_eq!(Opcode::Nop.operand_sizes(), (0, 0));
}

#[test]
fn undefined_opcode_halts() {
    let mut cpu = machine(&[250]);
    assert!(cpu.can_step());
    assert_eq!(cpu.cycle(), None);
    assert!(cpu.has_flag(Cpu::HALT_FLAG));
    assert_eq!(cpu.ip(), 1);
}

#[test]
fn push_then_pop_restores_value_and_stack() {
    let mut cpu = machine(&[Opcode::PushShortReg as u8, 3, Opcode::PopShort as u8, 5]);
    cpu.registers[SP] = 60;
    cpu.registers[3] = 0xABCD_1234;
    cpu.run();
    assert_eq!(cpu.registers[5], 0x1234);
    assert_eq!(cpu.sp(), 60);
    assert_eq!(cpu.memory.short(58), 0x1234);
}

#[test]
fn addition_carry_completes_the_sum() {
    let mut cpu = machine(&[Opcode::AddByteImm as u8, 200]);
    cpu.registers[0] = 100;
    cpu.cycle();
    assert_eq!(cpu.registers[0], 44);
    assert!(cpu.has_flag(Cpu::CARRY_FLAG));
    let mut cpu = machine(&[Opcode::AddCarryShortImm as u8, 1, 0]);
    cpu.registers[0] = 0xFFFE;
    cpu.set_flag(Cpu::CARRY_FLAG, true);
    cpu.cycle();
    assert_eq!(cpu.registers[0], 0);
    assert!(cpu.has_flag(Cpu::CARRY_FLAG));
}

#[test]
fn subtraction_borrow_flag() {
    let mut cpu = machine(&[Opcode::SubLongImm as u8, 1, 0, 0, 0]);
    cpu.registers[0] = 0;
    cpu.cycle();
    assert_eq!(cpu.registers[0], 0xFFFF_FFFF);
    assert!(cpu.has_flag(Cpu::CARRY_FLAG));
    let mut cpu = machine(&[Opcode::SubBorrowByteReg as u8, 1]);
    cpu.registers[0] = 5;
    cpu.registers[1] = 4;
    cpu.set_flag(Cpu::CARRY_FLAG, true);
    cpu.cycle();
    assert_eq!(cpu.registers[0], 0);
    assert!(!cpu.has_flag(Cpu::CARRY_FLAG));
}

#[test]
fn clear_carry_and_nop() {
    let mut cpu = machine(&[Opcode::ClearCarry as u8, Opcode::Nop as u8]);
    cpu.set_flag(Cpu::CARRY_FLAG, true);
    cpu.cycle();
    assert!(!cpu.has_flag(Cpu::CARRY_FLAG));
    cpu.cycle();
    assert_eq!(cpu.ip(), 2);
}

#[test]
fn signed_division_rounds_toward_zero() {
    let mut cpu = machine(&[Opcode::SignedDivByteImm as u8, 2]);
    cpu.registers[0] = (-7i32) as u32;
    cpu.cycle();
    assert_eq!(cpu.registers[0] as i32, -3);
    assert_eq!(cpu.registers[1] as i32, -1);
    let mut cpu = machine(&[Opcode::SignedDivLongImm as u8, 0xFE, 0xFF, 0xFF, 0xFF]);
    cpu.registers[0] = 7;
    cpu.cycle();
    assert_eq!(cpu.registers[0] as i32, -3);
    assert_eq!(cpu.registers[1] as i32, 1);
}

#[test]
fn faulting_instructions_cannot_step() {
    let cpu = machine(&[Opcode::DivByteImm as u8, 0]);
    assert!(!cpu.can_step());
    let mut cpu = machine(&[Opcode::SignedDivByteImm as u8, 0xFF]);
    cpu.registers[0] = 0x80;
    assert!(!cpu.can_step());
    let cpu = machine(&[Opcode::MoveImmRegByte as u8, 22, 1]);
    assert!(!cpu.can_step());
    let cpu = machine(&[Opcode::LogShiftLeftByteImm as u8, 8]);
    assert!(!cpu.can_step());
    let mut cpu = machine(&[Opcode::PushLongImm as u8, 1, 2, 3, 4]);
    cpu.registers[SP] = 3;
    assert!(!cpu.can_step());
    let mut cpu = machine(&[Opcode::NegateByte as u8, 0]);
    cpu.registers[0] = 0x80;
    assert!(!cpu.can_step());
    let cpu = machine(&[Opcode::Syscall as u8, 4]);
    assert!(!cpu.can_step());
    let mut cpu = machine(&[Opcode::MoveAbsRegLong as u8, 0, 0xFF, 0xFF, 0xFF, 0xFF]);
    assert!(!cpu.can_step());
    cpu.registers[IP] = u32::MAX;
    assert!(!cpu.can_step());
    let cpu = machine(&[Opcode::AddByteImm as u8, 1]);
    assert!(cpu.can_step());
}

#[test]
fn arithmetic_shift_right_keeps_the_sign() {
    let mut cpu = machine(&[Opcode::ArithShiftRightByteReg as u8, 1]);
    cpu.registers[0] = 0xF0;
    cpu.registers[1] = 2;
    cpu.cycle();
    assert_eq!(cpu.registers[0], 0xFFFF_FFFC);
    let mut cpu = machine(&[Opcode::ArithShiftLeftShortReg as u8, 1]);
    cpu.registers[0] = 0x4000;
    cpu.registers[1] = 1;
    cpu.cycle();
    assert_eq!(cpu.registers[0], 0xFFFF_8000);
}

#[test]
fn rotations_wrap_the_amount() {
    let mut cpu = machine(&[Opcode::RotateLeftShortReg as u8, 1]);
    cpu.registers[0] = 0x8001;
    cpu.registers[1] = 17;
    cpu.cycle();
    assert_eq!(cpu.registers[0], 0x0003);
    let mut cpu = machine(&[Opcode::RotateRightLongImm as u8, 4]);
    cpu.registers[0] = 0x1234_5678;
    cpu.cycle();
    assert_eq!(cpu.registers[0], 0x8123_4567);
    let mut cpu = machine(&[Opcode::RotateLeftByteImm as u8, 0]);
    cpu.registers[0] = 0x1A5;
    cpu.cycle();
    assert_eq!(cpu.registers[0], 0xA5);
}

#[test]
fn single_register_operations() {
    let mut cpu = machine(&[
        Opcode::NegateShort as u8,
        2,
        Opcode::NotByte as u8,
        3,
        Opcode::IncrementByte as u8,
        4,
        Opcode::DecrementShort as u8,
        5,
    ]);
    cpu.registers[2] = 5;
    cpu.registers[3] = 0x0F;
    cpu.registers[4] = 0xFF;
    cpu.registers[5] = 0;
    for _ in 0..4 {
        cpu.cycle();
    }
    assert_eq!(cpu.registers[2] as i32, -5);
    assert_eq!(cpu.registers[3], 0xFFFF_FFF0);
    assert_eq!(cpu.registers[4], 0);
    assert_eq!(cpu.registers[5], 0xFFFF);
}

#[test]
fn signed_jumps_compare_as_signed() {
    let mut cpu = machine(&[Opcode::JumpSignedLess as u8, 40, 0, 0, 0]);
    cpu.registers[0] = (-1i32) as u32;
    cpu.registers[1] = 1;
    cpu.cycle();
    assert_eq!(cpu.ip(), 40);
    let mut cpu = machine(&[Opcode::JumpLess as u8, 40, 0, 0, 0]);
    cpu.registers[0] = (-1i32) as u32;
    cpu.registers[1] = 1;
    cpu.cycle();
    assert_eq!(cpu.ip(), 5);
}

#[test]
fn interrupt_is_ignored_while_one_is_serviced() {
    let mut cpu = machine(&[Opcode::Interrupt as u8, 3]);
    cpu.registers[IDT] = 100;
    cpu.set_flag(Cpu::INTERRUPT_FLAG, true);
    let sp = cpu.sp();
    cpu.cycle();
    assert_eq!(cpu.ip(), 1);
    assert_eq!(cpu.sp(), sp);
}

#[test]
fn interrupt_jumps_through_the_table_and_returns() {
    let mut cpu = machine(&[Opcode::Interrupt as u8, 2, Opcode::Hlt as u8]);
    cpu.registers[IDT] = 100;
    cpu.memory.set_long(108, 200);
    cpu.memory.set_byte(200, Opcode::InterruptReturn as u8);
    let sp = cpu.sp();
    cpu.cycle();
    assert_eq!(cpu.ip(), 200);
    assert!(cpu.has_flag(Cpu::INTERRUPT_FLAG));
    assert_eq!(cpu.memory.long(sp - 4), 2);
    cpu.cycle();
    assert_eq!(cpu.ip(), 2);
    assert_eq!(cpu.sp(), sp);
    assert!(!cpu.has_flag(Cpu::INTERRUPT_FLAG));
}

#[test]
fn run_stops_at_host_requests() {
    let mut cpu = machine(&[Opcode::Syscall as u8, 3, Opcode::Syscall as u8, 1, Opcode::Hlt as u8]);
    assert_eq!(cpu.run(), Some(Syscall::PrintRegister));
    assert_eq!(cpu.ip(), 2);
    assert_eq!(cpu.run(), Some(Syscall::Log));
    assert_eq!(cpu.run(), None);
    assert!(cpu.has_flag(Cpu::HALT_FLAG));
    assert_eq!(cpu.ip(), 5);
}

#[test]
fn host_request_results() {
    let mut cpu = machine(&[]);
    cpu.memory.buffer[300..304].copy_from_slice(b"hey\0");
    cpu.registers[0] = 300;
    assert_eq!(log(&mut cpu), "hey");
    assert_eq!(print_string(&mut cpu), "hey");
    cpu.registers[0] = 7;
    cpu.registers[7] = 42;
    assert_eq!(print_register(&cpu), 42);
    cpu.registers[0] = 300;
    cpu.registers[1] = 302;
    assert_eq!(
        log_memory(&cpu),
        MemoryLog::Range { start: 300, end: 302, bytes: vec![b'h', b'e'] }
    );
    cpu.registers[1] = 299;
    assert_eq!(log_memory(&cpu), MemoryLog::InvalidRange { start: 300, end: 299 });
}

#[test]
fn gpu_stores_bytes_of_complete_commands() {
    let mut gpu = GpuState::new();
    assert_eq!(gpu.write(WRITE_BYTE), GpuAction::Nothing);
    assert_eq!(gpu.write(0x34), GpuAction::Nothing);
    assert_eq!(gpu.write(0x12), GpuAction::Nothing);
    assert_eq!(gpu.vram[0x1234], 0);
    assert_eq!(gpu.write(0x99), GpuAction::Nothing);
    assert_eq!(gpu.vram[0x1234], 0x99);
    for b in [WRITE_SHORT, 0x00, 0x01, 7, 8] {
        gpu.write(b);
    }
    assert_eq!(&gpu.vram[0x100..0x102], &[7, 8]);
    for b in [WRITE_LONG, 0xFC, 0xFF, 1, 2, 3, 4] {
        gpu.write(b);
    }
    assert_eq!(&gpu.vram[0xFFFC..], &[1, 2, 3, 4]);
    assert_eq!(gpu.write(DRAW_VGA), GpuAction::Draw);
    assert_eq!(gpu.write(HLT), GpuAction::Halt);
}

#[test]
fn gpu_refuses_unknown_commands_and_overruns() {
    let mut gpu = GpuState::new();
    assert!(!gpu.accepts(9));
    assert!(gpu.accepts(WRITE_SHORT));
    gpu.write(WRITE_SHORT);
    gpu.write(0xFF);
    gpu.write(0xFF);
    assert!(gpu.accepts(1));
    gpu.write(1);
    assert!(!gpu.accepts(2));
}

#[test]
fn text_screen_layout_and_colors() {
    let mut vram = vec![0u8; 2 * 81 + 1];
    vram[0] = b'A';
    vram[1] = 0x1E;
    vram[2] = b' ';
    vram[160] = 0x07;
    vram[161] = 0xF0;
    let cells = text_cells(&vram);
    assert_eq!(cells.len(), 81);
    assert_eq!(cells[0].ch, b'A');
    assert_eq!(cells[0].foreground, VgaColor::YellowGreen);
    assert_eq!(cells[0].background, VgaColor::Blue);
    assert_eq!(cells[1].ch, b' ');
    assert_eq!(cells[79].column, 79);
    assert_eq!(cells[79].row, 0);
    assert_eq!(cells[80].column, 0);
    assert_eq!(cells[80].row, 1);
    assert_eq!(cells[80].ch, b' ');
    assert_eq!(cells[80].foreground, VgaColor::Black);
    assert_eq!(cells[80].background, VgaColor::Gray);
    assert_eq!(vga_to_color(0x0B), VgaColor::DarkCyan);
    assert_eq!(vga_to_color(0x10), VgaColor::Black);
}

#[test]
fn debugger_keys_and_rounds() {
    assert_eq!(Debugger::key_to_state('1', false), Some(DebugState::Executing));
    assert_eq!(Debugger::key_to_state('3', true), Some(DebugState::Step));
    assert_eq!(Debugger::key_to_state('c', true), Some(DebugState::Abort));
    assert_eq!(Debugger::key_to_state('c', false), None);
    assert_eq!(Debugger::key_to_state('9', false), None);
    let (next, action) = Debugger::next_round(DebugState::Step);
    assert_eq!(action, DebugAction::Cycle);
    assert_eq!(Debugger::next_round(next), (DebugState::Pause, DebugAction::Wait));
    assert_eq!(Debugger::next_round(DebugState::Reset), (DebugState::Pause, DebugAction::Reset));
    assert_eq!(Debugger::next_round(DebugState::Continue), (DebugState::Continue, DebugAction::Cycle));
    assert_eq!(Debugger::next_round(DebugState::Abort).1, DebugAction::Abort);
}

#[test]
fn debugger_names_the_next_instruction() {
    assert_eq!(Debugger::next_instruction(0), Some(Opcode::Hlt));
    assert_eq!(Debugger::next_instruction(Opcode::Nop.to_byte() - 1), Opcode::from_byte(207));
    assert!(Debugger::next_instruction(207).is_some());
    assert_eq!(Debugger::next_instruction(Opcode::Nop.to_byte()), None);
    assert_eq!(Debugger::next_instruction(255), None);
}

struct Port {
    incoming: std::cell::Cell<u8>,
    received: Vec<u8>,
}

impl Hardware for Port {
    fn received(&self) -> vstd::seq::Seq<u8> {
        vstd::view::View::view(&self.received)
    }

    fn read(&self) -> u8 {
        let b = self.incoming.get();
        self.incoming.set(b + 1);
        b
    }

    fn write(&mut self, b: u8) {
        self.received.push(b);
    }
}

#[test]
fn port_reads_and_writes() {
    let mut ports = vec![
        Port { incoming: std::cell::Cell::new(0), received: vec![] },
        Port { incoming: std::cell::Cell::new(0x10), received: vec![] },
    ];
    let mut cpu = machine(&[1, 4, 1, 5, 1, 6]);
    read_byte(&mut cpu, &ports);
    assert_eq!(cpu.registers[4], 0x10);
    read_short(&mut cpu, &ports);
    assert_eq!(cpu.registers[5], 0x1211);
    read_long(&mut cpu, &ports);
    assert_eq!(cpu.registers[6], 0x1615_1413);
    assert_eq!(cpu.ip(), 6);

    let mut cpu = machine(&[0, 7, 0, 1, 2, 3, 4]);
    cpu.registers[7] = 0xAABB;
    write_short_reg(&mut cpu, &mut ports);
    write_long_imm(&mut cpu, &mut ports);
    assert_eq!(ports[0].received, vec![0xBB, 0xAA, 1, 2, 3, 4]);
    let mut cpu = machine(&[1, 7]);
    cpu.registers[7] = 0x1FF;
    write_byte_reg(&mut cpu, &mut ports);
    assert_eq!(ports[1].received, vec![0xFF]);
}

#[test]
fn port_helpers_order_bytes_least_significant_first() {
    assert_eq!(port_bytes(0x1234_5678, Width::Byte), vec![0x78]);
    assert_eq!(port_bytes(0x1234_5678, Width::Short), vec![0x78, 0x56]);
    assert_eq!(port_bytes(0x1234_5678, Width::Long), vec![0x78, 0x56, 0x34, 0x12]);
    assert_eq!(combine_short(0x78, 0x56), 0x5678);
    assert_eq!(combine_le(0x78, 0x56, 0x34, 0x12), 0x1234_5678);
}

#[test]
fn port_writes_send_operands_in_order() {
    let mut ports = vec![Port { incoming: std::cell::Cell::new(0), received: vec![] }];
    let mut cpu = machine(&[0, 9, 0, 7, 8, 0, 3]);
    write_byte_imm(&mut cpu, &mut ports);
    write_short_imm(&mut cpu, &mut ports);
    cpu.registers[3] = 0xDEAD_BEEF;
    write_long_reg(&mut cpu, &mut ports);
    assert_eq!(ports[0].received, vec![9, 7, 8, 0xEF, 0xBE, 0xAD, 0xDE]);
    assert_eq!(cpu.ip(), 7);
}

#[test]
fn rotate_right_undoes_rotate_left() {
    for count in [0u32, 1, 7, 31, 32, 45, 0xFFFF_FFFF] {
        let program = [
            Opcode::RotateLeftLongReg.to_byte(),
            3,
            Opcode::RotateRightLongReg.to_byte(),
            3,
            Opcode::RotateLeftShortReg.to_byte(),
            3,
            Opcode::RotateRightShortReg.to_byte(),
            3,
        ];
        let mut cpu = machine(&program);
        cpu.registers[0] = 0x8123_4567;
        cpu.registers[3] = count;
        cpu.cycle();
        cpu.cycle();
        assert_eq!(cpu.registers[0], 0x8123_4567);
        cpu.cycle();
        cpu.cycle();
        assert_eq!(cpu.registers[0], 0x4567);
        assert_eq!(cpu.flags(), 0);
    }
}

#[test]
fn instructions_move_past_their_operand_sizes() {
    for op in [Opcode::AddByteImm, Opcode::AddLongImm, Opcode::MoveImmRegLong, Opcode::PushShortImm, Opcode::CompareShortReg, Opcode::Nop, Opcode::OrByteImm, Opcode::OrShortReg, Opcode::XorLongReg, Opcode::LogShiftLeftShortImm, Opcode::ArithShiftRightLongImm, Opcode::RotateRightLongImm] {
        let (a, b) = op.operand_sizes();
        let mut program = vec![op.to_byte(), 2];
        program.extend_from_slice(&[0; 8]);
        let mut cpu = machine(&program);
        cpu.cycle();
        assert_eq!(cpu.ip(), 1 + a + b);
    }
}

#[test]
fn immediate_shift_and_rotate_counts_take_one_byte() {
    for op in [
        Opcode::LogShiftLeftShortImm,
        Opcode::LogShiftLeftLongImm,
        Opcode::LogShiftRightShortImm,
        Opcode::LogShiftRightLongImm,
        Opcode::ArithShiftLeftShortImm,
        Opcode::ArithShiftLeftLongImm,
        Opcode::ArithShiftRightShortImm,
        Opcode::ArithShiftRightLongImm,
        Opcode::RotateLeftShortImm,
        Opcode::RotateLeftLongImm,
        Opcode::RotateRightShortImm,
        Opcode::RotateRightLongImm,
        Opcode::OrByteImm,
        Opcode::OrShortReg,
        Opcode::OrLongReg,
        Opcode::XorShortReg,
        Opcode::XorLongReg,
    ] {
        assert_eq!(op.operand_sizes(), (1, 0));
    }
}

#[test]
fn or_byte_immediate_reads_one_byte() {
    let mut cpu = machine(&[Opcode::OrByteImm.to_byte(), 0x55, 0xAA]);
    cpu.registers[0] = 0x1234_56FA;
    cpu.cycle();
    assert_eq!(cpu.registers[0], 0xFF);
    assert_eq!(cpu.ip(), 2);
}

#[test]
fn or_and_xor_short_and_long_registers_take_a_one_byte_index() {
    let mut cpu = machine(&[
        Opcode::OrShortReg.to_byte(), 1,
        Opcode::XorLongReg.to_byte(), 2,
        Opcode::OrLongReg.to_byte(), 3,
        Opcode::XorShortReg.to_byte(), 1,
    ]);
    cpu.registers[0] = 0xFAFA;
    cpu.registers[1] = 0x5555;
    cpu.registers[2] = 0xFFFF_0000;
    cpu.registers[3] = 0x0100_0000;
    cpu.cycle();
    assert_eq!(cpu.registers[0], 0xFFFF);
    assert_eq!(cpu.ip(), 2);
    cpu.cycle();
    assert_eq!(cpu.registers[0], 0x0000_FFFF ^ 0xFFFF_0000);
    assert_eq!(cpu.ip(), 4);
    cpu.cycle();
    assert_eq!(cpu.registers[0], 0xFFFF_FFFF);
    assert_eq!(cpu.ip(), 6);
    cpu.cycle();
    assert_eq!(cpu.registers[0], 0xFFFF ^ 0x5555);
    assert_eq!(cpu.ip(), 8);
}

#[test]
fn checked_run_reports_halt_request_and_fault() {
    let mut cpu = machine(&[Opcode::Nop.to_byte(), Opcode::Hlt.to_byte()]);
    assert_eq!(cpu.run_checked(), RunStop::Halted);
    assert_eq!(cpu.ip(), 2);

    let mut cpu = machine(&[Opcode::Syscall.to_byte(), 3, Opcode::Hlt.to_byte()]);
    assert_eq!(cpu.run_checked(), RunStop::Request(Syscall::PrintRegister));
    assert_eq!(cpu.ip(), 2);
    assert_eq!(cpu.run_checked(), RunStop::Halted);

    let mut cpu = machine(&[Opcode::Syscall.to_byte(), 9]);
    assert_eq!(cpu.run_checked(), RunStop::Fault);
    assert_eq!(cpu.ip(), 0);

    let mut cpu = machine(&[Opcode::MoveImmRegByte.to_byte(), 1, 7, Opcode::DivByteReg.to_byte(), 2]);
    assert_eq!(cpu.run_checked(), RunStop::Fault);
    assert_eq!(cpu.registers[1], 7);
    assert_eq!(cpu.ip(), 3);
}

#[test]
fn hardware_interrupt_routine_runs_only_in_service_and_once() {
    let mut cpu = Cpu::new();
    let mut pending = Some(7u32);
    assert_eq!(cpu.take_hardware_interrupt(&mut pending), None);
    assert_eq!(pending, Some(7));
    cpu.set_flag(Cpu::INTERRUPT_FLAG, true);
    assert_eq!(cpu.take_hardware_interrupt(&mut pending), Some(7));
    assert_eq!(pending, None);
    assert_eq!(cpu.take_hardware_interrupt(&mut pending), None);
}

#[test]
fn text_cells_fit_the_window() {
    assert_eq!(cell_size(800, 600), (10, 20));
    assert_eq!(cell_size(800, 200), (10, 8));
    assert_eq!(cell_size(1600, 900), (20, 36));
    assert_eq!(cell_size(0, 0), (0, 0));
    assert_eq!(cell_size(79, 1000), (0, 0));
    assert_eq!(cell_size(-160, -50), (-2, -4));
}

struct Card {
    state: GpuState,
    draws: u32,
}

impl Hardware for Card {
    fn received(&self) -> ReceivedBytes {
        self.state.received()
    }

    fn read(&self) -> u8 {
        0
    }

    fn write(&mut self, b: u8) {
        assert!(self.state.accepts(b));
        if self.state.write(b) == GpuAction::Draw {
            self.draws += 1;
        }
    }
}

#[test]
fn graphics_card_on_a_port_takes_commands_from_the_machine() {
    let mut ports = vec![Card { state: GpuState::new(), draws: 0 }];
    let mut cpu = machine(&[0, WRITE_BYTE, 0, 0x10, 0, 0, 0x41, 0, DRAW_VGA]);
    write_byte_imm(&mut cpu, &mut ports);
    write_short_imm(&mut cpu, &mut ports);
    write_byte_imm(&mut cpu, &mut ports);
    write_byte_imm(&mut cpu, &mut ports);
    assert_eq!(ports[0].state.vram[0x10], 0x41);
    assert_eq!(ports[0].draws, 1);
    assert_eq!(cpu.ip(), 9);
}
