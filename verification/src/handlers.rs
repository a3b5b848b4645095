//! The instruction handlers: one function per opcode, each executing the
//! instruction whose opcode byte the machine has just fetched.
use vstd::prelude::*;
use crate::cpu::Cpu;
use crate::execution::{
    exec_add, exec_and, exec_arith_shift_left, exec_arith_shift_right, exec_call, exec_compare,
    exec_decrement, exec_div, exec_increment, exec_interrupt, exec_interrupt_return, exec_jump,
    exec_jump_reg, exec_mov, exec_mul, exec_negate, exec_not, exec_or, exec_pop, exec_push,
    exec_ret, exec_rotate_left, exec_rotate_right, exec_shift_left, exec_shift_right,
    exec_signed_div, exec_signed_mul, exec_sub, exec_syscall, exec_xor,
};
use crate::machine::{Width, CARRY_FLAG, HALT_FLAG};
use crate::opcodes::Opcode;
use crate::semantics::{Condition, Location, Source, Syscall};
use crate::semantics;

verus! {

/// Halts the machine.
pub fn hlt(cpu: &mut Cpu)
    ensures
        Some(final(cpu)@) == semantics::halt(old(cpu)@),
{
    cpu.set_flag(HALT_FLAG, true);
}

/// Moves a byte from an immediate to a register.
pub fn move_imm_reg_byte(cpu: &mut Cpu)
    requires
        semantics::mov(old(cpu)@, Width::Byte, Location::Reg, Location::Imm) is Some,
    ensures
        Some(final(cpu)@) == semantics::mov(old(cpu)@, Width::Byte, Location::Reg, Location::Imm),
{
    exec_mov(cpu, Width::Byte, Location::Reg, Location::Imm);
}

/// Moves a short from an immediate to a register.
pub fn move_imm_reg_short(cpu: &mut Cpu)
    requires
        semantics::mov(old(cpu)@, Width::Short, Location::Reg, Location::Imm) is Some,
    ensures
        Some(final(cpu)@) == semantics::mov(old(cpu)@, Width::Short, Location::Reg, Location::Imm),
{
    exec_mov(cpu, Width::Short, Location::Reg, Location::Imm);
}

/// Moves a long from an immediate to a register.
pub fn move_imm_reg_long(cpu: &mut Cpu)
    requires
        semantics::mov(old(cpu)@, Width::Long, Location::Reg, Location::Imm) is Some,
    ensures
        Some(final(cpu)@) == semantics::mov(old(cpu)@, Width::Long, Location::Reg, Location::Imm),
{
    exec_mov(cpu, Width::Long, Location::Reg, Location::Imm);
}

/// Moves a byte from a register to a register.
pub fn move_reg_reg_byte(cpu: &mut Cpu)
    requires
        semantics::mov(old(cpu)@, Width::Byte, Location::Reg, Location::Reg) is Some,
    ensures
        Some(final(cpu)@) == semantics::mov(old(cpu)@, Width::Byte, Location::Reg, Location::Reg),
{
    exec_mov(cpu, Width::Byte, Location::Reg, Location::Reg);
}

/// Moves a short from a register to a register.
pub fn move_reg_reg_short(cpu: &mut Cpu)
    requires
        semantics::mov(old(cpu)@, Width::Short, Location::Reg, Location::Reg) is Some,
    ensures
        Some(final(cpu)@) == semantics::mov(old(cpu)@, Width::Short, Location::Reg, Location::Reg),
{
    exec_mov(cpu, Width::Short, Location::Reg, Location::Reg);
}

/// Moves a long from a register to a register.
pub fn move_reg_reg_long(cpu: &mut Cpu)
    requires
        semantics::mov(old(cpu)@, Width::Long, Location::Reg, Location::Reg) is Some,
    ensures
        Some(final(cpu)@) == semantics::mov(old(cpu)@, Width::Long, Location::Reg, Location::Reg),
{
    exec_mov(cpu, Width::Long, Location::Reg, Location::Reg);
}

/// Moves a byte from absolute memory to a register.
pub fn move_abs_reg_byte(cpu: &mut Cpu)
    requires
        semantics::mov(old(cpu)@, Width::Byte, Location::Reg, Location::Abs) is Some,
    ensures
        Some(final(cpu)@) == semantics::mov(old(cpu)@, Width::Byte, Location::Reg, Location::Abs),
{
    exec_mov(cpu, Width::Byte, Location::Reg, Location::Abs);
}

/// Moves a short from absolute memory to a register.
pub fn move_abs_reg_short(cpu: &mut Cpu)
    requires
        semantics::mov(old(cpu)@, Width::Short, Location::Reg, Location::Abs) is Some,
    ensures
        Some(final(cpu)@) == semantics::mov(old(cpu)@, Width::Short, Location::Reg, Location::Abs),
{
    exec_mov(cpu, Width::Short, Location::Reg, Location::Abs);
}

/// Moves a long from absolute memory to a register.
pub fn move_abs_reg_long(cpu: &mut Cpu)
    requires
        semantics::mov(old(cpu)@, Width::Long, Location::Reg, Location::Abs) is Some,
    ensures
        Some(final(cpu)@) == semantics::mov(old(cpu)@, Width::Long, Location::Reg, Location::Abs),
{
    exec_mov(cpu, Width::Long, Location::Reg, Location::Abs);
}

/// Moves a byte from memory relative to the next instruction to a register.
pub fn move_mem_reg_byte(cpu: &mut Cpu)
    requires
        semantics::mov(old(cpu)@, Width::Byte, Location::Reg, Location::Mem) is Some,
    ensures
        Some(final(cpu)@) == semantics::mov(old(cpu)@, Width::Byte, Location::Reg, Location::Mem),
{
    exec_mov(cpu, Width::Byte, Location::Reg, Location::Mem);
}

/// Moves a short from memory relative to the next instruction to a register.
pub fn move_mem_reg_short(cpu: &mut Cpu)
    requires
        semantics::mov(old(cpu)@, Width::Short, Location::Reg, Location::Mem) is Some,
    ensures
        Some(final(cpu)@) == semantics::mov(old(cpu)@, Width::Short, Location::Reg, Location::Mem),
{
    exec_mov(cpu, Width::Short, Location::Reg, Location::Mem);
}

/// Moves a long from memory relative to the next instruction to a register.
pub fn move_mem_reg_long(cpu: &mut Cpu)
    requires
        semantics::mov(old(cpu)@, Width::Long, Location::Reg, Location::Mem) is Some,
    ensures
        Some(final(cpu)@) == semantics::mov(old(cpu)@, Width::Long, Location::Reg, Location::Mem),
{
    exec_mov(cpu, Width::Long, Location::Reg, Location::Mem);
}

/// Moves a byte from memory addressed by a register to a register.
pub fn move_indirect_reg_byte(cpu: &mut Cpu)
    requires
        semantics::mov(old(cpu)@, Width::Byte, Location::Reg, Location::Ind) is Some,
    ensures
        Some(final(cpu)@) == semantics::mov(old(cpu)@, Width::Byte, Location::Reg, Location::Ind),
{
    exec_mov(cpu, Width::Byte, Location::Reg, Location::Ind);
}

/// Moves a short from memory addressed by a register to a register.
pub fn move_indirect_reg_short(cpu: &mut Cpu)
    requires
        semantics::mov(old(cpu)@, Width::Short, Location::Reg, Location::Ind) is Some,
    ensures
        Some(final(cpu)@) == semantics::mov(old(cpu)@, Width::Short, Location::Reg, Location::Ind),
{
    exec_mov(cpu, Width::Short, Location::Reg, Location::Ind);
}

/// Moves a long from memory addressed by a register to a register.
pub fn move_indirect_reg_long(cpu: &mut Cpu)
    requires
        semantics::mov(old(cpu)@, Width::Long, Location::Reg, Location::Ind) is Some,
    ensures
        Some(final(cpu)@) == semantics::mov(old(cpu)@, Width::Long, Location::Reg, Location::Ind),
{
    exec_mov(cpu, Width::Long, Location::Reg, Location::Ind);
}

/// Moves a byte from an immediate to absolute memory.
pub fn move_imm_abs_byte(cpu: &mut Cpu)
    requires
        semantics::mov(old(cpu)@, Width::Byte, Location::Abs, Location::Imm) is Some,
    ensures
        Some(final(cpu)@) == semantics::mov(old(cpu)@, Width::Byte, Location::Abs, Location::Imm),
{
    exec_mov(cpu, Width::Byte, Location::Abs, Location::Imm);
}

/// Moves a short from an immediate to absolute memory.
pub fn move_imm_abs_short(cpu: &mut Cpu)
    requires
        semantics::mov(old(cpu)@, Width::Short, Location::Abs, Location::Imm) is Some,
    ensures
        Some(final(cpu)@) == semantics::mov(old(cpu)@, Width::Short, Location::Abs, Location::Imm),
{
    exec_mov(cpu, Width::Short, Location::Abs, Location::Imm);
}

/// Moves a long from an immediate to absolute memory.
pub fn move_imm_abs_long(cpu: &mut Cpu)
    requires
        semantics::mov(old(cpu)@, Width::Long, Location::Abs, Location::Imm) is Some,
    ensures
        Some(final(cpu)@) == semantics::mov(old(cpu)@, Width::Long, Location::Abs, Location::Imm),
{
    exec_mov(cpu, Width::Long, Location::Abs, Location::Imm);
}

/// Moves a byte from a register to absolute memory.
pub fn move_reg_abs_byte(cpu: &mut Cpu)
    requires
        semantics::mov(old(cpu)@, Width::Byte, Location::Abs, Location::Reg) is Some,
    ensures
        Some(final(cpu)@) == semantics::mov(old(cpu)@, Width::Byte, Location::Abs, Location::Reg),
{
    exec_mov(cpu, Width::Byte, Location::Abs, Location::Reg);
}

/// Moves a short from a register to absolute memory.
pub fn move_reg_abs_short(cpu: &mut Cpu)
    requires
        semantics::mov(old(cpu)@, Width::Short, Location::Abs, Location::Reg) is Some,
    ensures
        Some(final(cpu)@) == semantics::mov(old(cpu)@, Width::Short, Location::Abs, Location::Reg),
{
    exec_mov(cpu, Width::Short, Location::Abs, Location::Reg);
}

/// Moves a long from a register to absolute memory.
pub fn move_reg_abs_long(cpu: &mut Cpu)
    requires
        semantics::mov(old(cpu)@, Width::Long, Location::Abs, Location::Reg) is Some,
    ensures
        Some(final(cpu)@) == semantics::mov(old(cpu)@, Width::Long, Location::Abs, Location::Reg),
{
    exec_mov(cpu, Width::Long, Location::Abs, Location::Reg);
}

/// Moves a byte from absolute memory to absolute memory.
pub fn move_abs_abs_byte(cpu: &mut Cpu)
    requires
        semantics::mov(old(cpu)@, Width::Byte, Location::Abs, Location::Abs) is Some,
    ensures
        Some(final(cpu)@) == semantics::mov(old(cpu)@, Width::Byte, Location::Abs, Location::Abs),
{
    exec_mov(cpu, Width::Byte, Location::Abs, Location::Abs);
}

/// Moves a short from absolute memory to absolute memory.
pub fn move_abs_abs_short(cpu: &mut Cpu)
    requires
        semantics::mov(old(cpu)@, Width::Short, Location::Abs, Location::Abs) is Some,
    ensures
        Some(final(cpu)@) == semantics::mov(old(cpu)@, Width::Short, Location::Abs, Location::Abs),
{
    exec_mov(cpu, Width::Short, Location::Abs, Location::Abs);
}

/// Moves a long from absolute memory to absolute memory.
pub fn move_abs_abs_long(cpu: &mut Cpu)
    requires
        semantics::mov(old(cpu)@, Width::Long, Location::Abs, Location::Abs) is Some,
    ensures
        Some(final(cpu)@) == semantics::mov(old(cpu)@, Width::Long, Location::Abs, Location::Abs),
{
    exec_mov(cpu, Width::Long, Location::Abs, Location::Abs);
}

/// Moves a byte from memory relative to the next instruction to absolute memory.
pub fn move_mem_abs_byte(cpu: &mut Cpu)
    requires
        semantics::mov(old(cpu)@, Width::Byte, Location::Abs, Location::Mem) is Some,
    ensures
        Some(final(cpu)@) == semantics::mov(old(cpu)@, Width::Byte, Location::Abs, Location::Mem),
{
    exec_mov(cpu, Width::Byte, Location::Abs, Location::Mem);
}

/// Moves a short from memory relative to the next instruction to absolute memory.
pub fn move_mem_abs_short(cpu: &mut Cpu)
    requires
        semantics::mov(old(cpu)@, Width::Short, Location::Abs, Location::Mem) is Some,
    ensures
        Some(final(cpu)@) == semantics::mov(old(cpu)@, Width::Short, Location::Abs, Location::Mem),
{
    exec_mov(cpu, Width::Short, Location::Abs, Location::Mem);
}

/// Moves a long from memory relative to the next instruction to absolute memory.
pub fn move_mem_abs_long(cpu: &mut Cpu)
    requires
        semantics::mov(old(cpu)@, Width::Long, Location::Abs, Location::Mem) is Some,
    ensures
        Some(final(cpu)@) == semantics::mov(old(cpu)@, Width::Long, Location::Abs, Location::Mem),
{
    exec_mov(cpu, Width::Long, Location::Abs, Location::Mem);
}

/// Moves a byte from memory addressed by a register to absolute memory.
pub fn move_indirect_abs_byte(cpu: &mut Cpu)
    requires
        semantics::mov(old(cpu)@, Width::Byte, Location::Abs, Location::Ind) is Some,
    ensures
        Some(final(cpu)@) == semantics::mov(old(cpu)@, Width::Byte, Location::Abs, Location::Ind),
{
    exec_mov(cpu, Width::Byte, Location::Abs, Location::Ind);
}

/// Moves a short from memory addressed by a register to absolute memory.
pub fn move_indirect_abs_short(cpu: &mut Cpu)
    requires
        semantics::mov(old(cpu)@, Width::Short, Location::Abs, Location::Ind) is Some,
    ensures
        Some(final(cpu)@) == semantics::mov(old(cpu)@, Width::Short, Location::Abs, Location::Ind),
{
    exec_mov(cpu, Width::Short, Location::Abs, Location::Ind);
}

/// Moves a long from memory addressed by a register to absolute memory.
pub fn move_indirect_abs_long(cpu: &mut Cpu)
    requires
        semantics::mov(old(cpu)@, Width::Long, Location::Abs, Location::Ind) is Some,
    ensures
        Some(final(cpu)@) == semantics::mov(old(cpu)@, Width::Long, Location::Abs, Location::Ind),
{
    exec_mov(cpu, Width::Long, Location::Abs, Location::Ind);
}

/// Moves a byte from an immediate to memory relative to the next instruction.
pub fn move_imm_mem_byte(cpu: &mut Cpu)
    requires
        semantics::mov(old(cpu)@, Width::Byte, Location::Mem, Location::Imm) is Some,
    ensures
        Some(final(cpu)@) == semantics::mov(old(cpu)@, Width::Byte, Location::Mem, Location::Imm),
{
    exec_mov(cpu, Width::Byte, Location::Mem, Location::Imm);
}

/// Moves a short from an immediate to memory relative to the next instruction.
pub fn move_imm_mem_short(cpu: &mut Cpu)
    requires
        semantics::mov(old(cpu)@, Width::Short, Location::Mem, Location::Imm) is Some,
    ensures
        Some(final(cpu)@) == semantics::mov(old(cpu)@, Width::Short, Location::Mem, Location::Imm),
{
    exec_mov(cpu, Width::Short, Location::Mem, Location::Imm);
}

/// Moves a long from an immediate to memory relative to the next instruction.
pub fn move_imm_mem_long(cpu: &mut Cpu)
    requires
        semantics::mov(old(cpu)@, Width::Long, Location::Mem, Location::Imm) is Some,
    ensures
        Some(final(cpu)@) == semantics::mov(old(cpu)@, Width::Long, Location::Mem, Location::Imm),
{
    exec_mov(cpu, Width::Long, Location::Mem, Location::Imm);
}

/// Moves a byte from a register to memory relative to the next instruction.
pub fn move_reg_mem_byte(cpu: &mut Cpu)
    requires
        semantics::mov(old(cpu)@, Width::Byte, Location::Mem, Location::Reg) is Some,
    ensures
        Some(final(cpu)@) == semantics::mov(old(cpu)@, Width::Byte, Location::Mem, Location::Reg),
{
    exec_mov(cpu, Width::Byte, Location::Mem, Location::Reg);
}

/// Moves a short from a register to memory relative to the next instruction.
pub fn move_reg_mem_short(cpu: &mut Cpu)
    requires
        semantics::mov(old(cpu)@, Width::Short, Location::Mem, Location::Reg) is Some,
    ensures
        Some(final(cpu)@) == semantics::mov(old(cpu)@, Width::Short, Location::Mem, Location::Reg),
{
    exec_mov(cpu, Width::Short, Location::Mem, Location::Reg);
}

/// Moves a long from a register to memory relative to the next instruction.
pub fn move_reg_mem_long(cpu: &mut Cpu)
    requires
        semantics::mov(old(cpu)@, Width::Long, Location::Mem, Location::Reg) is Some,
    ensures
        Some(final(cpu)@) == semantics::mov(old(cpu)@, Width::Long, Location::Mem, Location::Reg),
{
    exec_mov(cpu, Width::Long, Location::Mem, Location::Reg);
}

/// Moves a byte from absolute memory to memory relative to the next instruction.
pub fn move_abs_mem_byte(cpu: &mut Cpu)
    requires
        semantics::mov(old(cpu)@, Width::Byte, Location::Mem, Location::Abs) is Some,
    ensures
        Some(final(cpu)@) == semantics::mov(old(cpu)@, Width::Byte, Location::Mem, Location::Abs),
{
    exec_mov(cpu, Width::Byte, Location::Mem, Location::Abs);
}

/// Moves a short from absolute memory to memory relative to the next instruction.
pub fn move_abs_mem_short(cpu: &mut Cpu)
    requires
        semantics::mov(old(cpu)@, Width::Short, Location::Mem, Location::Abs) is Some,
    ensures
        Some(final(cpu)@) == semantics::mov(old(cpu)@, Width::Short, Location::Mem, Location::Abs),
{
    exec_mov(cpu, Width::Short, Location::Mem, Location::Abs);
}

/// Moves a long from absolute memory to memory relative to the next instruction.
pub fn move_abs_mem_long(cpu: &mut Cpu)
    requires
        semantics::mov(old(cpu)@, Width::Long, Location::Mem, Location::Abs) is Some,
    ensures
        Some(final(cpu)@) == semantics::mov(old(cpu)@, Width::Long, Location::Mem, Location::Abs),
{
    exec_mov(cpu, Width::Long, Location::Mem, Location::Abs);
}

/// Moves a byte from memory relative to the next instruction to memory relative to the next instruction.
pub fn move_mem_mem_byte(cpu: &mut Cpu)
    requires
        semantics::mov(old(cpu)@, Width::Byte, Location::Mem, Location::Mem) is Some,
    ensures
        Some(final(cpu)@) == semantics::mov(old(cpu)@, Width::Byte, Location::Mem, Location::Mem),
{
    exec_mov(cpu, Width::Byte, Location::Mem, Location::Mem);
}

/// Moves a short from memory relative to the next instruction to memory relative to the next instruction.
pub fn move_mem_mem_short(cpu: &mut Cpu)
    requires
        semantics::mov(old(cpu)@, Width::Short, Location::Mem, Location::Mem) is Some,
    ensures
        Some(final(cpu)@) == semantics::mov(old(cpu)@, Width::Short, Location::Mem, Location::Mem),
{
    exec_mov(cpu, Width::Short, Location::Mem, Location::Mem);
}

/// Moves a long from memory relative to the next instruction to memory relative to the next instruction.
pub fn move_mem_mem_long(cpu: &mut Cpu)
    requires
        semantics::mov(old(cpu)@, Width::Long, Location::Mem, Location::Mem) is Some,
    ensures
        Some(final(cpu)@) == semantics::mov(old(cpu)@, Width::Long, Location::Mem, Location::Mem),
{
    exec_mov(cpu, Width::Long, Location::Mem, Location::Mem);
}

/// Moves a byte from memory addressed by a register to memory relative to the next instruction.
pub fn move_indirect_mem_byte(cpu: &mut Cpu)
    requires
        semantics::mov(old(cpu)@, Width::Byte, Location::Mem, Location::Ind) is Some,
    ensures
        Some(final(cpu)@) == semantics::mov(old(cpu)@, Width::Byte, Location::Mem, Location::Ind),
{
    exec_mov(cpu, Width::Byte, Location::Mem, Location::Ind);
}

/// Moves a short from memory addressed by a register to memory relative to the next instruction.
pub fn move_indirect_mem_short(cpu: &mut Cpu)
    requires
        semantics::mov(old(cpu)@, Width::Short, Location::Mem, Location::Ind) is Some,
    ensures
        Some(final(cpu)@) == semantics::mov(old(cpu)@, Width::Short, Location::Mem, Location::Ind),
{
    exec_mov(cpu, Width::Short, Location::Mem, Location::Ind);
}

/// Moves a long from memory addressed by a register to memory relative to the next instruction.
pub fn move_indirect_mem_long(cpu: &mut Cpu)
    requires
        semantics::mov(old(cpu)@, Width::Long, Location::Mem, Location::Ind) is Some,
    ensures
        Some(final(cpu)@) == semantics::mov(old(cpu)@, Width::Long, Location::Mem, Location::Ind),
{
    exec_mov(cpu, Width::Long, Location::Mem, Location::Ind);
}

/// Moves a byte from an immediate to memory addressed by a register.
pub fn move_imm_indirect_byte(cpu: &mut Cpu)
    requires
        semantics::mov(old(cpu)@, Width::Byte, Location::Ind, Location::Imm) is Some,
    ensures
        Some(final(cpu)@) == semantics::mov(old(cpu)@, Width::Byte, Location::Ind, Location::Imm),
{
    exec_mov(cpu, Width::Byte, Location::Ind, Location::Imm);
}

/// Moves a short from an immediate to memory addressed by a register.
pub fn move_imm_indirect_short(cpu: &mut Cpu)
    requires
        semantics::mov(old(cpu)@, Width::Short, Location::Ind, Location::Imm) is Some,
    ensures
        Some(final(cpu)@) == semantics::mov(old(cpu)@, Width::Short, Location::Ind, Location::Imm),
{
    exec_mov(cpu, Width::Short, Location::Ind, Location::Imm);
}

/// Moves a long from an immediate to memory addressed by a register.
pub fn move_imm_indirect_long(cpu: &mut Cpu)
    requires
        semantics::mov(old(cpu)@, Width::Long, Location::Ind, Location::Imm) is Some,
    ensures
        Some(final(cpu)@) == semantics::mov(old(cpu)@, Width::Long, Location::Ind, Location::Imm),
{
    exec_mov(cpu, Width::Long, Location::Ind, Location::Imm);
}

/// Moves a byte from a register to memory addressed by a register.
pub fn move_reg_indirect_byte(cpu: &mut Cpu)
    requires
        semantics::mov(old(cpu)@, Width::Byte, Location::Ind, Location::Reg) is Some,
    ensures
        Some(final(cpu)@) == semantics::mov(old(cpu)@, Width::Byte, Location::Ind, Location::Reg),
{
    exec_mov(cpu, Width::Byte, Location::Ind, Location::Reg);
}

/// Moves a short from a register to memory addressed by a register.
pub fn move_reg_indirect_short(cpu: &mut Cpu)
    requires
        semantics::mov(old(cpu)@, Width::Short, Location::Ind, Location::Reg) is Some,
    ensures
        Some(final(cpu)@) == semantics::mov(old(cpu)@, Width::Short, Location::Ind, Location::Reg),
{
    exec_mov(cpu, Width::Short, Location::Ind, Location::Reg);
}

/// Moves a long from a register to memory addressed by a register.
pub fn move_reg_indirect_long(cpu: &mut Cpu)
    requires
        semantics::mov(old(cpu)@, Width::Long, Location::Ind, Location::Reg) is Some,
    ensures
        Some(final(cpu)@) == semantics::mov(old(cpu)@, Width::Long, Location::Ind, Location::Reg),
{
    exec_mov(cpu, Width::Long, Location::Ind, Location::Reg);
}

/// Moves a byte from absolute memory to memory addressed by a register.
pub fn move_abs_indirect_byte(cpu: &mut Cpu)
    requires
        semantics::mov(old(cpu)@, Width::Byte, Location::Ind, Location::Abs) is Some,
    ensures
        Some(final(cpu)@) == semantics::mov(old(cpu)@, Width::Byte, Location::Ind, Location::Abs),
{
    exec_mov(cpu, Width::Byte, Location::Ind, Location::Abs);
}

/// Moves a short from absolute memory to memory addressed by a register.
pub fn move_abs_indirect_short(cpu: &mut Cpu)
    requires
        semantics::mov(old(cpu)@, Width::Short, Location::Ind, Location::Abs) is Some,
    ensures
        Some(final(cpu)@) == semantics::mov(old(cpu)@, Width::Short, Location::Ind, Location::Abs),
{
    exec_mov(cpu, Width::Short, Location::Ind, Location::Abs);
}

/// Moves a long from absolute memory to memory addressed by a register.
pub fn move_abs_indirect_long(cpu: &mut Cpu)
    requires
        semantics::mov(old(cpu)@, Width::Long, Location::Ind, Location::Abs) is Some,
    ensures
        Some(final(cpu)@) == semantics::mov(old(cpu)@, Width::Long, Location::Ind, Location::Abs),
{
    exec_mov(cpu, Width::Long, Location::Ind, Location::Abs);
}

/// Moves a byte from memory relative to the next instruction to memory addressed by a register.
pub fn move_mem_indirect_byte(cpu: &mut Cpu)
    requires
        semantics::mov(old(cpu)@, Width::Byte, Location::Ind, Location::Mem) is Some,
    ensures
        Some(final(cpu)@) == semantics::mov(old(cpu)@, Width::Byte, Location::Ind, Location::Mem),
{
    exec_mov(cpu, Width::Byte, Location::Ind, Location::Mem);
}

/// Moves a short from memory relative to the next instruction to memory addressed by a register.
pub fn move_mem_indirect_short(cpu: &mut Cpu)
    requires
        semantics::mov(old(cpu)@, Width::Short, Location::Ind, Location::Mem) is Some,
    ensures
        Some(final(cpu)@) == semantics::mov(old(cpu)@, Width::Short, Location::Ind, Location::Mem),
{
    exec_mov(cpu, Width::Short, Location::Ind, Location::Mem);
}

/// Moves a long from memory relative to the next instruction to memory addressed by a register.
pub fn move_mem_indirect_long(cpu: &mut Cpu)
    requires
        semantics::mov(old(cpu)@, Width::Long, Location::Ind, Location::Mem) is Some,
    ensures
        Some(final(cpu)@) == semantics::mov(old(cpu)@, Width::Long, Location::Ind, Location::Mem),
{
    exec_mov(cpu, Width::Long, Location::Ind, Location::Mem);
}

/// Moves a byte from memory addressed by a register to memory addressed by a register.
pub fn move_indirect_indirect_byte(cpu: &mut Cpu)
    requires
        semantics::mov(old(cpu)@, Width::Byte, Location::Ind, Location::Ind) is Some,
    ensures
        Some(final(cpu)@) == semantics::mov(old(cpu)@, Width::Byte, Location::Ind, Location::Ind),
{
    exec_mov(cpu, Width::Byte, Location::Ind, Location::Ind);
}

/// Moves a short from memory addressed by a register to memory addressed by a register.
pub fn move_indirect_indirect_short(cpu: &mut Cpu)
    requires
        semantics::mov(old(cpu)@, Width::Short, Location::Ind, Location::Ind) is Some,
    ensures
        Some(final(cpu)@) == semantics::mov(old(cpu)@, Width::Short, Location::Ind, Location::Ind),
{
    exec_mov(cpu, Width::Short, Location::Ind, Location::Ind);
}

/// Moves a long from memory addressed by a register to memory addressed by a register.
pub fn move_indirect_indirect_long(cpu: &mut Cpu)
    requires
        semantics::mov(old(cpu)@, Width::Long, Location::Ind, Location::Ind) is Some,
    ensures
        Some(final(cpu)@) == semantics::mov(old(cpu)@, Width::Long, Location::Ind, Location::Ind),
{
    exec_mov(cpu, Width::Long, Location::Ind, Location::Ind);
}

/// Adds an immediate to the low byte of register 0, setting the carry flag.
pub fn add_byte_imm(cpu: &mut Cpu)
    requires
        semantics::addition(old(cpu)@, Width::Byte, Source::Imm(Width::Byte), false) is Some,
    ensures
        Some(final(cpu)@) == semantics::addition(old(cpu)@, Width::Byte, Source::Imm(Width::Byte), false),
{
    exec_add(cpu, Width::Byte, Source::Imm(Width::Byte), false);
}

/// Adds an immediate to the low short of register 0, setting the carry flag.
pub fn add_short_imm(cpu: &mut Cpu)
    requires
        semantics::addition(old(cpu)@, Width::Short, Source::Imm(Width::Short), false) is Some,
    ensures
        Some(final(cpu)@) == semantics::addition(old(cpu)@, Width::Short, Source::Imm(Width::Short), false),
{
    exec_add(cpu, Width::Short, Source::Imm(Width::Short), false);
}

/// Adds an immediate to register 0, setting the carry flag.
pub fn add_long_imm(cpu: &mut Cpu)
    requires
        semantics::addition(old(cpu)@, Width::Long, Source::Imm(Width::Long), false) is Some,
    ensures
        Some(final(cpu)@) == semantics::addition(old(cpu)@, Width::Long, Source::Imm(Width::Long), false),
{
    exec_add(cpu, Width::Long, Source::Imm(Width::Long), false);
}

/// Adds a register to the low byte of register 0, setting the carry flag.
pub fn add_byte_reg(cpu: &mut Cpu)
    requires
        semantics::addition(old(cpu)@, Width::Byte, Source::Reg(Width::Byte), false) is Some,
    ensures
        Some(final(cpu)@) == semantics::addition(old(cpu)@, Width::Byte, Source::Reg(Width::Byte), false),
{
    exec_add(cpu, Width::Byte, Source::Reg(Width::Byte), false);
}

/// Adds a register to the low short of register 0, setting the carry flag.
pub fn add_short_reg(cpu: &mut Cpu)
    requires
        semantics::addition(old(cpu)@, Width::Short, Source::Reg(Width::Byte), false) is Some,
    ensures
        Some(final(cpu)@) == semantics::addition(old(cpu)@, Width::Short, Source::Reg(Width::Byte), false),
{
    exec_add(cpu, Width::Short, Source::Reg(Width::Byte), false);
}

/// Adds a register to register 0, setting the carry flag.
pub fn add_long_reg(cpu: &mut Cpu)
    requires
        semantics::addition(old(cpu)@, Width::Long, Source::Reg(Width::Byte), false) is Some,
    ensures
        Some(final(cpu)@) == semantics::addition(old(cpu)@, Width::Long, Source::Reg(Width::Byte), false),
{
    exec_add(cpu, Width::Long, Source::Reg(Width::Byte), false);
}

/// Adds an immediate and the carry flag to the low byte of register 0.
pub fn add_carry_byte_imm(cpu: &mut Cpu)
    requires
        semantics::addition(old(cpu)@, Width::Byte, Source::Imm(Width::Byte), true) is Some,
    ensures
        Some(final(cpu)@) == semantics::addition(old(cpu)@, Width::Byte, Source::Imm(Width::Byte), true),
{
    exec_add(cpu, Width::Byte, Source::Imm(Width::Byte), true);
}

/// Adds an immediate and the carry flag to the low short of register 0.
pub fn add_carry_short_imm(cpu: &mut Cpu)
    requires
        semantics::addition(old(cpu)@, Width::Short, Source::Imm(Width::Short), true) is Some,
    ensures
        Some(final(cpu)@) == semantics::addition(old(cpu)@, Width::Short, Source::Imm(Width::Short), true),
{
    exec_add(cpu, Width::Short, Source::Imm(Width::Short), true);
}

/// Adds an immediate and the carry flag to register 0.
pub fn add_carry_long_imm(cpu: &mut Cpu)
    requires
        semantics::addition(old(cpu)@, Width::Long, Source::Imm(Width::Long), true) is Some,
    ensures
        Some(final(cpu)@) == semantics::addition(old(cpu)@, Width::Long, Source::Imm(Width::Long), true),
{
    exec_add(cpu, Width::Long, Source::Imm(Width::Long), true);
}

/// Adds a register and the carry flag to the low byte of register 0.
pub fn add_carry_byte_reg(cpu: &mut Cpu)
    requires
        semantics::addition(old(cpu)@, Width::Byte, Source::Reg(Width::Byte), true) is Some,
    ensures
        Some(final(cpu)@) == semantics::addition(old(cpu)@, Width::Byte, Source::Reg(Width::Byte), true),
{
    exec_add(cpu, Width::Byte, Source::Reg(Width::Byte), true);
}

/// Adds a register and the carry flag to the low short of register 0.
pub fn add_carry_short_reg(cpu: &mut Cpu)
    requires
        semantics::addition(old(cpu)@, Width::Short, Source::Reg(Width::Byte), true) is Some,
    ensures
        Some(final(cpu)@) == semantics::addition(old(cpu)@, Width::Short, Source::Reg(Width::Byte), true),
{
    exec_add(cpu, Width::Short, Source::Reg(Width::Byte), true);
}

/// Adds a register and the carry flag to register 0.
pub fn add_carry_long_reg(cpu: &mut Cpu)
    requires
        semantics::addition(old(cpu)@, Width::Long, Source::Reg(Width::Byte), true) is Some,
    ensures
        Some(final(cpu)@) == semantics::addition(old(cpu)@, Width::Long, Source::Reg(Width::Byte), true),
{
    exec_add(cpu, Width::Long, Source::Reg(Width::Byte), true);
}

/// Subtracts an immediate from the low byte of register 0, setting the carry flag on borrow.
pub fn sub_byte_imm(cpu: &mut Cpu)
    requires
        semantics::subtraction(old(cpu)@, Width::Byte, Source::Imm(Width::Byte), false) is Some,
    ensures
        Some(final(cpu)@) == semantics::subtraction(old(cpu)@, Width::Byte, Source::Imm(Width::Byte), false),
{
    exec_sub(cpu, Width::Byte, Source::Imm(Width::Byte), false);
}

/// Subtracts an immediate from the low short of register 0, setting the carry flag on borrow.
pub fn sub_short_imm(cpu: &mut Cpu)
    requires
        semantics::subtraction(old(cpu)@, Width::Short, Source::Imm(Width::Short), false) is Some,
    ensures
        Some(final(cpu)@) == semantics::subtraction(old(cpu)@, Width::Short, Source::Imm(Width::Short), false),
{
    exec_sub(cpu, Width::Short, Source::Imm(Width::Short), false);
}

/// Subtracts an immediate from register 0, setting the carry flag on borrow.
pub fn sub_long_imm(cpu: &mut Cpu)
    requires
        semantics::subtraction(old(cpu)@, Width::Long, Source::Imm(Width::Long), false) is Some,
    ensures
        Some(final(cpu)@) == semantics::subtraction(old(cpu)@, Width::Long, Source::Imm(Width::Long), false),
{
    exec_sub(cpu, Width::Long, Source::Imm(Width::Long), false);
}

/// Subtracts a register from the low byte of register 0, setting the carry flag on borrow.
pub fn sub_byte_reg(cpu: &mut Cpu)
    requires
        semantics::subtraction(old(cpu)@, Width::Byte, Source::Reg(Width::Byte), false) is Some,
    ensures
        Some(final(cpu)@) == semantics::subtraction(old(cpu)@, Width::Byte, Source::Reg(Width::Byte), false),
{
    exec_sub(cpu, Width::Byte, Source::Reg(Width::Byte), false);
}

/// Subtracts a register from the low short of register 0, setting the carry flag on borrow.
pub fn sub_short_reg(cpu: &mut Cpu)
    requires
        semantics::subtraction(old(cpu)@, Width::Short, Source::Reg(Width::Byte), false) is Some,
    ensures
        Some(final(cpu)@) == semantics::subtraction(old(cpu)@, Width::Short, Source::Reg(Width::Byte), false),
{
    exec_sub(cpu, Width::Short, Source::Reg(Width::Byte), false);
}

/// Subtracts a register from register 0, setting the carry flag on borrow.
pub fn sub_long_reg(cpu: &mut Cpu)
    requires
        semantics::subtraction(old(cpu)@, Width::Long, Source::Reg(Width::Byte), false) is Some,
    ensures
        Some(final(cpu)@) == semantics::subtraction(old(cpu)@, Width::Long, Source::Reg(Width::Byte), false),
{
    exec_sub(cpu, Width::Long, Source::Reg(Width::Byte), false);
}

/// Subtracts an immediate and the carry flag from the low byte of register 0.
pub fn sub_borrow_byte_imm(cpu: &mut Cpu)
    requires
        semantics::subtraction(old(cpu)@, Width::Byte, Source::Imm(Width::Byte), true) is Some,
    ensures
        Some(final(cpu)@) == semantics::subtraction(old(cpu)@, Width::Byte, Source::Imm(Width::Byte), true),
{
    exec_sub(cpu, Width::Byte, Source::Imm(Width::Byte), true);
}

/// Subtracts an immediate and the carry flag from the low short of register 0.
pub fn sub_borrow_short_imm(cpu: &mut Cpu)
    requires
        semantics::subtraction(old(cpu)@, Width::Short, Source::Imm(Width::Short), true) is Some,
    ensures
        Some(final(cpu)@) == semantics::subtraction(old(cpu)@, Width::Short, Source::Imm(Width::Short), true),
{
    exec_sub(cpu, Width::Short, Source::Imm(Width::Short), true);
}

/// Subtracts an immediate and the carry flag from register 0.
pub fn sub_borrow_long_imm(cpu: &mut Cpu)
    requires
        semantics::subtraction(old(cpu)@, Width::Long, Source::Imm(Width::Long), true) is Some,
    ensures
        Some(final(cpu)@) == semantics::subtraction(old(cpu)@, Width::Long, Source::Imm(Width::Long), true),
{
    exec_sub(cpu, Width::Long, Source::Imm(Width::Long), true);
}

/// Subtracts a register and the carry flag from the low byte of register 0.
pub fn sub_borrow_byte_reg(cpu: &mut Cpu)
    requires
        semantics::subtraction(old(cpu)@, Width::Byte, Source::Reg(Width::Byte), true) is Some,
    ensures
        Some(final(cpu)@) == semantics::subtraction(old(cpu)@, Width::Byte, Source::Reg(Width::Byte), true),
{
    exec_sub(cpu, Width::Byte, Source::Reg(Width::Byte), true);
}

/// Subtracts a register and the carry flag from the low short of register 0.
pub fn sub_borrow_short_reg(cpu: &mut Cpu)
    requires
        semantics::subtraction(old(cpu)@, Width::Short, Source::Reg(Width::Byte), true) is Some,
    ensures
        Some(final(cpu)@) == semantics::subtraction(old(cpu)@, Width::Short, Source::Reg(Width::Byte), true),
{
    exec_sub(cpu, Width::Short, Source::Reg(Width::Byte), true);
}

/// Subtracts a register and the carry flag from register 0.
pub fn sub_borrow_long_reg(cpu: &mut Cpu)
    requires
        semantics::subtraction(old(cpu)@, Width::Long, Source::Reg(Width::Byte), true) is Some,
    ensures
        Some(final(cpu)@) == semantics::subtraction(old(cpu)@, Width::Long, Source::Reg(Width::Byte), true),
{
    exec_sub(cpu, Width::Long, Source::Reg(Width::Byte), true);
}

/// Multiplies the low byte of register 0 by an immediate.
pub fn mul_byte_imm(cpu: &mut Cpu)
    requires
        semantics::multiplication(old(cpu)@, Width::Byte, Source::Imm(Width::Byte)) is Some,
    ensures
        Some(final(cpu)@) == semantics::multiplication(old(cpu)@, Width::Byte, Source::Imm(Width::Byte)),
{
    exec_mul(cpu, Width::Byte, Source::Imm(Width::Byte));
}

/// Multiplies the low short of register 0 by an immediate.
pub fn mul_short_imm(cpu: &mut Cpu)
    requires
        semantics::multiplication(old(cpu)@, Width::Short, Source::Imm(Width::Short)) is Some,
    ensures
        Some(final(cpu)@) == semantics::multiplication(old(cpu)@, Width::Short, Source::Imm(Width::Short)),
{
    exec_mul(cpu, Width::Short, Source::Imm(Width::Short));
}

/// Multiplies register 0 by an immediate.
pub fn mul_long_imm(cpu: &mut Cpu)
    requires
        semantics::multiplication(old(cpu)@, Width::Long, Source::Imm(Width::Long)) is Some,
    ensures
        Some(final(cpu)@) == semantics::multiplication(old(cpu)@, Width::Long, Source::Imm(Width::Long)),
{
    exec_mul(cpu, Width::Long, Source::Imm(Width::Long));
}

/// Multiplies the low byte of register 0 by a register.
pub fn mul_byte_reg(cpu: &mut Cpu)
    requires
        semantics::multiplication(old(cpu)@, Width::Byte, Source::Reg(Width::Byte)) is Some,
    ensures
        Some(final(cpu)@) == semantics::multiplication(old(cpu)@, Width::Byte, Source::Reg(Width::Byte)),
{
    exec_mul(cpu, Width::Byte, Source::Reg(Width::Byte));
}

/// Multiplies the low short of register 0 by a register.
pub fn mul_short_reg(cpu: &mut Cpu)
    requires
        semantics::multiplication(old(cpu)@, Width::Short, Source::Reg(Width::Byte)) is Some,
    ensures
        Some(final(cpu)@) == semantics::multiplication(old(cpu)@, Width::Short, Source::Reg(Width::Byte)),
{
    exec_mul(cpu, Width::Short, Source::Reg(Width::Byte));
}

/// Multiplies register 0 by a register.
pub fn mul_long_reg(cpu: &mut Cpu)
    requires
        semantics::multiplication(old(cpu)@, Width::Long, Source::Reg(Width::Byte)) is Some,
    ensures
        Some(final(cpu)@) == semantics::multiplication(old(cpu)@, Width::Long, Source::Reg(Width::Byte)),
{
    exec_mul(cpu, Width::Long, Source::Reg(Width::Byte));
}

/// Divides the low byte of register 0 by an immediate: quotient to register 0, remainder to register 1.
pub fn div_byte_imm(cpu: &mut Cpu)
    requires
        semantics::div(old(cpu)@, Width::Byte, Source::Imm(Width::Byte)) is Some,
    ensures
        Some(final(cpu)@) == semantics::div(old(cpu)@, Width::Byte, Source::Imm(Width::Byte)),
{
    exec_div(cpu, Width::Byte, Source::Imm(Width::Byte));
}

/// Divides the low short of register 0 by an immediate: quotient to register 0, remainder to register 1.
pub fn div_short_imm(cpu: &mut Cpu)
    requires
        semantics::div(old(cpu)@, Width::Short, Source::Imm(Width::Short)) is Some,
    ensures
        Some(final(cpu)@) == semantics::div(old(cpu)@, Width::Short, Source::Imm(Width::Short)),
{
    exec_div(cpu, Width::Short, Source::Imm(Width::Short));
}

/// Divides register 0 by an immediate: quotient to register 0, remainder to register 1.
pub fn div_long_imm(cpu: &mut Cpu)
    requires
        semantics::div(old(cpu)@, Width::Long, Source::Imm(Width::Long)) is Some,
    ensures
        Some(final(cpu)@) == semantics::div(old(cpu)@, Width::Long, Source::Imm(Width::Long)),
{
    exec_div(cpu, Width::Long, Source::Imm(Width::Long));
}

/// Divides the low byte of register 0 by a register: quotient to register 0, remainder to register 1.
pub fn div_byte_reg(cpu: &mut Cpu)
    requires
        semantics::div(old(cpu)@, Width::Byte, Source::Reg(Width::Byte)) is Some,
    ensures
        Some(final(cpu)@) == semantics::div(old(cpu)@, Width::Byte, Source::Reg(Width::Byte)),
{
    exec_div(cpu, Width::Byte, Source::Reg(Width::Byte));
}

/// Divides the low short of register 0 by a register: quotient to register 0, remainder to register 1.
pub fn div_short_reg(cpu: &mut Cpu)
    requires
        semantics::div(old(cpu)@, Width::Short, Source::Reg(Width::Byte)) is Some,
    ensures
        Some(final(cpu)@) == semantics::div(old(cpu)@, Width::Short, Source::Reg(Width::Byte)),
{
    exec_div(cpu, Width::Short, Source::Reg(Width::Byte));
}

/// Divides register 0 by a register: quotient to register 0, remainder to register 1.
pub fn div_long_reg(cpu: &mut Cpu)
    requires
        semantics::div(old(cpu)@, Width::Long, Source::Reg(Width::Byte)) is Some,
    ensures
        Some(final(cpu)@) == semantics::div(old(cpu)@, Width::Long, Source::Reg(Width::Byte)),
{
    exec_div(cpu, Width::Long, Source::Reg(Width::Byte));
}

/// Multiplies the low byte of register 0 by an immediate, both signed.
pub fn signed_mul_byte_imm(cpu: &mut Cpu)
    requires
        semantics::signed_mul(old(cpu)@, Width::Byte, Source::Imm(Width::Byte)) is Some,
    ensures
        Some(final(cpu)@) == semantics::signed_mul(old(cpu)@, Width::Byte, Source::Imm(Width::Byte)),
{
    exec_signed_mul(cpu, Width::Byte, Source::Imm(Width::Byte));
}

/// Multiplies the low short of register 0 by an immediate, both signed.
pub fn signed_mul_short_imm(cpu: &mut Cpu)
    requires
        semantics::signed_mul(old(cpu)@, Width::Short, Source::Imm(Width::Short)) is Some,
    ensures
        Some(final(cpu)@) == semantics::signed_mul(old(cpu)@, Width::Short, Source::Imm(Width::Short)),
{
    exec_signed_mul(cpu, Width::Short, Source::Imm(Width::Short));
}

/// Multiplies register 0 by an immediate, both signed.
pub fn signed_mul_long_imm(cpu: &mut Cpu)
    requires
        semantics::signed_mul(old(cpu)@, Width::Long, Source::Imm(Width::Long)) is Some,
    ensures
        Some(final(cpu)@) == semantics::signed_mul(old(cpu)@, Width::Long, Source::Imm(Width::Long)),
{
    exec_signed_mul(cpu, Width::Long, Source::Imm(Width::Long));
}

/// Multiplies the low byte of register 0 by a register, both signed.
pub fn signed_mul_byte_reg(cpu: &mut Cpu)
    requires
        semantics::signed_mul(old(cpu)@, Width::Byte, Source::Reg(Width::Byte)) is Some,
    ensures
        Some(final(cpu)@) == semantics::signed_mul(old(cpu)@, Width::Byte, Source::Reg(Width::Byte)),
{
    exec_signed_mul(cpu, Width::Byte, Source::Reg(Width::Byte));
}

/// Multiplies the low short of register 0 by a register, both signed.
pub fn signed_mul_short_reg(cpu: &mut Cpu)
    requires
        semantics::signed_mul(old(cpu)@, Width::Short, Source::Reg(Width::Byte)) is Some,
    ensures
        Some(final(cpu)@) == semantics::signed_mul(old(cpu)@, Width::Short, Source::Reg(Width::Byte)),
{
    exec_signed_mul(cpu, Width::Short, Source::Reg(Width::Byte));
}

/// Multiplies register 0 by a register, both signed.
pub fn signed_mul_long_reg(cpu: &mut Cpu)
    requires
        semantics::signed_mul(old(cpu)@, Width::Long, Source::Reg(Width::Byte)) is Some,
    ensures
        Some(final(cpu)@) == semantics::signed_mul(old(cpu)@, Width::Long, Source::Reg(Width::Byte)),
{
    exec_signed_mul(cpu, Width::Long, Source::Reg(Width::Byte));
}

/// Divides the low byte of register 0 by an immediate, both signed.
pub fn signed_div_byte_imm(cpu: &mut Cpu)
    requires
        semantics::signed_div(old(cpu)@, Width::Byte, Source::Imm(Width::Byte)) is Some,
    ensures
        Some(final(cpu)@) == semantics::signed_div(old(cpu)@, Width::Byte, Source::Imm(Width::Byte)),
{
    exec_signed_div(cpu, Width::Byte, Source::Imm(Width::Byte));
}

/// Divides the low short of register 0 by an immediate, both signed.
pub fn signed_div_short_imm(cpu: &mut Cpu)
    requires
        semantics::signed_div(old(cpu)@, Width::Short, Source::Imm(Width::Short)) is Some,
    ensures
        Some(final(cpu)@) == semantics::signed_div(old(cpu)@, Width::Short, Source::Imm(Width::Short)),
{
    exec_signed_div(cpu, Width::Short, Source::Imm(Width::Short));
}

/// Divides register 0 by an immediate, both signed.
pub fn signed_div_long_imm(cpu: &mut Cpu)
    requires
        semantics::signed_div(old(cpu)@, Width::Long, Source::Imm(Width::Long)) is Some,
    ensures
        Some(final(cpu)@) == semantics::signed_div(old(cpu)@, Width::Long, Source::Imm(Width::Long)),
{
    exec_signed_div(cpu, Width::Long, Source::Imm(Width::Long));
}

/// Divides the low byte of register 0 by a register, both signed.
pub fn signed_div_byte_reg(cpu: &mut Cpu)
    requires
        semantics::signed_div(old(cpu)@, Width::Byte, Source::Reg(Width::Byte)) is Some,
    ensures
        Some(final(cpu)@) == semantics::signed_div(old(cpu)@, Width::Byte, Source::Reg(Width::Byte)),
{
    exec_signed_div(cpu, Width::Byte, Source::Reg(Width::Byte));
}

/// Divides the low short of register 0 by a register, both signed.
pub fn signed_div_short_reg(cpu: &mut Cpu)
    requires
        semantics::signed_div(old(cpu)@, Width::Short, Source::Reg(Width::Byte)) is Some,
    ensures
        Some(final(cpu)@) == semantics::signed_div(old(cpu)@, Width::Short, Source::Reg(Width::Byte)),
{
    exec_signed_div(cpu, Width::Short, Source::Reg(Width::Byte));
}

/// Divides register 0 by a register, both signed.
pub fn signed_div_long_reg(cpu: &mut Cpu)
    requires
        semantics::signed_div(old(cpu)@, Width::Long, Source::Reg(Width::Byte)) is Some,
    ensures
        Some(final(cpu)@) == semantics::signed_div(old(cpu)@, Width::Long, Source::Reg(Width::Byte)),
{
    exec_signed_div(cpu, Width::Long, Source::Reg(Width::Byte));
}

/// Ands the low byte of register 0 with an immediate.
pub fn and_byte_imm(cpu: &mut Cpu)
    requires
        semantics::and(old(cpu)@, Width::Byte, Source::Imm(Width::Byte)) is Some,
    ensures
        Some(final(cpu)@) == semantics::and(old(cpu)@, Width::Byte, Source::Imm(Width::Byte)),
{
    exec_and(cpu, Width::Byte, Source::Imm(Width::Byte));
}

/// Ands the low short of register 0 with an immediate.
pub fn and_short_imm(cpu: &mut Cpu)
    requires
        semantics::and(old(cpu)@, Width::Short, Source::Imm(Width::Short)) is Some,
    ensures
        Some(final(cpu)@) == semantics::and(old(cpu)@, Width::Short, Source::Imm(Width::Short)),
{
    exec_and(cpu, Width::Short, Source::Imm(Width::Short));
}

/// Ands register 0 with an immediate.
pub fn and_long_imm(cpu: &mut Cpu)
    requires
        semantics::and(old(cpu)@, Width::Long, Source::Imm(Width::Long)) is Some,
    ensures
        Some(final(cpu)@) == semantics::and(old(cpu)@, Width::Long, Source::Imm(Width::Long)),
{
    exec_and(cpu, Width::Long, Source::Imm(Width::Long));
}

/// Ands the low byte of register 0 with a register.
pub fn and_byte_reg(cpu: &mut Cpu)
    requires
        semantics::and(old(cpu)@, Width::Byte, Source::Reg(Width::Byte)) is Some,
    ensures
        Some(final(cpu)@) == semantics::and(old(cpu)@, Width::Byte, Source::Reg(Width::Byte)),
{
    exec_and(cpu, Width::Byte, Source::Reg(Width::Byte));
}

/// Ands the low short of register 0 with a register.
pub fn and_short_reg(cpu: &mut Cpu)
    requires
        semantics::and(old(cpu)@, Width::Short, Source::Reg(Width::Byte)) is Some,
    ensures
        Some(final(cpu)@) == semantics::and(old(cpu)@, Width::Short, Source::Reg(Width::Byte)),
{
    exec_and(cpu, Width::Short, Source::Reg(Width::Byte));
}

/// Ands register 0 with a register.
pub fn and_long_reg(cpu: &mut Cpu)
    requires
        semantics::and(old(cpu)@, Width::Long, Source::Reg(Width::Byte)) is Some,
    ensures
        Some(final(cpu)@) == semantics::and(old(cpu)@, Width::Long, Source::Reg(Width::Byte)),
{
    exec_and(cpu, Width::Long, Source::Reg(Width::Byte));
}

/// Ors the low byte of register 0 with an immediate byte.
pub fn or_byte_imm(cpu: &mut Cpu)
    requires
        semantics::or(old(cpu)@, Width::Byte, Source::Imm(Width::Byte)) is Some,
    ensures
        Some(final(cpu)@) == semantics::or(old(cpu)@, Width::Byte, Source::Imm(Width::Byte)),
{
    exec_or(cpu, Width::Byte, Source::Imm(Width::Byte));
}

/// Ors the low short of register 0 with an immediate.
pub fn or_short_imm(cpu: &mut Cpu)
    requires
        semantics::or(old(cpu)@, Width::Short, Source::Imm(Width::Short)) is Some,
    ensures
        Some(final(cpu)@) == semantics::or(old(cpu)@, Width::Short, Source::Imm(Width::Short)),
{
    exec_or(cpu, Width::Short, Source::Imm(Width::Short));
}

/// Ors register 0 with an immediate.
pub fn or_long_imm(cpu: &mut Cpu)
    requires
        semantics::or(old(cpu)@, Width::Long, Source::Imm(Width::Long)) is Some,
    ensures
        Some(final(cpu)@) == semantics::or(old(cpu)@, Width::Long, Source::Imm(Width::Long)),
{
    exec_or(cpu, Width::Long, Source::Imm(Width::Long));
}

/// Ors the low byte of register 0 with a register.
pub fn or_byte_reg(cpu: &mut Cpu)
    requires
        semantics::or(old(cpu)@, Width::Byte, Source::Reg(Width::Byte)) is Some,
    ensures
        Some(final(cpu)@) == semantics::or(old(cpu)@, Width::Byte, Source::Reg(Width::Byte)),
{
    exec_or(cpu, Width::Byte, Source::Reg(Width::Byte));
}

/// Ors the low short of register 0 with a register.
pub fn or_short_reg(cpu: &mut Cpu)
    requires
        semantics::or(old(cpu)@, Width::Short, Source::Reg(Width::Byte)) is Some,
    ensures
        Some(final(cpu)@) == semantics::or(old(cpu)@, Width::Short, Source::Reg(Width::Byte)),
{
    exec_or(cpu, Width::Short, Source::Reg(Width::Byte));
}

/// Ors register 0 with a register.
pub fn or_long_reg(cpu: &mut Cpu)
    requires
        semantics::or(old(cpu)@, Width::Long, Source::Reg(Width::Byte)) is Some,
    ensures
        Some(final(cpu)@) == semantics::or(old(cpu)@, Width::Long, Source::Reg(Width::Byte)),
{
    exec_or(cpu, Width::Long, Source::Reg(Width::Byte));
}

/// Xors the low byte of register 0 with an immediate.
pub fn xor_byte_imm(cpu: &mut Cpu)
    requires
        semantics::xor(old(cpu)@, Width::Byte, Source::Imm(Width::Byte)) is Some,
    ensures
        Some(final(cpu)@) == semantics::xor(old(cpu)@, Width::Byte, Source::Imm(Width::Byte)),
{
    exec_xor(cpu, Width::Byte, Source::Imm(Width::Byte));
}

/// Xors the low short of register 0 with an immediate.
pub fn xor_short_imm(cpu: &mut Cpu)
    requires
        semantics::xor(old(cpu)@, Width::Short, Source::Imm(Width::Short)) is Some,
    ensures
        Some(final(cpu)@) == semantics::xor(old(cpu)@, Width::Short, Source::Imm(Width::Short)),
{
    exec_xor(cpu, Width::Short, Source::Imm(Width::Short));
}

/// Xors register 0 with an immediate.
pub fn xor_long_imm(cpu: &mut Cpu)
    requires
        semantics::xor(old(cpu)@, Width::Long, Source::Imm(Width::Long)) is Some,
    ensures
        Some(final(cpu)@) == semantics::xor(old(cpu)@, Width::Long, Source::Imm(Width::Long)),
{
    exec_xor(cpu, Width::Long, Source::Imm(Width::Long));
}

/// Xors the low byte of register 0 with a register.
pub fn xor_byte_reg(cpu: &mut Cpu)
    requires
        semantics::xor(old(cpu)@, Width::Byte, Source::Reg(Width::Byte)) is Some,
    ensures
        Some(final(cpu)@) == semantics::xor(old(cpu)@, Width::Byte, Source::Reg(Width::Byte)),
{
    exec_xor(cpu, Width::Byte, Source::Reg(Width::Byte));
}

/// Xors the low short of register 0 with a register.
pub fn xor_short_reg(cpu: &mut Cpu)
    requires
        semantics::xor(old(cpu)@, Width::Short, Source::Reg(Width::Byte)) is Some,
    ensures
        Some(final(cpu)@) == semantics::xor(old(cpu)@, Width::Short, Source::Reg(Width::Byte)),
{
    exec_xor(cpu, Width::Short, Source::Reg(Width::Byte));
}

/// Xors register 0 with a register.
pub fn xor_long_reg(cpu: &mut Cpu)
    requires
        semantics::xor(old(cpu)@, Width::Long, Source::Reg(Width::Byte)) is Some,
    ensures
        Some(final(cpu)@) == semantics::xor(old(cpu)@, Width::Long, Source::Reg(Width::Byte)),
{
    exec_xor(cpu, Width::Long, Source::Reg(Width::Byte));
}

/// Pushes an immediate byte onto the stack.
pub fn push_byte_imm(cpu: &mut Cpu)
    requires
        semantics::push(old(cpu)@, Width::Byte, Source::Imm(Width::Byte)) is Some,
    ensures
        Some(final(cpu)@) == semantics::push(old(cpu)@, Width::Byte, Source::Imm(Width::Byte)),
{
    exec_push(cpu, Width::Byte, Source::Imm(Width::Byte));
}

/// Pushes an immediate short onto the stack.
pub fn push_short_imm(cpu: &mut Cpu)
    requires
        semantics::push(old(cpu)@, Width::Short, Source::Imm(Width::Short)) is Some,
    ensures
        Some(final(cpu)@) == semantics::push(old(cpu)@, Width::Short, Source::Imm(Width::Short)),
{
    exec_push(cpu, Width::Short, Source::Imm(Width::Short));
}

/// Pushes an immediate long onto the stack.
pub fn push_long_imm(cpu: &mut Cpu)
    requires
        semantics::push(old(cpu)@, Width::Long, Source::Imm(Width::Long)) is Some,
    ensures
        Some(final(cpu)@) == semantics::push(old(cpu)@, Width::Long, Source::Imm(Width::Long)),
{
    exec_push(cpu, Width::Long, Source::Imm(Width::Long));
}

/// Pushes a register byte onto the stack.
pub fn push_byte_reg(cpu: &mut Cpu)
    requires
        semantics::push(old(cpu)@, Width::Byte, Source::Reg(Width::Byte)) is Some,
    ensures
        Some(final(cpu)@) == semantics::push(old(cpu)@, Width::Byte, Source::Reg(Width::Byte)),
{
    exec_push(cpu, Width::Byte, Source::Reg(Width::Byte));
}

/// Pushes a register short onto the stack.
pub fn push_short_reg(cpu: &mut Cpu)
    requires
        semantics::push(old(cpu)@, Width::Short, Source::Reg(Width::Byte)) is Some,
    ensures
        Some(final(cpu)@) == semantics::push(old(cpu)@, Width::Short, Source::Reg(Width::Byte)),
{
    exec_push(cpu, Width::Short, Source::Reg(Width::Byte));
}

/// Pushes a register long onto the stack.
pub fn push_long_reg(cpu: &mut Cpu)
    requires
        semantics::push(old(cpu)@, Width::Long, Source::Reg(Width::Byte)) is Some,
    ensures
        Some(final(cpu)@) == semantics::push(old(cpu)@, Width::Long, Source::Reg(Width::Byte)),
{
    exec_push(cpu, Width::Long, Source::Reg(Width::Byte));
}

/// Sets register 0 to whether its low byte equals an immediate.
pub fn compare_byte_imm(cpu: &mut Cpu)
    requires
        semantics::compare(old(cpu)@, Width::Byte, Source::Imm(Width::Byte)) is Some,
    ensures
        Some(final(cpu)@) == semantics::compare(old(cpu)@, Width::Byte, Source::Imm(Width::Byte)),
{
    exec_compare(cpu, Width::Byte, Source::Imm(Width::Byte));
}

/// Sets register 0 to whether its low short equals an immediate.
pub fn compare_short_imm(cpu: &mut Cpu)
    requires
        semantics::compare(old(cpu)@, Width::Short, Source::Imm(Width::Short)) is Some,
    ensures
        Some(final(cpu)@) == semantics::compare(old(cpu)@, Width::Short, Source::Imm(Width::Short)),
{
    exec_compare(cpu, Width::Short, Source::Imm(Width::Short));
}

/// Sets register 0 to whether its low long equals an immediate.
pub fn compare_long_imm(cpu: &mut Cpu)
    requires
        semantics::compare(old(cpu)@, Width::Long, Source::Imm(Width::Long)) is Some,
    ensures
        Some(final(cpu)@) == semantics::compare(old(cpu)@, Width::Long, Source::Imm(Width::Long)),
{
    exec_compare(cpu, Width::Long, Source::Imm(Width::Long));
}

/// Sets register 0 to whether its low byte equals a register.
pub fn compare_byte_reg(cpu: &mut Cpu)
    requires
        semantics::compare(old(cpu)@, Width::Byte, Source::Reg(Width::Byte)) is Some,
    ensures
        Some(final(cpu)@) == semantics::compare(old(cpu)@, Width::Byte, Source::Reg(Width::Byte)),
{
    exec_compare(cpu, Width::Byte, Source::Reg(Width::Byte));
}

/// Sets register 0 to whether its low short equals a register.
pub fn compare_short_reg(cpu: &mut Cpu)
    requires
        semantics::compare(old(cpu)@, Width::Short, Source::Reg(Width::Byte)) is Some,
    ensures
        Some(final(cpu)@) == semantics::compare(old(cpu)@, Width::Short, Source::Reg(Width::Byte)),
{
    exec_compare(cpu, Width::Short, Source::Reg(Width::Byte));
}

/// Sets register 0 to whether its low long equals a register.
pub fn compare_long_reg(cpu: &mut Cpu)
    requires
        semantics::compare(old(cpu)@, Width::Long, Source::Reg(Width::Byte)) is Some,
    ensures
        Some(final(cpu)@) == semantics::compare(old(cpu)@, Width::Long, Source::Reg(Width::Byte)),
{
    exec_compare(cpu, Width::Long, Source::Reg(Width::Byte));
}

/// Shifts the low byte of register 0 left by an immediate amount.
pub fn log_shift_left_byte_imm(cpu: &mut Cpu)
    requires
        semantics::shift_left(old(cpu)@, Width::Byte, Source::Imm(Width::Byte)) is Some,
    ensures
        Some(final(cpu)@) == semantics::shift_left(old(cpu)@, Width::Byte, Source::Imm(Width::Byte)),
{
    exec_shift_left(cpu, Width::Byte, Source::Imm(Width::Byte));
}

/// Shifts the low short of register 0 left by an immediate amount.
pub fn log_shift_left_short_imm(cpu: &mut Cpu)
    requires
        semantics::shift_left(old(cpu)@, Width::Short, Source::Imm(Width::Byte)) is Some,
    ensures
        Some(final(cpu)@) == semantics::shift_left(old(cpu)@, Width::Short, Source::Imm(Width::Byte)),
{
    exec_shift_left(cpu, Width::Short, Source::Imm(Width::Byte));
}

/// Shifts register 0 left by an immediate amount.
pub fn log_shift_left_long_imm(cpu: &mut Cpu)
    requires
        semantics::shift_left(old(cpu)@, Width::Long, Source::Imm(Width::Byte)) is Some,
    ensures
        Some(final(cpu)@) == semantics::shift_left(old(cpu)@, Width::Long, Source::Imm(Width::Byte)),
{
    exec_shift_left(cpu, Width::Long, Source::Imm(Width::Byte));
}

/// Shifts the low byte of register 0 left by a register amount.
pub fn log_shift_left_byte_reg(cpu: &mut Cpu)
    requires
        semantics::shift_left(old(cpu)@, Width::Byte, Source::Reg(Width::Byte)) is Some,
    ensures
        Some(final(cpu)@) == semantics::shift_left(old(cpu)@, Width::Byte, Source::Reg(Width::Byte)),
{
    exec_shift_left(cpu, Width::Byte, Source::Reg(Width::Byte));
}

/// Shifts the low short of register 0 left by a register amount.
pub fn log_shift_left_short_reg(cpu: &mut Cpu)
    requires
        semantics::shift_left(old(cpu)@, Width::Short, Source::Reg(Width::Byte)) is Some,
    ensures
        Some(final(cpu)@) == semantics::shift_left(old(cpu)@, Width::Short, Source::Reg(Width::Byte)),
{
    exec_shift_left(cpu, Width::Short, Source::Reg(Width::Byte));
}

/// Shifts register 0 left by a register amount.
pub fn log_shift_left_long_reg(cpu: &mut Cpu)
    requires
        semantics::shift_left(old(cpu)@, Width::Long, Source::Reg(Width::Byte)) is Some,
    ensures
        Some(final(cpu)@) == semantics::shift_left(old(cpu)@, Width::Long, Source::Reg(Width::Byte)),
{
    exec_shift_left(cpu, Width::Long, Source::Reg(Width::Byte));
}

/// Shifts the low byte of register 0 right by an immediate amount, filling with zeros.
pub fn log_shift_right_byte_imm(cpu: &mut Cpu)
    requires
        semantics::shift_right(old(cpu)@, Width::Byte, Source::Imm(Width::Byte)) is Some,
    ensures
        Some(final(cpu)@) == semantics::shift_right(old(cpu)@, Width::Byte, Source::Imm(Width::Byte)),
{
    exec_shift_right(cpu, Width::Byte, Source::Imm(Width::Byte));
}

/// Shifts the low short of register 0 right by an immediate amount, filling with zeros.
pub fn log_shift_right_short_imm(cpu: &mut Cpu)
    requires
        semantics::shift_right(old(cpu)@, Width::Short, Source::Imm(Width::Byte)) is Some,
    ensures
        Some(final(cpu)@) == semantics::shift_right(old(cpu)@, Width::Short, Source::Imm(Width::Byte)),
{
    exec_shift_right(cpu, Width::Short, Source::Imm(Width::Byte));
}

/// Shifts register 0 right by an immediate amount, filling with zeros.
pub fn log_shift_right_long_imm(cpu: &mut Cpu)
    requires
        semantics::shift_right(old(cpu)@, Width::Long, Source::Imm(Width::Byte)) is Some,
    ensures
        Some(final(cpu)@) == semantics::shift_right(old(cpu)@, Width::Long, Source::Imm(Width::Byte)),
{
    exec_shift_right(cpu, Width::Long, Source::Imm(Width::Byte));
}

/// Shifts the low byte of register 0 right by a register amount, filling with zeros.
pub fn log_shift_right_byte_reg(cpu: &mut Cpu)
    requires
        semantics::shift_right(old(cpu)@, Width::Byte, Source::Reg(Width::Byte)) is Some,
    ensures
        Some(final(cpu)@) == semantics::shift_right(old(cpu)@, Width::Byte, Source::Reg(Width::Byte)),
{
    exec_shift_right(cpu, Width::Byte, Source::Reg(Width::Byte));
}

/// Shifts the low short of register 0 right by a register amount, filling with zeros.
pub fn log_shift_right_short_reg(cpu: &mut Cpu)
    requires
        semantics::shift_right(old(cpu)@, Width::Short, Source::Reg(Width::Byte)) is Some,
    ensures
        Some(final(cpu)@) == semantics::shift_right(old(cpu)@, Width::Short, Source::Reg(Width::Byte)),
{
    exec_shift_right(cpu, Width::Short, Source::Reg(Width::Byte));
}

/// Shifts register 0 right by a register amount, filling with zeros.
pub fn log_shift_right_long_reg(cpu: &mut Cpu)
    requires
        semantics::shift_right(old(cpu)@, Width::Long, Source::Reg(Width::Byte)) is Some,
    ensures
        Some(final(cpu)@) == semantics::shift_right(old(cpu)@, Width::Long, Source::Reg(Width::Byte)),
{
    exec_shift_right(cpu, Width::Long, Source::Reg(Width::Byte));
}

/// Shifts the low byte of register 0 left by an immediate amount.
pub fn arith_shift_left_byte_imm(cpu: &mut Cpu)
    requires
        semantics::shift_left(old(cpu)@, Width::Byte, Source::Imm(Width::Byte)) is Some,
    ensures
        Some(final(cpu)@) == semantics::shift_left(old(cpu)@, Width::Byte, Source::Imm(Width::Byte)),
{
    exec_shift_left(cpu, Width::Byte, Source::Imm(Width::Byte));
}

/// Shifts the low short of register 0 left by an immediate amount.
pub fn arith_shift_left_short_imm(cpu: &mut Cpu)
    requires
        semantics::shift_left(old(cpu)@, Width::Short, Source::Imm(Width::Byte)) is Some,
    ensures
        Some(final(cpu)@) == semantics::shift_left(old(cpu)@, Width::Short, Source::Imm(Width::Byte)),
{
    exec_shift_left(cpu, Width::Short, Source::Imm(Width::Byte));
}

/// Shifts register 0 left by an immediate amount.
pub fn arith_shift_left_long_imm(cpu: &mut Cpu)
    requires
        semantics::shift_left(old(cpu)@, Width::Long, Source::Imm(Width::Byte)) is Some,
    ensures
        Some(final(cpu)@) == semantics::shift_left(old(cpu)@, Width::Long, Source::Imm(Width::Byte)),
{
    exec_shift_left(cpu, Width::Long, Source::Imm(Width::Byte));
}

/// Shifts the low byte of register 0 left by a register amount, sign-extending the result.
pub fn arith_shift_left_byte_reg(cpu: &mut Cpu)
    requires
        semantics::arith_shift_left(old(cpu)@, Width::Byte, Source::Reg(Width::Byte)) is Some,
    ensures
        Some(final(cpu)@) == semantics::arith_shift_left(old(cpu)@, Width::Byte, Source::Reg(Width::Byte)),
{
    exec_arith_shift_left(cpu, Width::Byte, Source::Reg(Width::Byte));
}

/// Shifts the low short of register 0 left by a register amount, sign-extending the result.
pub fn arith_shift_left_short_reg(cpu: &mut Cpu)
    requires
        semantics::arith_shift_left(old(cpu)@, Width::Short, Source::Reg(Width::Byte)) is Some,
    ensures
        Some(final(cpu)@) == semantics::arith_shift_left(old(cpu)@, Width::Short, Source::Reg(Width::Byte)),
{
    exec_arith_shift_left(cpu, Width::Short, Source::Reg(Width::Byte));
}

/// Shifts register 0 left by a register amount, sign-extending the result.
pub fn arith_shift_left_long_reg(cpu: &mut Cpu)
    requires
        semantics::arith_shift_left(old(cpu)@, Width::Long, Source::Reg(Width::Byte)) is Some,
    ensures
        Some(final(cpu)@) == semantics::arith_shift_left(old(cpu)@, Width::Long, Source::Reg(Width::Byte)),
{
    exec_arith_shift_left(cpu, Width::Long, Source::Reg(Width::Byte));
}

/// Shifts the low byte of register 0 right by an immediate amount, filling with zeros.
pub fn arith_shift_right_byte_imm(cpu: &mut Cpu)
    requires
        semantics::shift_right(old(cpu)@, Width::Byte, Source::Imm(Width::Byte)) is Some,
    ensures
        Some(final(cpu)@) == semantics::shift_right(old(cpu)@, Width::Byte, Source::Imm(Width::Byte)),
{
    exec_shift_right(cpu, Width::Byte, Source::Imm(Width::Byte));
}

/// Shifts the low short of register 0 right by an immediate amount, filling with zeros.
pub fn arith_shift_right_short_imm(cpu: &mut Cpu)
    requires
        semantics::shift_right(old(cpu)@, Width::Short, Source::Imm(Width::Byte)) is Some,
    ensures
        Some(final(cpu)@) == semantics::shift_right(old(cpu)@, Width::Short, Source::Imm(Width::Byte)),
{
    exec_shift_right(cpu, Width::Short, Source::Imm(Width::Byte));
}

/// Shifts register 0 right by an immediate amount, filling with zeros.
pub fn arith_shift_right_long_imm(cpu: &mut Cpu)
    requires
        semantics::shift_right(old(cpu)@, Width::Long, Source::Imm(Width::Byte)) is Some,
    ensures
        Some(final(cpu)@) == semantics::shift_right(old(cpu)@, Width::Long, Source::Imm(Width::Byte)),
{
    exec_shift_right(cpu, Width::Long, Source::Imm(Width::Byte));
}

/// Shifts the low byte of register 0 right by a register amount, keeping its sign.
pub fn arith_shift_right_byte_reg(cpu: &mut Cpu)
    requires
        semantics::arith_shift_right(old(cpu)@, Width::Byte, Source::Reg(Width::Byte)) is Some,
    ensures
        Some(final(cpu)@) == semantics::arith_shift_right(old(cpu)@, Width::Byte, Source::Reg(Width::Byte)),
{
    exec_arith_shift_right(cpu, Width::Byte, Source::Reg(Width::Byte));
}

/// Shifts the low short of register 0 right by a register amount, keeping its sign.
pub fn arith_shift_right_short_reg(cpu: &mut Cpu)
    requires
        semantics::arith_shift_right(old(cpu)@, Width::Short, Source::Reg(Width::Byte)) is Some,
    ensures
        Some(final(cpu)@) == semantics::arith_shift_right(old(cpu)@, Width::Short, Source::Reg(Width::Byte)),
{
    exec_arith_shift_right(cpu, Width::Short, Source::Reg(Width::Byte));
}

/// Shifts register 0 right by a register amount, keeping its sign.
pub fn arith_shift_right_long_reg(cpu: &mut Cpu)
    requires
        semantics::arith_shift_right(old(cpu)@, Width::Long, Source::Reg(Width::Byte)) is Some,
    ensures
        Some(final(cpu)@) == semantics::arith_shift_right(old(cpu)@, Width::Long, Source::Reg(Width::Byte)),
{
    exec_arith_shift_right(cpu, Width::Long, Source::Reg(Width::Byte));
}

/// Rotates the low byte of register 0 left by an immediate amount.
pub fn rotate_left_byte_imm(cpu: &mut Cpu)
    requires
        semantics::rotate_left(old(cpu)@, Width::Byte, Source::Imm(Width::Byte)) is Some,
    ensures
        Some(final(cpu)@) == semantics::rotate_left(old(cpu)@, Width::Byte, Source::Imm(Width::Byte)),
{
    exec_rotate_left(cpu, Width::Byte, Source::Imm(Width::Byte));
}

/// Rotates the low short of register 0 left by an immediate amount.
pub fn rotate_left_short_imm(cpu: &mut Cpu)
    requires
        semantics::rotate_left(old(cpu)@, Width::Short, Source::Imm(Width::Byte)) is Some,
    ensures
        Some(final(cpu)@) == semantics::rotate_left(old(cpu)@, Width::Short, Source::Imm(Width::Byte)),
{
    exec_rotate_left(cpu, Width::Short, Source::Imm(Width::Byte));
}

/// Rotates register 0 left by an immediate amount.
pub fn rotate_left_long_imm(cpu: &mut Cpu)
    requires
        semantics::rotate_left(old(cpu)@, Width::Long, Source::Imm(Width::Byte)) is Some,
    ensures
        Some(final(cpu)@) == semantics::rotate_left(old(cpu)@, Width::Long, Source::Imm(Width::Byte)),
{
    exec_rotate_left(cpu, Width::Long, Source::Imm(Width::Byte));
}

/// Rotates the low byte of register 0 left by a register amount.
pub fn rotate_left_byte_reg(cpu: &mut Cpu)
    requires
        semantics::rotate_left(old(cpu)@, Width::Byte, Source::Reg(Width::Byte)) is Some,
    ensures
        Some(final(cpu)@) == semantics::rotate_left(old(cpu)@, Width::Byte, Source::Reg(Width::Byte)),
{
    exec_rotate_left(cpu, Width::Byte, Source::Reg(Width::Byte));
}

/// Rotates the low short of register 0 left by a register amount.
pub fn rotate_left_short_reg(cpu: &mut Cpu)
    requires
        semantics::rotate_left(old(cpu)@, Width::Short, Source::Reg(Width::Byte)) is Some,
    ensures
        Some(final(cpu)@) == semantics::rotate_left(old(cpu)@, Width::Short, Source::Reg(Width::Byte)),
{
    exec_rotate_left(cpu, Width::Short, Source::Reg(Width::Byte));
}

/// Rotates register 0 left by a register amount.
pub fn rotate_left_long_reg(cpu: &mut Cpu)
    requires
        semantics::rotate_left(old(cpu)@, Width::Long, Source::Reg(Width::Byte)) is Some,
    ensures
        Some(final(cpu)@) == semantics::rotate_left(old(cpu)@, Width::Long, Source::Reg(Width::Byte)),
{
    exec_rotate_left(cpu, Width::Long, Source::Reg(Width::Byte));
}

/// Rotates the low byte of register 0 right by an immediate amount.
pub fn rotate_right_byte_imm(cpu: &mut Cpu)
    requires
        semantics::rotate_right(old(cpu)@, Width::Byte, Source::Imm(Width::Byte)) is Some,
    ensures
        Some(final(cpu)@) == semantics::rotate_right(old(cpu)@, Width::Byte, Source::Imm(Width::Byte)),
{
    exec_rotate_right(cpu, Width::Byte, Source::Imm(Width::Byte));
}

/// Rotates the low short of register 0 right by an immediate amount.
pub fn rotate_right_short_imm(cpu: &mut Cpu)
    requires
        semantics::rotate_right(old(cpu)@, Width::Short, Source::Imm(Width::Byte)) is Some,
    ensures
        Some(final(cpu)@) == semantics::rotate_right(old(cpu)@, Width::Short, Source::Imm(Width::Byte)),
{
    exec_rotate_right(cpu, Width::Short, Source::Imm(Width::Byte));
}

/// Rotates register 0 right by an immediate amount.
pub fn rotate_right_long_imm(cpu: &mut Cpu)
    requires
        semantics::rotate_right(old(cpu)@, Width::Long, Source::Imm(Width::Byte)) is Some,
    ensures
        Some(final(cpu)@) == semantics::rotate_right(old(cpu)@, Width::Long, Source::Imm(Width::Byte)),
{
    exec_rotate_right(cpu, Width::Long, Source::Imm(Width::Byte));
}

/// Rotates the low byte of register 0 right by a register amount.
pub fn rotate_right_byte_reg(cpu: &mut Cpu)
    requires
        semantics::rotate_right(old(cpu)@, Width::Byte, Source::Reg(Width::Byte)) is Some,
    ensures
        Some(final(cpu)@) == semantics::rotate_right(old(cpu)@, Width::Byte, Source::Reg(Width::Byte)),
{
    exec_rotate_right(cpu, Width::Byte, Source::Reg(Width::Byte));
}

/// Rotates the low short of register 0 right by a register amount.
pub fn rotate_right_short_reg(cpu: &mut Cpu)
    requires
        semantics::rotate_right(old(cpu)@, Width::Short, Source::Reg(Width::Byte)) is Some,
    ensures
        Some(final(cpu)@) == semantics::rotate_right(old(cpu)@, Width::Short, Source::Reg(Width::Byte)),
{
    exec_rotate_right(cpu, Width::Short, Source::Reg(Width::Byte));
}

/// Rotates register 0 right by a register amount.
pub fn rotate_right_long_reg(cpu: &mut Cpu)
    requires
        semantics::rotate_right(old(cpu)@, Width::Long, Source::Reg(Width::Byte)) is Some,
    ensures
        Some(final(cpu)@) == semantics::rotate_right(old(cpu)@, Width::Long, Source::Reg(Width::Byte)),
{
    exec_rotate_right(cpu, Width::Long, Source::Reg(Width::Byte));
}

/// Pops a byte off the stack into a register.
pub fn pop_byte(cpu: &mut Cpu)
    requires
        semantics::pop(old(cpu)@, Width::Byte) is Some,
    ensures
        Some(final(cpu)@) == semantics::pop(old(cpu)@, Width::Byte),
{
    exec_pop(cpu, Width::Byte);
}

/// Pops a short off the stack into a register.
pub fn pop_short(cpu: &mut Cpu)
    requires
        semantics::pop(old(cpu)@, Width::Short) is Some,
    ensures
        Some(final(cpu)@) == semantics::pop(old(cpu)@, Width::Short),
{
    exec_pop(cpu, Width::Short);
}

/// Pops a long off the stack into a register.
pub fn pop_long(cpu: &mut Cpu)
    requires
        semantics::pop(old(cpu)@, Width::Long) is Some,
    ensures
        Some(final(cpu)@) == semantics::pop(old(cpu)@, Width::Long),
{
    exec_pop(cpu, Width::Long);
}

/// Negates the low byte of a register.
pub fn negate_byte(cpu: &mut Cpu)
    requires
        semantics::negate(old(cpu)@, Width::Byte) is Some,
    ensures
        Some(final(cpu)@) == semantics::negate(old(cpu)@, Width::Byte),
{
    exec_negate(cpu, Width::Byte);
}

/// Negates the low short of a register.
pub fn negate_short(cpu: &mut Cpu)
    requires
        semantics::negate(old(cpu)@, Width::Short) is Some,
    ensures
        Some(final(cpu)@) == semantics::negate(old(cpu)@, Width::Short),
{
    exec_negate(cpu, Width::Short);
}

/// Negates the low long of a register.
pub fn negate_long(cpu: &mut Cpu)
    requires
        semantics::negate(old(cpu)@, Width::Long) is Some,
    ensures
        Some(final(cpu)@) == semantics::negate(old(cpu)@, Width::Long),
{
    exec_negate(cpu, Width::Long);
}

/// Complements the low byte of a register.
pub fn not_byte(cpu: &mut Cpu)
    requires
        semantics::not(old(cpu)@, Width::Byte) is Some,
    ensures
        Some(final(cpu)@) == semantics::not(old(cpu)@, Width::Byte),
{
    exec_not(cpu, Width::Byte);
}

/// Complements the low short of a register.
pub fn not_short(cpu: &mut Cpu)
    requires
        semantics::not(old(cpu)@, Width::Short) is Some,
    ensures
        Some(final(cpu)@) == semantics::not(old(cpu)@, Width::Short),
{
    exec_not(cpu, Width::Short);
}

/// Complements the low long of a register.
pub fn not_long(cpu: &mut Cpu)
    requires
        semantics::not(old(cpu)@, Width::Long) is Some,
    ensures
        Some(final(cpu)@) == semantics::not(old(cpu)@, Width::Long),
{
    exec_not(cpu, Width::Long);
}

/// Adds one to the low byte of a register.
pub fn increment_byte(cpu: &mut Cpu)
    requires
        semantics::increment(old(cpu)@, Width::Byte) is Some,
    ensures
        Some(final(cpu)@) == semantics::increment(old(cpu)@, Width::Byte),
{
    exec_increment(cpu, Width::Byte);
}

/// Adds one to the low short of a register.
pub fn increment_short(cpu: &mut Cpu)
    requires
        semantics::increment(old(cpu)@, Width::Short) is Some,
    ensures
        Some(final(cpu)@) == semantics::increment(old(cpu)@, Width::Short),
{
    exec_increment(cpu, Width::Short);
}

/// Adds one to the low long of a register.
pub fn increment_long(cpu: &mut Cpu)
    requires
        semantics::increment(old(cpu)@, Width::Long) is Some,
    ensures
        Some(final(cpu)@) == semantics::increment(old(cpu)@, Width::Long),
{
    exec_increment(cpu, Width::Long);
}

/// Subtracts one from the low byte of a register.
pub fn decrement_byte(cpu: &mut Cpu)
    requires
        semantics::decrement(old(cpu)@, Width::Byte) is Some,
    ensures
        Some(final(cpu)@) == semantics::decrement(old(cpu)@, Width::Byte),
{
    exec_decrement(cpu, Width::Byte);
}

/// Subtracts one from the low short of a register.
pub fn decrement_short(cpu: &mut Cpu)
    requires
        semantics::decrement(old(cpu)@, Width::Short) is Some,
    ensures
        Some(final(cpu)@) == semantics::decrement(old(cpu)@, Width::Short),
{
    exec_decrement(cpu, Width::Short);
}

/// Subtracts one from the low long of a register.
pub fn decrement_long(cpu: &mut Cpu)
    requires
        semantics::decrement(old(cpu)@, Width::Long) is Some,
    ensures
        Some(final(cpu)@) == semantics::decrement(old(cpu)@, Width::Long),
{
    exec_decrement(cpu, Width::Long);
}

/// Jumps to an immediate address when register 0 equals register 1.
pub fn jump_equal(cpu: &mut Cpu)
    requires
        semantics::jump(old(cpu)@, Condition::Equal) is Some,
    ensures
        Some(final(cpu)@) == semantics::jump(old(cpu)@, Condition::Equal),
{
    exec_jump(cpu, Condition::Equal);
}

/// Jumps to an immediate address when register 0 differs from register 1.
pub fn jump_not_equal(cpu: &mut Cpu)
    requires
        semantics::jump(old(cpu)@, Condition::NotEqual) is Some,
    ensures
        Some(final(cpu)@) == semantics::jump(old(cpu)@, Condition::NotEqual),
{
    exec_jump(cpu, Condition::NotEqual);
}

/// Jumps to an immediate address when register 0 is greater than register 1.
pub fn jump_greater(cpu: &mut Cpu)
    requires
        semantics::jump(old(cpu)@, Condition::Greater) is Some,
    ensures
        Some(final(cpu)@) == semantics::jump(old(cpu)@, Condition::Greater),
{
    exec_jump(cpu, Condition::Greater);
}

/// Jumps to an immediate address when register 0 is greater than or equal to register 1.
pub fn jump_greater_equal(cpu: &mut Cpu)
    requires
        semantics::jump(old(cpu)@, Condition::GreaterEqual) is Some,
    ensures
        Some(final(cpu)@) == semantics::jump(old(cpu)@, Condition::GreaterEqual),
{
    exec_jump(cpu, Condition::GreaterEqual);
}

/// Jumps to an immediate address when register 0 is less than register 1.
pub fn jump_less(cpu: &mut Cpu)
    requires
        semantics::jump(old(cpu)@, Condition::Less) is Some,
    ensures
        Some(final(cpu)@) == semantics::jump(old(cpu)@, Condition::Less),
{
    exec_jump(cpu, Condition::Less);
}

/// Jumps to an immediate address when register 0 is less than or equal to register 1.
pub fn jump_less_equal(cpu: &mut Cpu)
    requires
        semantics::jump(old(cpu)@, Condition::LessEqual) is Some,
    ensures
        Some(final(cpu)@) == semantics::jump(old(cpu)@, Condition::LessEqual),
{
    exec_jump(cpu, Condition::LessEqual);
}

/// Jumps to an immediate address when register 0 is greater than register 1, both signed.
pub fn jump_signed_greater(cpu: &mut Cpu)
    requires
        semantics::jump(old(cpu)@, Condition::SignedGreater) is Some,
    ensures
        Some(final(cpu)@) == semantics::jump(old(cpu)@, Condition::SignedGreater),
{
    exec_jump(cpu, Condition::SignedGreater);
}

/// Jumps to an immediate address when register 0 is greater than or equal to register 1, both signed.
pub fn jump_signed_greater_equal(cpu: &mut Cpu)
    requires
        semantics::jump(old(cpu)@, Condition::SignedGreaterEqual) is Some,
    ensures
        Some(final(cpu)@) == semantics::jump(old(cpu)@, Condition::SignedGreaterEqual),
{
    exec_jump(cpu, Condition::SignedGreaterEqual);
}

/// Jumps to an immediate address when register 0 is less than register 1, both signed.
pub fn jump_signed_less(cpu: &mut Cpu)
    requires
        semantics::jump(old(cpu)@, Condition::SignedLess) is Some,
    ensures
        Some(final(cpu)@) == semantics::jump(old(cpu)@, Condition::SignedLess),
{
    exec_jump(cpu, Condition::SignedLess);
}

/// Jumps to an immediate address when register 0 is less than or equal to register 1, both signed.
pub fn jump_signed_less_equal(cpu: &mut Cpu)
    requires
        semantics::jump(old(cpu)@, Condition::SignedLessEqual) is Some,
    ensures
        Some(final(cpu)@) == semantics::jump(old(cpu)@, Condition::SignedLessEqual),
{
    exec_jump(cpu, Condition::SignedLessEqual);
}

/// Jumps to an immediate address.
pub fn jump_imm(cpu: &mut Cpu)
    requires
        semantics::jump(old(cpu)@, Condition::Always) is Some,
    ensures
        Some(final(cpu)@) == semantics::jump(old(cpu)@, Condition::Always),
{
    exec_jump(cpu, Condition::Always);
}

/// Jumps to the address held by a register.
pub fn jump_reg(cpu: &mut Cpu)
    requires
        semantics::jump_reg(old(cpu)@) is Some,
    ensures
        Some(final(cpu)@) == semantics::jump_reg(old(cpu)@),
{
    exec_jump_reg(cpu);
}

/// Raises a software interrupt.
pub fn interrupt(cpu: &mut Cpu)
    requires
        semantics::interrupt(old(cpu)@) is Some,
    ensures
        Some(final(cpu)@) == semantics::interrupt(old(cpu)@),
{
    exec_interrupt(cpu);
}

/// Returns from an interrupt handler.
pub fn interrupt_return(cpu: &mut Cpu)
    requires
        semantics::interrupt_return(old(cpu)@) is Some,
    ensures
        Some(final(cpu)@) == semantics::interrupt_return(old(cpu)@),
{
    exec_interrupt_return(cpu);
}

/// Calls the subroutine at an immediate address.
pub fn call(cpu: &mut Cpu)
    requires
        semantics::call(old(cpu)@) is Some,
    ensures
        Some(final(cpu)@) == semantics::call(old(cpu)@),
{
    exec_call(cpu);
}

/// Returns from a subroutine.
pub fn ret(cpu: &mut Cpu)
    requires
        semantics::ret(old(cpu)@) is Some,
    ensures
        Some(final(cpu)@) == semantics::ret(old(cpu)@),
{
    exec_ret(cpu);
}

/// Makes a request to the host.
pub fn syscall(cpu: &mut Cpu) -> (request: Syscall)
    requires
        semantics::syscall(old(cpu)@) is Some,
    ensures
        Some(final(cpu)@) == semantics::syscall(old(cpu)@),
        Some(request) == semantics::syscall_number(old(cpu)@.operand(0, Width::Byte)),
{
    exec_syscall(cpu)
}

/// Clears the carry flag.
pub fn clear_carry(cpu: &mut Cpu)
    ensures
        Some(final(cpu)@) == semantics::clear_carry(old(cpu)@),
{
    cpu.set_flag(CARRY_FLAG, false);
}

/// Does nothing.
pub fn nop(_cpu: &mut Cpu)
    ensures
        Some(final(_cpu)@) == semantics::nop(old(_cpu)@),
{
}

/// Executes the instruction with opcode `op`, whose opcode byte has just been
/// fetched; gives the host request the instruction makes, if any.
pub fn execute(cpu: &mut Cpu, op: Opcode) -> (request: Option<Syscall>)
    requires
        semantics::execute(op, old(cpu)@) is Some,
    ensures
        Some(final(cpu)@) == semantics::execute(op, old(cpu)@),
        request == if op == Opcode::Syscall {
            semantics::syscall_number(old(cpu)@.operand(0, Width::Byte))
        } else {
            None
        },
{
    proof {
        reveal(semantics::execute);
    }
    match op {
        Opcode::Hlt => {
            hlt(cpu);
            None
        },
        Opcode::MoveImmRegByte => {
            move_imm_reg_byte(cpu);
            None
        },
        Opcode::MoveImmRegShort => {
            move_imm_reg_short(cpu);
            None
        },
        Opcode::MoveImmRegLong => {
            move_imm_reg_long(cpu);
            None
        },
        Opcode::MoveRegRegByte => {
            move_reg_reg_byte(cpu);
            None
        },
        Opcode::MoveRegRegShort => {
            move_reg_reg_short(cpu);
            None
        },
        Opcode::MoveRegRegLong => {
            move_reg_reg_long(cpu);
            None
        },
        Opcode::MoveAbsRegByte => {
            move_abs_reg_byte(cpu);
            None
        },
        Opcode::MoveAbsRegShort => {
            move_abs_reg_short(cpu);
            None
        },
        Opcode::MoveAbsRegLong => {
            move_abs_reg_long(cpu);
            None
        },
        Opcode::MoveMemRegByte => {
            move_mem_reg_byte(cpu);
            None
        },
        Opcode::MoveMemRegShort => {
            move_mem_reg_short(cpu);
            None
        },
        Opcode::MoveMemRegLong => {
            move_mem_reg_long(cpu);
            None
        },
        Opcode::MoveIndirectRegByte => {
            move_indirect_reg_byte(cpu);
            None
        },
        Opcode::MoveIndirectRegShort => {
            move_indirect_reg_short(cpu);
            None
        },
        Opcode::MoveIndirectRegLong => {
            move_indirect_reg_long(cpu);
            None
        },
        Opcode::MoveImmAbsByte => {
            move_imm_abs_byte(cpu);
            None
        },
        Opcode::MoveImmAbsShort => {
            move_imm_abs_short(cpu);
            None
        },
        Opcode::MoveImmAbsLong => {
            move_imm_abs_long(cpu);
            None
        },
        Opcode::MoveRegAbsByte => {
            move_reg_abs_byte(cpu);
            None
        },
        Opcode::MoveRegAbsShort => {
            move_reg_abs_short(cpu);
            None
        },
        Opcode::MoveRegAbsLong => {
            move_reg_abs_long(cpu);
            None
        },
        Opcode::MoveAbsAbsByte => {
            move_abs_abs_byte(cpu);
            None
        },
        Opcode::MoveAbsAbsShort => {
            move_abs_abs_short(cpu);
            None
        },
        Opcode::MoveAbsAbsLong => {
            move_abs_abs_long(cpu);
            None
        },
        Opcode::MoveMemAbsByte => {
            move_mem_abs_byte(cpu);
            None
        },
        Opcode::MoveMemAbsShort => {
            move_mem_abs_short(cpu);
            None
        },
        Opcode::MoveMemAbsLong => {
            move_mem_abs_long(cpu);
            None
        },
        Opcode::MoveIndirectAbsByte => {
            move_indirect_abs_byte(cpu);
            None
        },
        Opcode::MoveIndirectAbsShort => {
            move_indirect_abs_short(cpu);
            None
        },
        Opcode::MoveIndirectAbsLong => {
            move_indirect_abs_long(cpu);
            None
        },
        Opcode::MoveImmMemByte => {
            move_imm_mem_byte(cpu);
            None
        },
        Opcode::MoveImmMemShort => {
            move_imm_mem_short(cpu);
            None
        },
        Opcode::MoveImmMemLong => {
            move_imm_mem_long(cpu);
            None
        },
        Opcode::MoveRegMemByte => {
            move_reg_mem_byte(cpu);
            None
        },
        Opcode::MoveRegMemShort => {
            move_reg_mem_short(cpu);
            None
        },
        Opcode::MoveRegMemLong => {
            move_reg_mem_long(cpu);
            None
        },
        Opcode::MoveAbsMemByte => {
            move_abs_mem_byte(cpu);
            None
        },
        Opcode::MoveAbsMemShort => {
            move_abs_mem_short(cpu);
            None
        },
        Opcode::MoveAbsMemLong => {
            move_abs_mem_long(cpu);
            None
        },
        Opcode::MoveMemMemByte => {
            move_mem_mem_byte(cpu);
            None
        },
        Opcode::MoveMemMemShort => {
            move_mem_mem_short(cpu);
            None
        },
        Opcode::MoveMemMemLong => {
            move_mem_mem_long(cpu);
            None
        },
        Opcode::MoveIndirectMemByte => {
            move_indirect_mem_byte(cpu);
            None
        },
        Opcode::MoveIndirectMemShort => {
            move_indirect_mem_short(cpu);
            None
        },
        Opcode::MoveIndirectMemLong => {
            move_indirect_mem_long(cpu);
            None
        },
        Opcode::MoveImmIndirectByte => {
            move_imm_indirect_byte(cpu);
            None
        },
        Opcode::MoveImmIndirectShort => {
            move_imm_indirect_short(cpu);
            None
        },
        Opcode::MoveImmIndirectLong => {
            move_imm_indirect_long(cpu);
            None
        },
        Opcode::MoveRegIndirectByte => {
            move_reg_indirect_byte(cpu);
            None
        },
        Opcode::MoveRegIndirectShort => {
            move_reg_indirect_short(cpu);
            None
        },
        Opcode::MoveRegIndirectLong => {
            move_reg_indirect_long(cpu);
            None
        },
        Opcode::MoveAbsIndirectByte => {
            move_abs_indirect_byte(cpu);
            None
        },
        Opcode::MoveAbsIndirectShort => {
            move_abs_indirect_short(cpu);
            None
        },
        Opcode::MoveAbsIndirectLong => {
            move_abs_indirect_long(cpu);
            None
        },
        Opcode::MoveMemIndirectByte => {
            move_mem_indirect_byte(cpu);
            None
        },
        Opcode::MoveMemIndirectShort => {
            move_mem_indirect_short(cpu);
            None
        },
        Opcode::MoveMemIndirectLong => {
            move_mem_indirect_long(cpu);
            None
        },
        Opcode::MoveIndirectIndirectByte => {
            move_indirect_indirect_byte(cpu);
            None
        },
        Opcode::MoveIndirectIndirectShort => {
            move_indirect_indirect_short(cpu);
            None
        },
        Opcode::MoveIndirectIndirectLong => {
            move_indirect_indirect_long(cpu);
            None
        },
        Opcode::AddByteImm => {
            add_byte_imm(cpu);
            None
        },
        Opcode::AddShortImm => {
            add_short_imm(cpu);
            None
        },
        Opcode::AddLongImm => {
            add_long_imm(cpu);
            None
        },
        Opcode::AddByteReg => {
            add_byte_reg(cpu);
            None
        },
        Opcode::AddShortReg => {
            add_short_reg(cpu);
            None
        },
        Opcode::AddLongReg => {
            add_long_reg(cpu);
            None
        },
        Opcode::AddCarryByteImm => {
            add_carry_byte_imm(cpu);
            None
        },
        Opcode::AddCarryShortImm => {
            add_carry_short_imm(cpu);
            None
        },
        Opcode::AddCarryLongImm => {
            add_carry_long_imm(cpu);
            None
        },
        Opcode::AddCarryByteReg => {
            add_carry_byte_reg(cpu);
            None
        },
        Opcode::AddCarryShortReg => {
            add_carry_short_reg(cpu);
            None
        },
        Opcode::AddCarryLongReg => {
            add_carry_long_reg(cpu);
            None
        },
        Opcode::SubByteImm => {
            sub_byte_imm(cpu);
            None
        },
        Opcode::SubShortImm => {
            sub_short_imm(cpu);
            None
        },
        Opcode::SubLongImm => {
            sub_long_imm(cpu);
            None
        },
        Opcode::SubByteReg => {
            sub_byte_reg(cpu);
            None
        },
        Opcode::SubShortReg => {
            sub_short_reg(cpu);
            None
        },
        Opcode::SubLongReg => {
            sub_long_reg(cpu);
            None
        },
        Opcode::SubBorrowByteImm => {
            sub_borrow_byte_imm(cpu);
            None
        },
        Opcode::SubBorrowShortImm => {
            sub_borrow_short_imm(cpu);
            None
        },
        Opcode::SubBorrowLongImm => {
            sub_borrow_long_imm(cpu);
            None
        },
        Opcode::SubBorrowByteReg => {
            sub_borrow_byte_reg(cpu);
            None
        },
        Opcode::SubBorrowShortReg => {
            sub_borrow_short_reg(cpu);
            None
        },
        Opcode::SubBorrowLongReg => {
            sub_borrow_long_reg(cpu);
            None
        },
        Opcode::MulByteImm => {
            mul_byte_imm(cpu);
            None
        },
        Opcode::MulShortImm => {
            mul_short_imm(cpu);
            None
        },
        Opcode::MulLongImm => {
            mul_long_imm(cpu);
            None
        },
        Opcode::MulByteReg => {
            mul_byte_reg(cpu);
            None
        },
        Opcode::MulShortReg => {
            mul_short_reg(cpu);
            None
        },
        Opcode::MulLongReg => {
            mul_long_reg(cpu);
            None
        },
        Opcode::DivByteImm => {
            div_byte_imm(cpu);
            None
        },
        Opcode::DivShortImm => {
            div_short_imm(cpu);
            None
        },
        Opcode::DivLongImm => {
            div_long_imm(cpu);
            None
        },
        Opcode::DivByteReg => {
            div_byte_reg(cpu);
            None
        },
        Opcode::DivShortReg => {
            div_short_reg(cpu);
            None
        },
        Opcode::DivLongReg => {
            div_long_reg(cpu);
            None
        },
        Opcode::SignedMulByteImm => {
            signed_mul_byte_imm(cpu);
            None
        },
        Opcode::SignedMulShortImm => {
            signed_mul_short_imm(cpu);
            None
        },
        Opcode::SignedMulLongImm => {
            signed_mul_long_imm(cpu);
            None
        },
        Opcode::SignedMulByteReg => {
            signed_mul_byte_reg(cpu);
            None
        },
        Opcode::SignedMulShortReg => {
            signed_mul_short_reg(cpu);
            None
        },
        Opcode::SignedMulLongReg => {
            signed_mul_long_reg(cpu);
            None
        },
        Opcode::SignedDivByteImm => {
            signed_div_byte_imm(cpu);
            None
        },
        Opcode::SignedDivShortImm => {
            signed_div_short_imm(cpu);
            None
        },
        Opcode::SignedDivLongImm => {
            signed_div_long_imm(cpu);
            None
        },
        Opcode::SignedDivByteReg => {
            signed_div_byte_reg(cpu);
            None
        },
        Opcode::SignedDivShortReg => {
            signed_div_short_reg(cpu);
            None
        },
        Opcode::SignedDivLongReg => {
            signed_div_long_reg(cpu);
            None
        },
        Opcode::AndByteImm => {
            and_byte_imm(cpu);
            None
        },
        Opcode::AndShortImm => {
            and_short_imm(cpu);
            None
        },
        Opcode::AndLongImm => {
            and_long_imm(cpu);
            None
        },
        Opcode::AndByteReg => {
            and_byte_reg(cpu);
            None
        },
        Opcode::AndShortReg => {
            and_short_reg(cpu);
            None
        },
        Opcode::AndLongReg => {
            and_long_reg(cpu);
            None
        },
        Opcode::OrByteImm => {
            or_byte_imm(cpu);
            None
        },
        Opcode::OrShortImm => {
            or_short_imm(cpu);
            None
        },
        Opcode::OrLongImm => {
            or_long_imm(cpu);
            None
        },
        Opcode::OrByteReg => {
            or_byte_reg(cpu);
            None
        },
        Opcode::OrShortReg => {
            or_short_reg(cpu);
            None
        },
        Opcode::OrLongReg => {
            or_long_reg(cpu);
            None
        },
        Opcode::XorByteImm => {
            xor_byte_imm(cpu);
            None
        },
        Opcode::XorShortImm => {
            xor_short_imm(cpu);
            None
        },
        Opcode::XorLongImm => {
            xor_long_imm(cpu);
            None
        },
        Opcode::XorByteReg => {
            xor_byte_reg(cpu);
            None
        },
        Opcode::XorShortReg => {
            xor_short_reg(cpu);
            None
        },
        Opcode::XorLongReg => {
            xor_long_reg(cpu);
            None
        },
        Opcode::PushByteImm => {
            push_byte_imm(cpu);
            None
        },
        Opcode::PushShortImm => {
            push_short_imm(cpu);
            None
        },
        Opcode::PushLongImm => {
            push_long_imm(cpu);
            None
        },
        Opcode::PushByteReg => {
            push_byte_reg(cpu);
            None
        },
        Opcode::PushShortReg => {
            push_short_reg(cpu);
            None
        },
        Opcode::PushLongReg => {
            push_long_reg(cpu);
            None
        },
        Opcode::CompareByteImm => {
            compare_byte_imm(cpu);
            None
        },
        Opcode::CompareShortImm => {
            compare_short_imm(cpu);
            None
        },
        Opcode::CompareLongImm => {
            compare_long_imm(cpu);
            None
        },
        Opcode::CompareByteReg => {
            compare_byte_reg(cpu);
            None
        },
        Opcode::CompareShortReg => {
            compare_short_reg(cpu);
            None
        },
        Opcode::CompareLongReg => {
            compare_long_reg(cpu);
            None
        },
        Opcode::LogShiftLeftByteImm => {
            log_shift_left_byte_imm(cpu);
            None
        },
        Opcode::LogShiftLeftShortImm => {
            log_shift_left_short_imm(cpu);
            None
        },
        Opcode::LogShiftLeftLongImm => {
            log_shift_left_long_imm(cpu);
            None
        },
        Opcode::LogShiftLeftByteReg => {
            log_shift_left_byte_reg(cpu);
            None
        },
        Opcode::LogShiftLeftShortReg => {
            log_shift_left_short_reg(cpu);
            None
        },
        Opcode::LogShiftLeftLongReg => {
            log_shift_left_long_reg(cpu);
            None
        },
        Opcode::LogShiftRightByteImm => {
            log_shift_right_byte_imm(cpu);
            None
        },
        Opcode::LogShiftRightShortImm => {
            log_shift_right_short_imm(cpu);
            None
        },
        Opcode::LogShiftRightLongImm => {
            log_shift_right_long_imm(cpu);
            None
        },
        Opcode::LogShiftRightByteReg => {
            log_shift_right_byte_reg(cpu);
            None
        },
        Opcode::LogShiftRightShortReg => {
            log_shift_right_short_reg(cpu);
            None
        },
        Opcode::LogShiftRightLongReg => {
            log_shift_right_long_reg(cpu);
            None
        },
        Opcode::ArithShiftLeftByteImm => {
            arith_shift_left_byte_imm(cpu);
            None
        },
        Opcode::ArithShiftLeftShortImm => {
            arith_shift_left_short_imm(cpu);
            None
        },
        Opcode::ArithShiftLeftLongImm => {
            arith_shift_left_long_imm(cpu);
            None
        },
        Opcode::ArithShiftLeftByteReg => {
            arith_shift_left_byte_reg(cpu);
            None
        },
        Opcode::ArithShiftLeftShortReg => {
            arith_shift_left_short_reg(cpu);
            None
        },
        Opcode::ArithShiftLeftLongReg => {
            arith_shift_left_long_reg(cpu);
            None
        },
        Opcode::ArithShiftRightByteImm => {
            arith_shift_right_byte_imm(cpu);
            None
        },
        Opcode::ArithShiftRightShortImm => {
            arith_shift_right_short_imm(cpu);
            None
        },
        Opcode::ArithShiftRightLongImm => {
            arith_shift_right_long_imm(cpu);
            None
        },
        Opcode::ArithShiftRightByteReg => {
            arith_shift_right_byte_reg(cpu);
            None
        },
        Opcode::ArithShiftRightShortReg => {
            arith_shift_right_short_reg(cpu);
            None
        },
        Opcode::ArithShiftRightLongReg => {
            arith_shift_right_long_reg(cpu);
            None
        },
        Opcode::RotateLeftByteImm => {
            rotate_left_byte_imm(cpu);
            None
        },
        Opcode::RotateLeftShortImm => {
            rotate_left_short_imm(cpu);
            None
        },
        Opcode::RotateLeftLongImm => {
            rotate_left_long_imm(cpu);
            None
        },
        Opcode::RotateLeftByteReg => {
            rotate_left_byte_reg(cpu);
            None
        },
        Opcode::RotateLeftShortReg => {
            rotate_left_short_reg(cpu);
            None
        },
        Opcode::RotateLeftLongReg => {
            rotate_left_long_reg(cpu);
            None
        },
        Opcode::RotateRightByteImm => {
            rotate_right_byte_imm(cpu);
            None
        },
        Opcode::RotateRightShortImm => {
            rotate_right_short_imm(cpu);
            None
        },
        Opcode::RotateRightLongImm => {
            rotate_right_long_imm(cpu);
            None
        },
        Opcode::RotateRightByteReg => {
            rotate_right_byte_reg(cpu);
            None
        },
        Opcode::RotateRightShortReg => {
            rotate_right_short_reg(cpu);
            None
        },
        Opcode::RotateRightLongReg => {
            rotate_right_long_reg(cpu);
            None
        },
        Opcode::PopByte => {
            pop_byte(cpu);
            None
        },
        Opcode::PopShort => {
            pop_short(cpu);
            None
        },
        Opcode::PopLong => {
            pop_long(cpu);
            None
        },
        Opcode::NegateByte => {
            negate_byte(cpu);
            None
        },
        Opcode::NegateShort => {
            negate_short(cpu);
            None
        },
        Opcode::NegateLong => {
            negate_long(cpu);
            None
        },
        Opcode::NotByte => {
            not_byte(cpu);
            None
        },
        Opcode::NotShort => {
            not_short(cpu);
            None
        },
        Opcode::NotLong => {
            not_long(cpu);
            None
        },
        Opcode::IncrementByte => {
            increment_byte(cpu);
            None
        },
        Opcode::IncrementShort => {
            increment_short(cpu);
            None
        },
        Opcode::IncrementLong => {
            increment_long(cpu);
            None
        },
        Opcode::DecrementByte => {
            decrement_byte(cpu);
            None
        },
        Opcode::DecrementShort => {
            decrement_short(cpu);
            None
        },
        Opcode::DecrementLong => {
            decrement_long(cpu);
            None
        },
        Opcode::JumpEqual => {
            jump_equal(cpu);
            None
        },
        Opcode::JumpNotEqual => {
            jump_not_equal(cpu);
            None
        },
        Opcode::JumpGreater => {
            jump_greater(cpu);
            None
        },
        Opcode::JumpGreaterEqual => {
            jump_greater_equal(cpu);
            None
        },
        Opcode::JumpLess => {
            jump_less(cpu);
            None
        },
        Opcode::JumpLessEqual => {
            jump_less_equal(cpu);
            None
        },
        Opcode::JumpSignedGreater => {
            jump_signed_greater(cpu);
            None
        },
        Opcode::JumpSignedGreaterEqual => {
            jump_signed_greater_equal(cpu);
            None
        },
        Opcode::JumpSignedLess => {
            jump_signed_less(cpu);
            None
        },
        Opcode::JumpSignedLessEqual => {
            jump_signed_less_equal(cpu);
            None
        },
        Opcode::JumpImm => {
            jump_imm(cpu);
            None
        },
        Opcode::JumpReg => {
            jump_reg(cpu);
            None
        },
        Opcode::Interrupt => {
            interrupt(cpu);
            None
        },
        Opcode::InterruptReturn => {
            interrupt_return(cpu);
            None
        },
        Opcode::Call => {
            call(cpu);
            None
        },
        Opcode::Return => {
            ret(cpu);
            None
        },
        Opcode::Syscall => Some(syscall(cpu)),
        Opcode::ClearCarry => {
            clear_carry(cpu);
            None
        },
        Opcode::Nop => {
            nop(cpu);
            None
        },
    }
}

} // verus!
