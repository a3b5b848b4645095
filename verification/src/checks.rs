//! Run-time tests of whether an instruction can execute: each function here
//! computes, without changing the machine, whether the matching function of
//! `semantics` gives a next state.
use vstd::prelude::*;
use crate::machine::{
    in_bounds, read_le, MachineState, Width, INTERRUPT_FLAG,
    FLAGS, IDT, IP, NUM_REGISTERS, SP,
};
use crate::semantics::{
    location_field, location_len, location_ok, source_ok, source_value,
    target_ok, Condition, Location, Source,
};
use crate::semantics;
use crate::execution::{low, signed};
use crate::opcodes::Opcode;

verus! {

/// The machine state made of the registers `regs` and the memory `mem`.
pub open spec fn state(regs: [u32; NUM_REGISTERS], mem: Seq<u8>) -> MachineState {
    MachineState { regs: regs@, mem }
}

/// The registers with the instruction pointer moved forward by `n`.
fn advanced(regs: &[u32; NUM_REGISTERS], n: u32) -> (r: [u32; NUM_REGISTERS])
    requires
        regs[IP as int] + n <= u32::MAX,
    ensures
        r@ == regs@.update(IP as int, (regs[IP as int] + n) as u32),
{
    let mut r = *regs;
    r[IP] = regs[IP] + n;
    r
}

/// Whether the `w` bytes at `addr` lie within `mem`.
fn fits(mem: &Vec<u8>, addr: u64, w: Width) -> (r: bool)
    ensures
        r == in_bounds(mem@, addr as int, w),
{
    addr <= mem.len() as u64 && (w.size() as u64) <= mem.len() as u64 - addr
}

/// The `w`-wide little-endian value at `addr`.
fn peek(mem: &Vec<u8>, addr: u64, w: Width) -> (v: u32)
    requires
        in_bounds(mem@, addr as int, w),
    ensures
        v == read_le(mem@, addr as int, w),
{
    proof {
        assert(mem@.len() == mem.len());
    }
    let a = addr as usize;
    match w {
        Width::Byte => mem[a] as u32,
        Width::Short => mem[a] as u32 + 0x100 * mem[a + 1] as u32,
        Width::Long => mem[a] as u32 + 0x100 * mem[a + 1] as u32 + 0x1_0000 * mem[a + 2] as u32
            + 0x100_0000 * mem[a + 3] as u32,
    }
}

/// Whether `n` more instruction bytes can be fetched.
fn fetchable(regs: &[u32; NUM_REGISTERS], mem: &Vec<u8>, n: u32) -> (r: bool)
    ensures
        r == state(*regs, mem@).can_fetch(n as int),
{
    let end = regs[IP] as u64 + n as u64;
    end <= mem.len() as u64 && end <= u32::MAX as u64
}

/// The `w`-wide field of the instruction stream `offset` bytes past the
/// instruction pointer.
fn field(regs: &[u32; NUM_REGISTERS], mem: &Vec<u8>, offset: u32, w: Width) -> (v: u32)
    requires
        state(*regs, mem@).can_fetch(offset + w.bytes()),
    ensures
        v == state(*regs, mem@).operand(offset as int, w),
{
    peek(mem, regs[IP] as u64 + offset as u64, w)
}

/// Whether the source operand can be fetched and names what it should.
fn source_fits(regs: &[u32; NUM_REGISTERS], mem: &Vec<u8>, src: Source) -> (r: bool)
    ensures
        r == source_ok(state(*regs, mem@), src),
{
    match src {
        Source::Imm(f) => fetchable(regs, mem, f.size()),
        Source::Reg(f) => fetchable(regs, mem, f.size()) && (field(regs, mem, 0, f) as usize)
            < NUM_REGISTERS,
    }
}

/// The value of the source operand.
fn source(regs: &[u32; NUM_REGISTERS], mem: &Vec<u8>, src: Source, w: Width) -> (v: u32)
    requires
        source_ok(state(*regs, mem@), src),
    ensures
        v == source_value(state(*regs, mem@), src, w),
{
    match src {
        Source::Imm(f) => low(field(regs, mem, 0, f), w),
        Source::Reg(f) => {
            let index = field(regs, mem, 0, f) as usize;
            let after = advanced(regs, f.size());
            low(after[index], w)
        },
    }
}

/// Whether `semantics::mov` can execute.
pub(crate) fn mov_ok(
    regs: &[u32; NUM_REGISTERS],
    mem: &Vec<u8>,
    w: Width,
    dst: Location,
    src: Location,
) -> (r: bool)
    ensures
        r == (semantics::mov(state(*regs, mem@), w, dst, src) is Some),
{
    let dst_len: u32 = match dst {
        Location::Imm => w.size(),
        Location::Reg => 1,
        Location::Ind => 1,
        Location::Abs => 4,
        Location::Mem => 4,
    };
    let src_len: u32 = match src {
        Location::Imm => w.size(),
        Location::Reg => 1,
        Location::Ind => 1,
        Location::Abs => 4,
        Location::Mem => 4,
    };
    if !fetchable(regs, mem, dst_len + src_len) || dst == Location::Imm {
        return false;
    }
    let after = advanced(regs, dst_len + src_len);
    let d = location_value(regs, mem, 0, dst, w);
    let f = location_value(regs, mem, dst_len, src, w);
    location_fits(&after, mem, dst, d, w) && location_fits(&after, mem, src, f, w)
}

/// The field of a move operand `offset` bytes into the operands.
fn location_value(regs: &[u32; NUM_REGISTERS], mem: &Vec<u8>, offset: u32, l: Location, w: Width) -> (v: u32)
    requires
        offset <= 4,
        state(*regs, mem@).can_fetch(offset + location_len(l, w)),
    ensures
        v == location_field(state(*regs, mem@), offset as int, l, w),
{
    match l {
        Location::Imm => field(regs, mem, offset, w),
        Location::Reg => field(regs, mem, offset, Width::Byte),
        Location::Ind => field(regs, mem, offset, Width::Byte),
        Location::Abs => field(regs, mem, offset, Width::Long),
        Location::Mem => field(regs, mem, offset, Width::Long),
    }
}

/// Whether a move operand names a register or a `w`-wide piece of memory.
fn location_fits(regs: &[u32; NUM_REGISTERS], mem: &Vec<u8>, l: Location, f: u32, w: Width) -> (r: bool)
    ensures
        r == location_ok(state(*regs, mem@), l, f as int, w),
{
    match l {
        Location::Imm => true,
        Location::Reg => (f as usize) < NUM_REGISTERS,
        Location::Ind => (f as usize) < NUM_REGISTERS && fits(mem, regs[f as usize] as u64, w),
        Location::Abs => fits(mem, f as u64, w),
        Location::Mem => fits(mem, f as u64 + regs[IP] as u64, w),
    }
}

/// Whether an instruction on register 0 with source operand `src` can
/// execute: `semantics::addition`, `subtraction`, `multiplication`, `and`,
/// `or`, `xor`, `compare`, `signed_mul`, `rotate_left` and `rotate_right`
/// need just the operand.
pub(crate) fn operand_ok(regs: &[u32; NUM_REGISTERS], mem: &Vec<u8>, src: Source) -> (r: bool)
    ensures
        r == source_ok(state(*regs, mem@), src),
{
    source_fits(regs, mem, src)
}

/// Whether `semantics::div` can execute.
pub(crate) fn div_ok(regs: &[u32; NUM_REGISTERS], mem: &Vec<u8>, w: Width, src: Source) -> (r: bool)
    ensures
        r == (semantics::div(state(*regs, mem@), w, src) is Some),
{
    source_fits(regs, mem, src) && source(regs, mem, src, w) != 0
}

/// Whether `semantics::signed_div` can execute.
pub(crate) fn signed_div_ok(regs: &[u32; NUM_REGISTERS], mem: &Vec<u8>, w: Width, src: Source) -> (r: bool)
    ensures
        r == (semantics::signed_div(state(*regs, mem@), w, src) is Some),
{
    if !source_fits(regs, mem, src) {
        return false;
    }
    let a = signed(low(regs[0], w), w);
    let b = signed(source(regs, mem, src, w), w);
    b != 0 && !(a == -((w.range() / 2) as i64) && b == -1)
}

/// Whether a shift of register 0 (`semantics::shift_left`, `shift_right`,
/// `arith_shift_left`, `arith_shift_right`) can execute: the amount must be
/// less than the width.
pub(crate) fn shift_ok(regs: &[u32; NUM_REGISTERS], mem: &Vec<u8>, w: Width, src: Source) -> (r: bool)
    ensures
        r == (source_ok(state(*regs, mem@), src) && source_value(state(*regs, mem@), src, w)
            < w.bits()),
{
    source_fits(regs, mem, src) && source(regs, mem, src, w) < w.bit_count()
}

/// Whether an instruction on a single register operand (`semantics::not`,
/// `increment`, `decrement`, `jump_reg`) can execute.
pub(crate) fn register_ok(regs: &[u32; NUM_REGISTERS], mem: &Vec<u8>) -> (r: bool)
    ensures
        r == target_ok(state(*regs, mem@)),
{
    fetchable(regs, mem, 1) && (field(regs, mem, 0, Width::Byte) as usize) < NUM_REGISTERS
}

/// Whether `semantics::negate` can execute.
pub(crate) fn negate_ok(regs: &[u32; NUM_REGISTERS], mem: &Vec<u8>, w: Width) -> (r: bool)
    ensures
        r == (semantics::negate(state(*regs, mem@), w) is Some),
{
    if !register_ok(regs, mem) {
        return false;
    }
    let index = field(regs, mem, 0, Width::Byte) as usize;
    let after = advanced(regs, 1);
    (low(after[index], w) as u64) != w.range() / 2
}

/// Whether `semantics::push` can execute.
pub(crate) fn push_ok(regs: &[u32; NUM_REGISTERS], mem: &Vec<u8>, w: Width, src: Source) -> (r: bool)
    ensures
        r == (semantics::push(state(*regs, mem@), w, src) is Some),
{
    if regs[SP] < w.size() {
        return false;
    }
    let mut lowered = *regs;
    lowered[SP] = regs[SP] - w.size();
    assert(state(lowered, mem@) == state(*regs, mem@).with_reg(
        SP as int,
        (state(*regs, mem@).sp() - w.bytes()) as u32,
    ));
    source_fits(&lowered, mem, src) && fits(mem, lowered[SP] as u64, w)
}

/// Whether `semantics::pop` can execute.
pub(crate) fn pop_ok(regs: &[u32; NUM_REGISTERS], mem: &Vec<u8>, w: Width) -> (r: bool)
    ensures
        r == (semantics::pop(state(*regs, mem@), w) is Some),
{
    if !register_ok(regs, mem) || !fits(mem, regs[SP] as u64, w) {
        return false;
    }
    let dest = field(regs, mem, 0, Width::Byte) as usize;
    let value = peek(mem, regs[SP] as u64, w);
    let sp = if dest == SP {
        value
    } else {
        regs[SP]
    };
    sp as u64 + w.size() as u64 <= u32::MAX as u64
}

/// Whether `semantics::jump` can execute.
pub(crate) fn jump_ok(regs: &[u32; NUM_REGISTERS], mem: &Vec<u8>) -> (r: bool)
    ensures
        r == state(*regs, mem@).can_fetch(4),
{
    fetchable(regs, mem, 4)
}

/// Whether `semantics::call` can execute.
pub(crate) fn call_ok(regs: &[u32; NUM_REGISTERS], mem: &Vec<u8>) -> (r: bool)
    ensures
        r == (semantics::call(state(*regs, mem@)) is Some),
{
    regs[SP] >= 4 && fetchable(regs, mem, 4) && fits(mem, (regs[SP] - 4) as u64, Width::Long)
}

/// Whether `semantics::ret` (and `interrupt_return`) can execute.
pub(crate) fn ret_ok(regs: &[u32; NUM_REGISTERS], mem: &Vec<u8>) -> (r: bool)
    ensures
        r == (semantics::ret(state(*regs, mem@)) is Some),
{
    fits(mem, regs[SP] as u64, Width::Long) && regs[SP] as u64 + 4 <= u32::MAX as u64
}

/// Whether `semantics::interrupt` can execute.
pub(crate) fn interrupt_ok(regs: &[u32; NUM_REGISTERS], mem: &Vec<u8>) -> (r: bool)
    ensures
        r == (semantics::interrupt(state(*regs, mem@)) is Some),
{
    let flags = regs[FLAGS];
    if flags & INTERRUPT_FLAG == INTERRUPT_FLAG {
        return true;
    }
    if !fetchable(regs, mem, 1) {
        return false;
    }
    let irq = field(regs, mem, 0, Width::Byte) as u64;
    let entry = regs[IDT] as u64 + irq * 4;
    entry <= u32::MAX as u64 && regs[SP] >= 4 && fits(mem, (regs[SP] - 4) as u64, Width::Long)
        && fits(mem, entry, Width::Long)
}

/// Whether `semantics::syscall` can execute.
pub(crate) fn syscall_ok(regs: &[u32; NUM_REGISTERS], mem: &Vec<u8>) -> (r: bool)
    ensures
        r == (semantics::syscall(state(*regs, mem@)) is Some),
{
    fetchable(regs, mem, 1) && field(regs, mem, 0, Width::Byte) <= 3
}

/// Whether `semantics::addition` can execute.
fn addition_can(regs: &[u32; NUM_REGISTERS], mem: &Vec<u8>, w: Width, src: Source, with_carry: bool) -> (r: bool)
    ensures
        r == (semantics::addition(state(*regs, mem@), w, src, with_carry) is Some),
{
    operand_ok(regs, mem, src)
}

/// Whether `semantics::subtraction` can execute.
fn subtraction_can(regs: &[u32; NUM_REGISTERS], mem: &Vec<u8>, w: Width, src: Source, with_borrow: bool) -> (r: bool)
    ensures
        r == (semantics::subtraction(state(*regs, mem@), w, src, with_borrow) is Some),
{
    operand_ok(regs, mem, src)
}

/// Whether `semantics::multiplication` can execute.
fn multiplication_can(regs: &[u32; NUM_REGISTERS], mem: &Vec<u8>, w: Width, src: Source) -> (r: bool)
    ensures
        r == (semantics::multiplication(state(*regs, mem@), w, src) is Some),
{
    operand_ok(regs, mem, src)
}

/// Whether `semantics::signed_mul` can execute.
fn signed_mul_can(regs: &[u32; NUM_REGISTERS], mem: &Vec<u8>, w: Width, src: Source) -> (r: bool)
    ensures
        r == (semantics::signed_mul(state(*regs, mem@), w, src) is Some),
{
    operand_ok(regs, mem, src)
}

/// Whether `semantics::and` can execute.
fn and_can(regs: &[u32; NUM_REGISTERS], mem: &Vec<u8>, w: Width, src: Source) -> (r: bool)
    ensures
        r == (semantics::and(state(*regs, mem@), w, src) is Some),
{
    operand_ok(regs, mem, src)
}

/// Whether `semantics::or` can execute.
fn or_can(regs: &[u32; NUM_REGISTERS], mem: &Vec<u8>, w: Width, src: Source) -> (r: bool)
    ensures
        r == (semantics::or(state(*regs, mem@), w, src) is Some),
{
    operand_ok(regs, mem, src)
}

/// Whether `semantics::xor` can execute.
fn xor_can(regs: &[u32; NUM_REGISTERS], mem: &Vec<u8>, w: Width, src: Source) -> (r: bool)
    ensures
        r == (semantics::xor(state(*regs, mem@), w, src) is Some),
{
    operand_ok(regs, mem, src)
}

/// Whether `semantics::compare` can execute.
fn compare_can(regs: &[u32; NUM_REGISTERS], mem: &Vec<u8>, w: Width, src: Source) -> (r: bool)
    ensures
        r == (semantics::compare(state(*regs, mem@), w, src) is Some),
{
    operand_ok(regs, mem, src)
}

/// Whether `semantics::rotate_left` can execute.
fn rotate_left_can(regs: &[u32; NUM_REGISTERS], mem: &Vec<u8>, w: Width, src: Source) -> (r: bool)
    ensures
        r == (semantics::rotate_left(state(*regs, mem@), w, src) is Some),
{
    operand_ok(regs, mem, src)
}

/// Whether `semantics::rotate_right` can execute.
fn rotate_right_can(regs: &[u32; NUM_REGISTERS], mem: &Vec<u8>, w: Width, src: Source) -> (r: bool)
    ensures
        r == (semantics::rotate_right(state(*regs, mem@), w, src) is Some),
{
    operand_ok(regs, mem, src)
}

/// Whether `semantics::shift_left` can execute.
fn shift_left_can(regs: &[u32; NUM_REGISTERS], mem: &Vec<u8>, w: Width, src: Source) -> (r: bool)
    ensures
        r == (semantics::shift_left(state(*regs, mem@), w, src) is Some),
{
    shift_ok(regs, mem, w, src)
}

/// Whether `semantics::shift_right` can execute.
fn shift_right_can(regs: &[u32; NUM_REGISTERS], mem: &Vec<u8>, w: Width, src: Source) -> (r: bool)
    ensures
        r == (semantics::shift_right(state(*regs, mem@), w, src) is Some),
{
    shift_ok(regs, mem, w, src)
}

/// Whether `semantics::arith_shift_left` can execute.
fn arith_shift_left_can(regs: &[u32; NUM_REGISTERS], mem: &Vec<u8>, w: Width, src: Source) -> (r: bool)
    ensures
        r == (semantics::arith_shift_left(state(*regs, mem@), w, src) is Some),
{
    shift_ok(regs, mem, w, src)
}

/// Whether `semantics::arith_shift_right` can execute.
fn arith_shift_right_can(regs: &[u32; NUM_REGISTERS], mem: &Vec<u8>, w: Width, src: Source) -> (r: bool)
    ensures
        r == (semantics::arith_shift_right(state(*regs, mem@), w, src) is Some),
{
    shift_ok(regs, mem, w, src)
}

/// Whether `semantics::not` can execute.
fn not_can(regs: &[u32; NUM_REGISTERS], mem: &Vec<u8>, w: Width) -> (r: bool)
    ensures
        r == (semantics::not(state(*regs, mem@), w) is Some),
{
    register_ok(regs, mem)
}

/// Whether `semantics::increment` can execute.
fn increment_can(regs: &[u32; NUM_REGISTERS], mem: &Vec<u8>, w: Width) -> (r: bool)
    ensures
        r == (semantics::increment(state(*regs, mem@), w) is Some),
{
    register_ok(regs, mem)
}

/// Whether `semantics::decrement` can execute.
fn decrement_can(regs: &[u32; NUM_REGISTERS], mem: &Vec<u8>, w: Width) -> (r: bool)
    ensures
        r == (semantics::decrement(state(*regs, mem@), w) is Some),
{
    register_ok(regs, mem)
}

/// Whether `semantics::jump_reg` can execute.
fn jump_reg_can(regs: &[u32; NUM_REGISTERS], mem: &Vec<u8>) -> (r: bool)
    ensures
        r == (semantics::jump_reg(state(*regs, mem@)) is Some),
{
    register_ok(regs, mem)
}

/// Whether `semantics::jump` can execute.
fn jump_can(regs: &[u32; NUM_REGISTERS], mem: &Vec<u8>, cond: Condition) -> (r: bool)
    ensures
        r == (semantics::jump(state(*regs, mem@), cond) is Some),
{
    jump_ok(regs, mem)
}

/// Whether `semantics::interrupt_return` can execute.
fn interrupt_return_can(regs: &[u32; NUM_REGISTERS], mem: &Vec<u8>) -> (r: bool)
    ensures
        r == (semantics::interrupt_return(state(*regs, mem@)) is Some),
{
    ret_ok(regs, mem)
}

/// `true` for the moves opcodes.
spec fn is_moves(op: Opcode) -> bool {
    match op {
        Opcode::Hlt
        | Opcode::MoveImmRegByte
        | Opcode::MoveImmRegShort
        | Opcode::MoveImmRegLong
        | Opcode::MoveRegRegByte
        | Opcode::MoveRegRegShort
        | Opcode::MoveRegRegLong
        | Opcode::MoveAbsRegByte
        | Opcode::MoveAbsRegShort
        | Opcode::MoveAbsRegLong
        | Opcode::MoveMemRegByte
        | Opcode::MoveMemRegShort
        | Opcode::MoveMemRegLong
        | Opcode::MoveIndirectRegByte
        | Opcode::MoveIndirectRegShort
        | Opcode::MoveIndirectRegLong
        | Opcode::MoveImmAbsByte
        | Opcode::MoveImmAbsShort
        | Opcode::MoveImmAbsLong
        | Opcode::MoveRegAbsByte
        | Opcode::MoveRegAbsShort
        | Opcode::MoveRegAbsLong
        | Opcode::MoveAbsAbsByte
        | Opcode::MoveAbsAbsShort
        | Opcode::MoveAbsAbsLong
        | Opcode::MoveMemAbsByte
        | Opcode::MoveMemAbsShort
        | Opcode::MoveMemAbsLong
        | Opcode::MoveIndirectAbsByte
        | Opcode::MoveIndirectAbsShort
        | Opcode::MoveIndirectAbsLong
        | Opcode::MoveImmMemByte
        | Opcode::MoveImmMemShort
        | Opcode::MoveImmMemLong
        | Opcode::MoveRegMemByte
        | Opcode::MoveRegMemShort
        | Opcode::MoveRegMemLong
        | Opcode::MoveAbsMemByte
        | Opcode::MoveAbsMemShort
        | Opcode::MoveAbsMemLong
        | Opcode::MoveMemMemByte
        | Opcode::MoveMemMemShort
        | Opcode::MoveMemMemLong
        | Opcode::MoveIndirectMemByte
        | Opcode::MoveIndirectMemShort
        | Opcode::MoveIndirectMemLong
        | Opcode::MoveImmIndirectByte
        | Opcode::MoveImmIndirectShort
        | Opcode::MoveImmIndirectLong
        | Opcode::MoveRegIndirectByte
        | Opcode::MoveRegIndirectShort
        | Opcode::MoveRegIndirectLong
        | Opcode::MoveAbsIndirectByte
        | Opcode::MoveAbsIndirectShort
        | Opcode::MoveAbsIndirectLong
        | Opcode::MoveMemIndirectByte
        | Opcode::MoveMemIndirectShort
        | Opcode::MoveMemIndirectLong
        | Opcode::MoveIndirectIndirectByte
        | Opcode::MoveIndirectIndirectShort
        | Opcode::MoveIndirectIndirectLong => true,
        _ => false,
    }
}

/// Whether the instruction with opcode `op`, one of the moves opcodes, can
/// execute, its opcode byte just fetched.
fn can_execute_moves(regs: &[u32; NUM_REGISTERS], mem: &Vec<u8>, op: Opcode) -> (r: bool)
    requires
        is_moves(op),
    ensures
        r == (semantics::execute(op, state(*regs, mem@)) is Some),
{
    proof {
        reveal(semantics::execute);
    }
    match op {
        Opcode::Hlt => true,
        Opcode::MoveImmRegByte => mov_ok(regs, mem, Width::Byte, Location::Reg, Location::Imm),
        Opcode::MoveImmRegShort => mov_ok(regs, mem, Width::Short, Location::Reg, Location::Imm),
        Opcode::MoveImmRegLong => mov_ok(regs, mem, Width::Long, Location::Reg, Location::Imm),
        Opcode::MoveRegRegByte => mov_ok(regs, mem, Width::Byte, Location::Reg, Location::Reg),
        Opcode::MoveRegRegShort => mov_ok(regs, mem, Width::Short, Location::Reg, Location::Reg),
        Opcode::MoveRegRegLong => mov_ok(regs, mem, Width::Long, Location::Reg, Location::Reg),
        Opcode::MoveAbsRegByte => mov_ok(regs, mem, Width::Byte, Location::Reg, Location::Abs),
        Opcode::MoveAbsRegShort => mov_ok(regs, mem, Width::Short, Location::Reg, Location::Abs),
        Opcode::MoveAbsRegLong => mov_ok(regs, mem, Width::Long, Location::Reg, Location::Abs),
        Opcode::MoveMemRegByte => mov_ok(regs, mem, Width::Byte, Location::Reg, Location::Mem),
        Opcode::MoveMemRegShort => mov_ok(regs, mem, Width::Short, Location::Reg, Location::Mem),
        Opcode::MoveMemRegLong => mov_ok(regs, mem, Width::Long, Location::Reg, Location::Mem),
        Opcode::MoveIndirectRegByte => mov_ok(regs, mem, Width::Byte, Location::Reg, Location::Ind),
        Opcode::MoveIndirectRegShort => mov_ok(regs, mem, Width::Short, Location::Reg, Location::Ind),
        Opcode::MoveIndirectRegLong => mov_ok(regs, mem, Width::Long, Location::Reg, Location::Ind),
        Opcode::MoveImmAbsByte => mov_ok(regs, mem, Width::Byte, Location::Abs, Location::Imm),
        Opcode::MoveImmAbsShort => mov_ok(regs, mem, Width::Short, Location::Abs, Location::Imm),
        Opcode::MoveImmAbsLong => mov_ok(regs, mem, Width::Long, Location::Abs, Location::Imm),
        Opcode::MoveRegAbsByte => mov_ok(regs, mem, Width::Byte, Location::Abs, Location::Reg),
        Opcode::MoveRegAbsShort => mov_ok(regs, mem, Width::Short, Location::Abs, Location::Reg),
        Opcode::MoveRegAbsLong => mov_ok(regs, mem, Width::Long, Location::Abs, Location::Reg),
        Opcode::MoveAbsAbsByte => mov_ok(regs, mem, Width::Byte, Location::Abs, Location::Abs),
        Opcode::MoveAbsAbsShort => mov_ok(regs, mem, Width::Short, Location::Abs, Location::Abs),
        Opcode::MoveAbsAbsLong => mov_ok(regs, mem, Width::Long, Location::Abs, Location::Abs),
        Opcode::MoveMemAbsByte => mov_ok(regs, mem, Width::Byte, Location::Abs, Location::Mem),
        Opcode::MoveMemAbsShort => mov_ok(regs, mem, Width::Short, Location::Abs, Location::Mem),
        Opcode::MoveMemAbsLong => mov_ok(regs, mem, Width::Long, Location::Abs, Location::Mem),
        Opcode::MoveIndirectAbsByte => mov_ok(regs, mem, Width::Byte, Location::Abs, Location::Ind),
        Opcode::MoveIndirectAbsShort => mov_ok(regs, mem, Width::Short, Location::Abs, Location::Ind),
        Opcode::MoveIndirectAbsLong => mov_ok(regs, mem, Width::Long, Location::Abs, Location::Ind),
        Opcode::MoveImmMemByte => mov_ok(regs, mem, Width::Byte, Location::Mem, Location::Imm),
        Opcode::MoveImmMemShort => mov_ok(regs, mem, Width::Short, Location::Mem, Location::Imm),
        Opcode::MoveImmMemLong => mov_ok(regs, mem, Width::Long, Location::Mem, Location::Imm),
        Opcode::MoveRegMemByte => mov_ok(regs, mem, Width::Byte, Location::Mem, Location::Reg),
        Opcode::MoveRegMemShort => mov_ok(regs, mem, Width::Short, Location::Mem, Location::Reg),
        Opcode::MoveRegMemLong => mov_ok(regs, mem, Width::Long, Location::Mem, Location::Reg),
        Opcode::MoveAbsMemByte => mov_ok(regs, mem, Width::Byte, Location::Mem, Location::Abs),
        Opcode::MoveAbsMemShort => mov_ok(regs, mem, Width::Short, Location::Mem, Location::Abs),
        Opcode::MoveAbsMemLong => mov_ok(regs, mem, Width::Long, Location::Mem, Location::Abs),
        Opcode::MoveMemMemByte => mov_ok(regs, mem, Width::Byte, Location::Mem, Location::Mem),
        Opcode::MoveMemMemShort => mov_ok(regs, mem, Width::Short, Location::Mem, Location::Mem),
        Opcode::MoveMemMemLong => mov_ok(regs, mem, Width::Long, Location::Mem, Location::Mem),
        Opcode::MoveIndirectMemByte => mov_ok(regs, mem, Width::Byte, Location::Mem, Location::Ind),
        Opcode::MoveIndirectMemShort => mov_ok(regs, mem, Width::Short, Location::Mem, Location::Ind),
        Opcode::MoveIndirectMemLong => mov_ok(regs, mem, Width::Long, Location::Mem, Location::Ind),
        Opcode::MoveImmIndirectByte => mov_ok(regs, mem, Width::Byte, Location::Ind, Location::Imm),
        Opcode::MoveImmIndirectShort => mov_ok(regs, mem, Width::Short, Location::Ind, Location::Imm),
        Opcode::MoveImmIndirectLong => mov_ok(regs, mem, Width::Long, Location::Ind, Location::Imm),
        Opcode::MoveRegIndirectByte => mov_ok(regs, mem, Width::Byte, Location::Ind, Location::Reg),
        Opcode::MoveRegIndirectShort => mov_ok(regs, mem, Width::Short, Location::Ind, Location::Reg),
        Opcode::MoveRegIndirectLong => mov_ok(regs, mem, Width::Long, Location::Ind, Location::Reg),
        Opcode::MoveAbsIndirectByte => mov_ok(regs, mem, Width::Byte, Location::Ind, Location::Abs),
        Opcode::MoveAbsIndirectShort => mov_ok(regs, mem, Width::Short, Location::Ind, Location::Abs),
        Opcode::MoveAbsIndirectLong => mov_ok(regs, mem, Width::Long, Location::Ind, Location::Abs),
        Opcode::MoveMemIndirectByte => mov_ok(regs, mem, Width::Byte, Location::Ind, Location::Mem),
        Opcode::MoveMemIndirectShort => mov_ok(regs, mem, Width::Short, Location::Ind, Location::Mem),
        Opcode::MoveMemIndirectLong => mov_ok(regs, mem, Width::Long, Location::Ind, Location::Mem),
        Opcode::MoveIndirectIndirectByte => mov_ok(regs, mem, Width::Byte, Location::Ind, Location::Ind),
        Opcode::MoveIndirectIndirectShort => mov_ok(regs, mem, Width::Short, Location::Ind, Location::Ind),
        Opcode::MoveIndirectIndirectLong => mov_ok(regs, mem, Width::Long, Location::Ind, Location::Ind),
        _ => false,
    }
}

/// `true` for the addition and subtraction opcodes.
spec fn is_add_sub(op: Opcode) -> bool {
    match op {
        Opcode::AddByteImm
        | Opcode::AddShortImm
        | Opcode::AddLongImm
        | Opcode::AddByteReg
        | Opcode::AddShortReg
        | Opcode::AddLongReg
        | Opcode::AddCarryByteImm
        | Opcode::AddCarryShortImm
        | Opcode::AddCarryLongImm
        | Opcode::AddCarryByteReg
        | Opcode::AddCarryShortReg
        | Opcode::AddCarryLongReg
        | Opcode::SubByteImm
        | Opcode::SubShortImm
        | Opcode::SubLongImm
        | Opcode::SubByteReg
        | Opcode::SubShortReg
        | Opcode::SubLongReg
        | Opcode::SubBorrowByteImm
        | Opcode::SubBorrowShortImm
        | Opcode::SubBorrowLongImm
        | Opcode::SubBorrowByteReg
        | Opcode::SubBorrowShortReg
        | Opcode::SubBorrowLongReg => true,
        _ => false,
    }
}

/// Whether the instruction with opcode `op`, one of the addition and subtraction opcodes, can
/// execute, its opcode byte just fetched.
fn can_execute_add_sub(regs: &[u32; NUM_REGISTERS], mem: &Vec<u8>, op: Opcode) -> (r: bool)
    requires
        is_add_sub(op),
    ensures
        r == (semantics::execute(op, state(*regs, mem@)) is Some),
{
    proof {
        reveal(semantics::execute);
    }
    match op {
        Opcode::AddByteImm => addition_can(regs, mem, Width::Byte, Source::Imm(Width::Byte), false),
        Opcode::AddShortImm => addition_can(regs, mem, Width::Short, Source::Imm(Width::Short), false),
        Opcode::AddLongImm => addition_can(regs, mem, Width::Long, Source::Imm(Width::Long), false),
        Opcode::AddByteReg => addition_can(regs, mem, Width::Byte, Source::Reg(Width::Byte), false),
        Opcode::AddShortReg => addition_can(regs, mem, Width::Short, Source::Reg(Width::Byte), false),
        Opcode::AddLongReg => addition_can(regs, mem, Width::Long, Source::Reg(Width::Byte), false),
        Opcode::AddCarryByteImm => addition_can(regs, mem, Width::Byte, Source::Imm(Width::Byte), true),
        Opcode::AddCarryShortImm => addition_can(regs, mem, Width::Short, Source::Imm(Width::Short), true),
        Opcode::AddCarryLongImm => addition_can(regs, mem, Width::Long, Source::Imm(Width::Long), true),
        Opcode::AddCarryByteReg => addition_can(regs, mem, Width::Byte, Source::Reg(Width::Byte), true),
        Opcode::AddCarryShortReg => addition_can(regs, mem, Width::Short, Source::Reg(Width::Byte), true),
        Opcode::AddCarryLongReg => addition_can(regs, mem, Width::Long, Source::Reg(Width::Byte), true),
        Opcode::SubByteImm => subtraction_can(regs, mem, Width::Byte, Source::Imm(Width::Byte), false),
        Opcode::SubShortImm => subtraction_can(regs, mem, Width::Short, Source::Imm(Width::Short), false),
        Opcode::SubLongImm => subtraction_can(regs, mem, Width::Long, Source::Imm(Width::Long), false),
        Opcode::SubByteReg => subtraction_can(regs, mem, Width::Byte, Source::Reg(Width::Byte), false),
        Opcode::SubShortReg => subtraction_can(regs, mem, Width::Short, Source::Reg(Width::Byte), false),
        Opcode::SubLongReg => subtraction_can(regs, mem, Width::Long, Source::Reg(Width::Byte), false),
        Opcode::SubBorrowByteImm => subtraction_can(regs, mem, Width::Byte, Source::Imm(Width::Byte), true),
        Opcode::SubBorrowShortImm => subtraction_can(regs, mem, Width::Short, Source::Imm(Width::Short), true),
        Opcode::SubBorrowLongImm => subtraction_can(regs, mem, Width::Long, Source::Imm(Width::Long), true),
        Opcode::SubBorrowByteReg => subtraction_can(regs, mem, Width::Byte, Source::Reg(Width::Byte), true),
        Opcode::SubBorrowShortReg => subtraction_can(regs, mem, Width::Short, Source::Reg(Width::Byte), true),
        Opcode::SubBorrowLongReg => subtraction_can(regs, mem, Width::Long, Source::Reg(Width::Byte), true),
        _ => false,
    }
}

/// `true` for the multiplication and division opcodes.
spec fn is_mul_div(op: Opcode) -> bool {
    match op {
        Opcode::MulByteImm
        | Opcode::MulShortImm
        | Opcode::MulLongImm
        | Opcode::MulByteReg
        | Opcode::MulShortReg
        | Opcode::MulLongReg
        | Opcode::DivByteImm
        | Opcode::DivShortImm
        | Opcode::DivLongImm
        | Opcode::DivByteReg
        | Opcode::DivShortReg
        | Opcode::DivLongReg
        | Opcode::SignedMulByteImm
        | Opcode::SignedMulShortImm
        | Opcode::SignedMulLongImm
        | Opcode::SignedMulByteReg
        | Opcode::SignedMulShortReg
        | Opcode::SignedMulLongReg
        | Opcode::SignedDivByteImm
        | Opcode::SignedDivShortImm
        | Opcode::SignedDivLongImm
        | Opcode::SignedDivByteReg
        | Opcode::SignedDivShortReg
        | Opcode::SignedDivLongReg => true,
        _ => false,
    }
}

/// Whether the instruction with opcode `op`, one of the multiplication and division opcodes, can
/// execute, its opcode byte just fetched.
fn can_execute_mul_div(regs: &[u32; NUM_REGISTERS], mem: &Vec<u8>, op: Opcode) -> (r: bool)
    requires
        is_mul_div(op),
    ensures
        r == (semantics::execute(op, state(*regs, mem@)) is Some),
{
    proof {
        reveal(semantics::execute);
    }
    match op {
        Opcode::MulByteImm => multiplication_can(regs, mem, Width::Byte, Source::Imm(Width::Byte)),
        Opcode::MulShortImm => multiplication_can(regs, mem, Width::Short, Source::Imm(Width::Short)),
        Opcode::MulLongImm => multiplication_can(regs, mem, Width::Long, Source::Imm(Width::Long)),
        Opcode::MulByteReg => multiplication_can(regs, mem, Width::Byte, Source::Reg(Width::Byte)),
        Opcode::MulShortReg => multiplication_can(regs, mem, Width::Short, Source::Reg(Width::Byte)),
        Opcode::MulLongReg => multiplication_can(regs, mem, Width::Long, Source::Reg(Width::Byte)),
        Opcode::DivByteImm => div_ok(regs, mem, Width::Byte, Source::Imm(Width::Byte)),
        Opcode::DivShortImm => div_ok(regs, mem, Width::Short, Source::Imm(Width::Short)),
        Opcode::DivLongImm => div_ok(regs, mem, Width::Long, Source::Imm(Width::Long)),
        Opcode::DivByteReg => div_ok(regs, mem, Width::Byte, Source::Reg(Width::Byte)),
        Opcode::DivShortReg => div_ok(regs, mem, Width::Short, Source::Reg(Width::Byte)),
        Opcode::DivLongReg => div_ok(regs, mem, Width::Long, Source::Reg(Width::Byte)),
        Opcode::SignedMulByteImm => signed_mul_can(regs, mem, Width::Byte, Source::Imm(Width::Byte)),
        Opcode::SignedMulShortImm => signed_mul_can(regs, mem, Width::Short, Source::Imm(Width::Short)),
        Opcode::SignedMulLongImm => signed_mul_can(regs, mem, Width::Long, Source::Imm(Width::Long)),
        Opcode::SignedMulByteReg => signed_mul_can(regs, mem, Width::Byte, Source::Reg(Width::Byte)),
        Opcode::SignedMulShortReg => signed_mul_can(regs, mem, Width::Short, Source::Reg(Width::Byte)),
        Opcode::SignedMulLongReg => signed_mul_can(regs, mem, Width::Long, Source::Reg(Width::Byte)),
        Opcode::SignedDivByteImm => signed_div_ok(regs, mem, Width::Byte, Source::Imm(Width::Byte)),
        Opcode::SignedDivShortImm => signed_div_ok(regs, mem, Width::Short, Source::Imm(Width::Short)),
        Opcode::SignedDivLongImm => signed_div_ok(regs, mem, Width::Long, Source::Imm(Width::Long)),
        Opcode::SignedDivByteReg => signed_div_ok(regs, mem, Width::Byte, Source::Reg(Width::Byte)),
        Opcode::SignedDivShortReg => signed_div_ok(regs, mem, Width::Short, Source::Reg(Width::Byte)),
        Opcode::SignedDivLongReg => signed_div_ok(regs, mem, Width::Long, Source::Reg(Width::Byte)),
        _ => false,
    }
}

/// `true` for the and, or and xor opcodes.
spec fn is_logic(op: Opcode) -> bool {
    match op {
        Opcode::AndByteImm
        | Opcode::AndShortImm
        | Opcode::AndLongImm
        | Opcode::AndByteReg
        | Opcode::AndShortReg
        | Opcode::AndLongReg
        | Opcode::OrByteImm
        | Opcode::OrShortImm
        | Opcode::OrLongImm
        | Opcode::OrByteReg
        | Opcode::OrShortReg
        | Opcode::OrLongReg
        | Opcode::XorByteImm
        | Opcode::XorShortImm
        | Opcode::XorLongImm
        | Opcode::XorByteReg
        | Opcode::XorShortReg
        | Opcode::XorLongReg => true,
        _ => false,
    }
}

/// Whether the instruction with opcode `op`, one of the and, or and xor opcodes, can
/// execute, its opcode byte just fetched.
fn can_execute_logic(regs: &[u32; NUM_REGISTERS], mem: &Vec<u8>, op: Opcode) -> (r: bool)
    requires
        is_logic(op),
    ensures
        r == (semantics::execute(op, state(*regs, mem@)) is Some),
{
    proof {
        reveal(semantics::execute);
    }
    match op {
        Opcode::AndByteImm => and_can(regs, mem, Width::Byte, Source::Imm(Width::Byte)),
        Opcode::AndShortImm => and_can(regs, mem, Width::Short, Source::Imm(Width::Short)),
        Opcode::AndLongImm => and_can(regs, mem, Width::Long, Source::Imm(Width::Long)),
        Opcode::AndByteReg => and_can(regs, mem, Width::Byte, Source::Reg(Width::Byte)),
        Opcode::AndShortReg => and_can(regs, mem, Width::Short, Source::Reg(Width::Byte)),
        Opcode::AndLongReg => and_can(regs, mem, Width::Long, Source::Reg(Width::Byte)),
        Opcode::OrByteImm => or_can(regs, mem, Width::Byte, Source::Imm(Width::Byte)),
        Opcode::OrShortImm => or_can(regs, mem, Width::Short, Source::Imm(Width::Short)),
        Opcode::OrLongImm => or_can(regs, mem, Width::Long, Source::Imm(Width::Long)),
        Opcode::OrByteReg => or_can(regs, mem, Width::Byte, Source::Reg(Width::Byte)),
        Opcode::OrShortReg => or_can(regs, mem, Width::Short, Source::Reg(Width::Byte)),
        Opcode::OrLongReg => or_can(regs, mem, Width::Long, Source::Reg(Width::Byte)),
        Opcode::XorByteImm => xor_can(regs, mem, Width::Byte, Source::Imm(Width::Byte)),
        Opcode::XorShortImm => xor_can(regs, mem, Width::Short, Source::Imm(Width::Short)),
        Opcode::XorLongImm => xor_can(regs, mem, Width::Long, Source::Imm(Width::Long)),
        Opcode::XorByteReg => xor_can(regs, mem, Width::Byte, Source::Reg(Width::Byte)),
        Opcode::XorShortReg => xor_can(regs, mem, Width::Short, Source::Reg(Width::Byte)),
        Opcode::XorLongReg => xor_can(regs, mem, Width::Long, Source::Reg(Width::Byte)),
        _ => false,
    }
}

/// `true` for the push and compare opcodes.
spec fn is_push_compare(op: Opcode) -> bool {
    match op {
        Opcode::PushByteImm
        | Opcode::PushShortImm
        | Opcode::PushLongImm
        | Opcode::PushByteReg
        | Opcode::PushShortReg
        | Opcode::PushLongReg
        | Opcode::CompareByteImm
        | Opcode::CompareShortImm
        | Opcode::CompareLongImm
        | Opcode::CompareByteReg
        | Opcode::CompareShortReg
        | Opcode::CompareLongReg => true,
        _ => false,
    }
}

/// Whether the instruction with opcode `op`, one of the push and compare opcodes, can
/// execute, its opcode byte just fetched.
fn can_execute_push_compare(regs: &[u32; NUM_REGISTERS], mem: &Vec<u8>, op: Opcode) -> (r: bool)
    requires
        is_push_compare(op),
    ensures
        r == (semantics::execute(op, state(*regs, mem@)) is Some),
{
    proof {
        reveal(semantics::execute);
    }
    match op {
        Opcode::PushByteImm => push_ok(regs, mem, Width::Byte, Source::Imm(Width::Byte)),
        Opcode::PushShortImm => push_ok(regs, mem, Width::Short, Source::Imm(Width::Short)),
        Opcode::PushLongImm => push_ok(regs, mem, Width::Long, Source::Imm(Width::Long)),
        Opcode::PushByteReg => push_ok(regs, mem, Width::Byte, Source::Reg(Width::Byte)),
        Opcode::PushShortReg => push_ok(regs, mem, Width::Short, Source::Reg(Width::Byte)),
        Opcode::PushLongReg => push_ok(regs, mem, Width::Long, Source::Reg(Width::Byte)),
        Opcode::CompareByteImm => compare_can(regs, mem, Width::Byte, Source::Imm(Width::Byte)),
        Opcode::CompareShortImm => compare_can(regs, mem, Width::Short, Source::Imm(Width::Short)),
        Opcode::CompareLongImm => compare_can(regs, mem, Width::Long, Source::Imm(Width::Long)),
        Opcode::CompareByteReg => compare_can(regs, mem, Width::Byte, Source::Reg(Width::Byte)),
        Opcode::CompareShortReg => compare_can(regs, mem, Width::Short, Source::Reg(Width::Byte)),
        Opcode::CompareLongReg => compare_can(regs, mem, Width::Long, Source::Reg(Width::Byte)),
        _ => false,
    }
}

/// `true` for the shift opcodes.
spec fn is_shifts(op: Opcode) -> bool {
    match op {
        Opcode::LogShiftLeftByteImm
        | Opcode::LogShiftLeftShortImm
        | Opcode::LogShiftLeftLongImm
        | Opcode::LogShiftLeftByteReg
        | Opcode::LogShiftLeftShortReg
        | Opcode::LogShiftLeftLongReg
        | Opcode::LogShiftRightByteImm
        | Opcode::LogShiftRightShortImm
        | Opcode::LogShiftRightLongImm
        | Opcode::LogShiftRightByteReg
        | Opcode::LogShiftRightShortReg
        | Opcode::LogShiftRightLongReg
        | Opcode::ArithShiftLeftByteImm
        | Opcode::ArithShiftLeftShortImm
        | Opcode::ArithShiftLeftLongImm
        | Opcode::ArithShiftLeftByteReg
        | Opcode::ArithShiftLeftShortReg
        | Opcode::ArithShiftLeftLongReg
        | Opcode::ArithShiftRightByteImm
        | Opcode::ArithShiftRightShortImm
        | Opcode::ArithShiftRightLongImm
        | Opcode::ArithShiftRightByteReg
        | Opcode::ArithShiftRightShortReg
        | Opcode::ArithShiftRightLongReg => true,
        _ => false,
    }
}

/// Whether the instruction with opcode `op`, one of the shift opcodes, can
/// execute, its opcode byte just fetched.
fn can_execute_shifts(regs: &[u32; NUM_REGISTERS], mem: &Vec<u8>, op: Opcode) -> (r: bool)
    requires
        is_shifts(op),
    ensures
        r == (semantics::execute(op, state(*regs, mem@)) is Some),
{
    proof {
        reveal(semantics::execute);
    }
    match op {
        Opcode::LogShiftLeftByteImm => shift_left_can(regs, mem, Width::Byte, Source::Imm(Width::Byte)),
        Opcode::LogShiftLeftShortImm => shift_left_can(regs, mem, Width::Short, Source::Imm(Width::Byte)),
        Opcode::LogShiftLeftLongImm => shift_left_can(regs, mem, Width::Long, Source::Imm(Width::Byte)),
        Opcode::LogShiftLeftByteReg => shift_left_can(regs, mem, Width::Byte, Source::Reg(Width::Byte)),
        Opcode::LogShiftLeftShortReg => shift_left_can(regs, mem, Width::Short, Source::Reg(Width::Byte)),
        Opcode::LogShiftLeftLongReg => shift_left_can(regs, mem, Width::Long, Source::Reg(Width::Byte)),
        Opcode::LogShiftRightByteImm => shift_right_can(regs, mem, Width::Byte, Source::Imm(Width::Byte)),
        Opcode::LogShiftRightShortImm => shift_right_can(regs, mem, Width::Short, Source::Imm(Width::Byte)),
        Opcode::LogShiftRightLongImm => shift_right_can(regs, mem, Width::Long, Source::Imm(Width::Byte)),
        Opcode::LogShiftRightByteReg => shift_right_can(regs, mem, Width::Byte, Source::Reg(Width::Byte)),
        Opcode::LogShiftRightShortReg => shift_right_can(regs, mem, Width::Short, Source::Reg(Width::Byte)),
        Opcode::LogShiftRightLongReg => shift_right_can(regs, mem, Width::Long, Source::Reg(Width::Byte)),
        Opcode::ArithShiftLeftByteImm => shift_left_can(regs, mem, Width::Byte, Source::Imm(Width::Byte)),
        Opcode::ArithShiftLeftShortImm => shift_left_can(regs, mem, Width::Short, Source::Imm(Width::Byte)),
        Opcode::ArithShiftLeftLongImm => shift_left_can(regs, mem, Width::Long, Source::Imm(Width::Byte)),
        Opcode::ArithShiftLeftByteReg => arith_shift_left_can(regs, mem, Width::Byte, Source::Reg(Width::Byte)),
        Opcode::ArithShiftLeftShortReg => arith_shift_left_can(regs, mem, Width::Short, Source::Reg(Width::Byte)),
        Opcode::ArithShiftLeftLongReg => arith_shift_left_can(regs, mem, Width::Long, Source::Reg(Width::Byte)),
        Opcode::ArithShiftRightByteImm => shift_right_can(regs, mem, Width::Byte, Source::Imm(Width::Byte)),
        Opcode::ArithShiftRightShortImm => shift_right_can(regs, mem, Width::Short, Source::Imm(Width::Byte)),
        Opcode::ArithShiftRightLongImm => shift_right_can(regs, mem, Width::Long, Source::Imm(Width::Byte)),
        Opcode::ArithShiftRightByteReg => arith_shift_right_can(regs, mem, Width::Byte, Source::Reg(Width::Byte)),
        Opcode::ArithShiftRightShortReg => arith_shift_right_can(regs, mem, Width::Short, Source::Reg(Width::Byte)),
        Opcode::ArithShiftRightLongReg => arith_shift_right_can(regs, mem, Width::Long, Source::Reg(Width::Byte)),
        _ => false,
    }
}

/// `true` for the rotate opcodes.
spec fn is_rotates(op: Opcode) -> bool {
    match op {
        Opcode::RotateLeftByteImm
        | Opcode::RotateLeftShortImm
        | Opcode::RotateLeftLongImm
        | Opcode::RotateLeftByteReg
        | Opcode::RotateLeftShortReg
        | Opcode::RotateLeftLongReg
        | Opcode::RotateRightByteImm
        | Opcode::RotateRightShortImm
        | Opcode::RotateRightLongImm
        | Opcode::RotateRightByteReg
        | Opcode::RotateRightShortReg
        | Opcode::RotateRightLongReg => true,
        _ => false,
    }
}

/// Whether the instruction with opcode `op`, one of the rotate opcodes, can
/// execute, its opcode byte just fetched.
fn can_execute_rotates(regs: &[u32; NUM_REGISTERS], mem: &Vec<u8>, op: Opcode) -> (r: bool)
    requires
        is_rotates(op),
    ensures
        r == (semantics::execute(op, state(*regs, mem@)) is Some),
{
    proof {
        reveal(semantics::execute);
    }
    match op {
        Opcode::RotateLeftByteImm => rotate_left_can(regs, mem, Width::Byte, Source::Imm(Width::Byte)),
        Opcode::RotateLeftShortImm => rotate_left_can(regs, mem, Width::Short, Source::Imm(Width::Byte)),
        Opcode::RotateLeftLongImm => rotate_left_can(regs, mem, Width::Long, Source::Imm(Width::Byte)),
        Opcode::RotateLeftByteReg => rotate_left_can(regs, mem, Width::Byte, Source::Reg(Width::Byte)),
        Opcode::RotateLeftShortReg => rotate_left_can(regs, mem, Width::Short, Source::Reg(Width::Byte)),
        Opcode::RotateLeftLongReg => rotate_left_can(regs, mem, Width::Long, Source::Reg(Width::Byte)),
        Opcode::RotateRightByteImm => rotate_right_can(regs, mem, Width::Byte, Source::Imm(Width::Byte)),
        Opcode::RotateRightShortImm => rotate_right_can(regs, mem, Width::Short, Source::Imm(Width::Byte)),
        Opcode::RotateRightLongImm => rotate_right_can(regs, mem, Width::Long, Source::Imm(Width::Byte)),
        Opcode::RotateRightByteReg => rotate_right_can(regs, mem, Width::Byte, Source::Reg(Width::Byte)),
        Opcode::RotateRightShortReg => rotate_right_can(regs, mem, Width::Short, Source::Reg(Width::Byte)),
        Opcode::RotateRightLongReg => rotate_right_can(regs, mem, Width::Long, Source::Reg(Width::Byte)),
        _ => false,
    }
}

/// `true` for the pop, single-register and control-flow opcodes.
spec fn is_control(op: Opcode) -> bool {
    match op {
        Opcode::PopByte
        | Opcode::PopShort
        | Opcode::PopLong
        | Opcode::NegateByte
        | Opcode::NegateShort
        | Opcode::NegateLong
        | Opcode::NotByte
        | Opcode::NotShort
        | Opcode::NotLong
        | Opcode::IncrementByte
        | Opcode::IncrementShort
        | Opcode::IncrementLong
        | Opcode::DecrementByte
        | Opcode::DecrementShort
        | Opcode::DecrementLong
        | Opcode::JumpEqual
        | Opcode::JumpNotEqual
        | Opcode::JumpGreater
        | Opcode::JumpGreaterEqual
        | Opcode::JumpLess
        | Opcode::JumpLessEqual
        | Opcode::JumpSignedGreater
        | Opcode::JumpSignedGreaterEqual
        | Opcode::JumpSignedLess
        | Opcode::JumpSignedLessEqual
        | Opcode::JumpImm
        | Opcode::JumpReg
        | Opcode::Interrupt
        | Opcode::InterruptReturn
        | Opcode::Call
        | Opcode::Return
        | Opcode::Syscall
        | Opcode::ClearCarry
        | Opcode::Nop => true,
        _ => false,
    }
}

/// Whether the instruction with opcode `op`, one of the pop, single-register and control-flow opcodes, can
/// execute, its opcode byte just fetched.
fn can_execute_control(regs: &[u32; NUM_REGISTERS], mem: &Vec<u8>, op: Opcode) -> (r: bool)
    requires
        is_control(op),
    ensures
        r == (semantics::execute(op, state(*regs, mem@)) is Some),
{
    proof {
        reveal(semantics::execute);
    }
    match op {
        Opcode::PopByte => pop_ok(regs, mem, Width::Byte),
        Opcode::PopShort => pop_ok(regs, mem, Width::Short),
        Opcode::PopLong => pop_ok(regs, mem, Width::Long),
        Opcode::NegateByte => negate_ok(regs, mem, Width::Byte),
        Opcode::NegateShort => negate_ok(regs, mem, Width::Short),
        Opcode::NegateLong => negate_ok(regs, mem, Width::Long),
        Opcode::NotByte => not_can(regs, mem, Width::Byte),
        Opcode::NotShort => not_can(regs, mem, Width::Short),
        Opcode::NotLong => not_can(regs, mem, Width::Long),
        Opcode::IncrementByte => increment_can(regs, mem, Width::Byte),
        Opcode::IncrementShort => increment_can(regs, mem, Width::Short),
        Opcode::IncrementLong => increment_can(regs, mem, Width::Long),
        Opcode::DecrementByte => decrement_can(regs, mem, Width::Byte),
        Opcode::DecrementShort => decrement_can(regs, mem, Width::Short),
        Opcode::DecrementLong => decrement_can(regs, mem, Width::Long),
        Opcode::JumpEqual => jump_can(regs, mem, Condition::Equal),
        Opcode::JumpNotEqual => jump_can(regs, mem, Condition::NotEqual),
        Opcode::JumpGreater => jump_can(regs, mem, Condition::Greater),
        Opcode::JumpGreaterEqual => jump_can(regs, mem, Condition::GreaterEqual),
        Opcode::JumpLess => jump_can(regs, mem, Condition::Less),
        Opcode::JumpLessEqual => jump_can(regs, mem, Condition::LessEqual),
        Opcode::JumpSignedGreater => jump_can(regs, mem, Condition::SignedGreater),
        Opcode::JumpSignedGreaterEqual => jump_can(regs, mem, Condition::SignedGreaterEqual),
        Opcode::JumpSignedLess => jump_can(regs, mem, Condition::SignedLess),
        Opcode::JumpSignedLessEqual => jump_can(regs, mem, Condition::SignedLessEqual),
        Opcode::JumpImm => jump_can(regs, mem, Condition::Always),
        Opcode::JumpReg => jump_reg_can(regs, mem),
        Opcode::Interrupt => interrupt_ok(regs, mem),
        Opcode::InterruptReturn => interrupt_return_can(regs, mem),
        Opcode::Call => call_ok(regs, mem),
        Opcode::Return => ret_ok(regs, mem),
        Opcode::Syscall => syscall_ok(regs, mem),
        Opcode::ClearCarry => true,
        Opcode::Nop => true,
        _ => false,
    }
}

/// Whether the instruction with opcode `op` can execute, its opcode byte just fetched.
pub fn can_execute(regs: &[u32; NUM_REGISTERS], mem: &Vec<u8>, op: Opcode) -> (r: bool)
    ensures
        r == (semantics::execute(op, state(*regs, mem@)) is Some),
{
    match op {
        Opcode::Hlt
        | Opcode::MoveImmRegByte
        | Opcode::MoveImmRegShort
        | Opcode::MoveImmRegLong
        | Opcode::MoveRegRegByte
        | Opcode::MoveRegRegShort
        | Opcode::MoveRegRegLong
        | Opcode::MoveAbsRegByte
        | Opcode::MoveAbsRegShort
        | Opcode::MoveAbsRegLong
        | Opcode::MoveMemRegByte
        | Opcode::MoveMemRegShort
        | Opcode::MoveMemRegLong
        | Opcode::MoveIndirectRegByte
        | Opcode::MoveIndirectRegShort
        | Opcode::MoveIndirectRegLong
        | Opcode::MoveImmAbsByte
        | Opcode::MoveImmAbsShort
        | Opcode::MoveImmAbsLong
        | Opcode::MoveRegAbsByte
        | Opcode::MoveRegAbsShort
        | Opcode::MoveRegAbsLong
        | Opcode::MoveAbsAbsByte
        | Opcode::MoveAbsAbsShort
        | Opcode::MoveAbsAbsLong
        | Opcode::MoveMemAbsByte
        | Opcode::MoveMemAbsShort
        | Opcode::MoveMemAbsLong
        | Opcode::MoveIndirectAbsByte
        | Opcode::MoveIndirectAbsShort
        | Opcode::MoveIndirectAbsLong
        | Opcode::MoveImmMemByte
        | Opcode::MoveImmMemShort
        | Opcode::MoveImmMemLong
        | Opcode::MoveRegMemByte
        | Opcode::MoveRegMemShort
        | Opcode::MoveRegMemLong
        | Opcode::MoveAbsMemByte
        | Opcode::MoveAbsMemShort
        | Opcode::MoveAbsMemLong
        | Opcode::MoveMemMemByte
        | Opcode::MoveMemMemShort
        | Opcode::MoveMemMemLong
        | Opcode::MoveIndirectMemByte
        | Opcode::MoveIndirectMemShort
        | Opcode::MoveIndirectMemLong
        | Opcode::MoveImmIndirectByte
        | Opcode::MoveImmIndirectShort
        | Opcode::MoveImmIndirectLong
        | Opcode::MoveRegIndirectByte
        | Opcode::MoveRegIndirectShort
        | Opcode::MoveRegIndirectLong
        | Opcode::MoveAbsIndirectByte
        | Opcode::MoveAbsIndirectShort
        | Opcode::MoveAbsIndirectLong
        | Opcode::MoveMemIndirectByte
        | Opcode::MoveMemIndirectShort
        | Opcode::MoveMemIndirectLong
        | Opcode::MoveIndirectIndirectByte
        | Opcode::MoveIndirectIndirectShort
        | Opcode::MoveIndirectIndirectLong => can_execute_moves(regs, mem, op),
        Opcode::AddByteImm
        | Opcode::AddShortImm
        | Opcode::AddLongImm
        | Opcode::AddByteReg
        | Opcode::AddShortReg
        | Opcode::AddLongReg
        | Opcode::AddCarryByteImm
        | Opcode::AddCarryShortImm
        | Opcode::AddCarryLongImm
        | Opcode::AddCarryByteReg
        | Opcode::AddCarryShortReg
        | Opcode::AddCarryLongReg
        | Opcode::SubByteImm
        | Opcode::SubShortImm
        | Opcode::SubLongImm
        | Opcode::SubByteReg
        | Opcode::SubShortReg
        | Opcode::SubLongReg
        | Opcode::SubBorrowByteImm
        | Opcode::SubBorrowShortImm
        | Opcode::SubBorrowLongImm
        | Opcode::SubBorrowByteReg
        | Opcode::SubBorrowShortReg
        | Opcode::SubBorrowLongReg => can_execute_add_sub(regs, mem, op),
        Opcode::MulByteImm
        | Opcode::MulShortImm
        | Opcode::MulLongImm
        | Opcode::MulByteReg
        | Opcode::MulShortReg
        | Opcode::MulLongReg
        | Opcode::DivByteImm
        | Opcode::DivShortImm
        | Opcode::DivLongImm
        | Opcode::DivByteReg
        | Opcode::DivShortReg
        | Opcode::DivLongReg
        | Opcode::SignedMulByteImm
        | Opcode::SignedMulShortImm
        | Opcode::SignedMulLongImm
        | Opcode::SignedMulByteReg
        | Opcode::SignedMulShortReg
        | Opcode::SignedMulLongReg
        | Opcode::SignedDivByteImm
        | Opcode::SignedDivShortImm
        | Opcode::SignedDivLongImm
        | Opcode::SignedDivByteReg
        | Opcode::SignedDivShortReg
        | Opcode::SignedDivLongReg => can_execute_mul_div(regs, mem, op),
        Opcode::AndByteImm
        | Opcode::AndShortImm
        | Opcode::AndLongImm
        | Opcode::AndByteReg
        | Opcode::AndShortReg
        | Opcode::AndLongReg
        | Opcode::OrByteImm
        | Opcode::OrShortImm
        | Opcode::OrLongImm
        | Opcode::OrByteReg
        | Opcode::OrShortReg
        | Opcode::OrLongReg
        | Opcode::XorByteImm
        | Opcode::XorShortImm
        | Opcode::XorLongImm
        | Opcode::XorByteReg
        | Opcode::XorShortReg
        | Opcode::XorLongReg => can_execute_logic(regs, mem, op),
        Opcode::PushByteImm
        | Opcode::PushShortImm
        | Opcode::PushLongImm
        | Opcode::PushByteReg
        | Opcode::PushShortReg
        | Opcode::PushLongReg
        | Opcode::CompareByteImm
        | Opcode::CompareShortImm
        | Opcode::CompareLongImm
        | Opcode::CompareByteReg
        | Opcode::CompareShortReg
        | Opcode::CompareLongReg => can_execute_push_compare(regs, mem, op),
        Opcode::LogShiftLeftByteImm
        | Opcode::LogShiftLeftShortImm
        | Opcode::LogShiftLeftLongImm
        | Opcode::LogShiftLeftByteReg
        | Opcode::LogShiftLeftShortReg
        | Opcode::LogShiftLeftLongReg
        | Opcode::LogShiftRightByteImm
        | Opcode::LogShiftRightShortImm
        | Opcode::LogShiftRightLongImm
        | Opcode::LogShiftRightByteReg
        | Opcode::LogShiftRightShortReg
        | Opcode::LogShiftRightLongReg
        | Opcode::ArithShiftLeftByteImm
        | Opcode::ArithShiftLeftShortImm
        | Opcode::ArithShiftLeftLongImm
        | Opcode::ArithShiftLeftByteReg
        | Opcode::ArithShiftLeftShortReg
        | Opcode::ArithShiftLeftLongReg
        | Opcode::ArithShiftRightByteImm
        | Opcode::ArithShiftRightShortImm
        | Opcode::ArithShiftRightLongImm
        | Opcode::ArithShiftRightByteReg
        | Opcode::ArithShiftRightShortReg
        | Opcode::ArithShiftRightLongReg => can_execute_shifts(regs, mem, op),
        Opcode::RotateLeftByteImm
        | Opcode::RotateLeftShortImm
        | Opcode::RotateLeftLongImm
        | Opcode::RotateLeftByteReg
        | Opcode::RotateLeftShortReg
        | Opcode::RotateLeftLongReg
        | Opcode::RotateRightByteImm
        | Opcode::RotateRightShortImm
        | Opcode::RotateRightLongImm
        | Opcode::RotateRightByteReg
        | Opcode::RotateRightShortReg
        | Opcode::RotateRightLongReg => can_execute_rotates(regs, mem, op),
        Opcode::PopByte
        | Opcode::PopShort
        | Opcode::PopLong
        | Opcode::NegateByte
        | Opcode::NegateShort
        | Opcode::NegateLong
        | Opcode::NotByte
        | Opcode::NotShort
        | Opcode::NotLong
        | Opcode::IncrementByte
        | Opcode::IncrementShort
        | Opcode::IncrementLong
        | Opcode::DecrementByte
        | Opcode::DecrementShort
        | Opcode::DecrementLong
        | Opcode::JumpEqual
        | Opcode::JumpNotEqual
        | Opcode::JumpGreater
        | Opcode::JumpGreaterEqual
        | Opcode::JumpLess
        | Opcode::JumpLessEqual
        | Opcode::JumpSignedGreater
        | Opcode::JumpSignedGreaterEqual
        | Opcode::JumpSignedLess
        | Opcode::JumpSignedLessEqual
        | Opcode::JumpImm
        | Opcode::JumpReg
        | Opcode::Interrupt
        | Opcode::InterruptReturn
        | Opcode::Call
        | Opcode::Return
        | Opcode::Syscall
        | Opcode::ClearCarry
        | Opcode::Nop => can_execute_control(regs, mem, op),
    }
}

} // verus!
