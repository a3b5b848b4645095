//! What each instruction does to the machine.
//!
//! Every function here takes the state `s` right after the opcode byte was
//! fetched (the instruction pointer at the first operand byte) and gives the
//! state after the instruction, or `None` when the instruction cannot execute
//! there (an operand outside memory, a byte that names no register, a
//! division by zero, a stack that would underflow, ...).
use vstd::prelude::*;
use vstd::arithmetic::power2::pow2;
use crate::machine::{
    in_bounds, is_register, low_bits, sign_extend, to_signed, wrap32, MachineState, Width,
    CARRY_FLAG, HALT_FLAG, IDT, INTERRUPT_FLAG, IP, SP,
};
use crate::opcodes::Opcode;

verus! {

/// Where an arithmetic or logic instruction takes its second operand from.
#[derive(Clone, Copy, PartialEq, Eq, Structural, Debug)]
pub enum Source {
    /// The operand itself follows the opcode, this wide.
    Imm(Width),
    /// The index of the register holding the operand follows the opcode, this wide.
    Reg(Width),
}

impl Source {
    /// The width of the field that follows the opcode.
    pub open spec fn field(self) -> Width {
        match self {
            Source::Imm(f) => f,
            Source::Reg(f) => f,
        }
    }

    /// The number of instruction bytes the operand takes.
    pub open spec fn len(self) -> int {
        self.field().bytes() as int
    }
}

/// Where a move reads its value or writes it.
#[derive(Clone, Copy, PartialEq, Eq, Structural, Debug)]
pub enum Location {
    /// The value itself follows the opcode (a source only).
    Imm,
    /// A register, whose index follows the opcode in one byte.
    Reg,
    /// Memory at the absolute address that follows the opcode in four bytes.
    Abs,
    /// Memory at the four-byte offset that follows the opcode, relative to the
    /// address just past the instruction.
    Mem,
    /// Memory at the address held by the register whose index follows the opcode.
    Ind,
}

/// The test a conditional jump applies to registers 0 and 1.
#[derive(Clone, Copy, PartialEq, Eq, Structural, Debug)]
pub enum Condition {
    Always,
    Equal,
    NotEqual,
    Greater,
    GreaterEqual,
    Less,
    LessEqual,
    SignedGreater,
    SignedGreaterEqual,
    SignedLess,
    SignedLessEqual,
}

/// The requests an instruction can make to the host.
#[derive(Clone, Copy, PartialEq, Eq, Structural, Debug)]
pub enum Syscall {
    /// Log the memory between the addresses in registers 0 and 1.
    LogMemory,
    /// Log the string at the address in register 0.
    Log,
    /// Print the string at the address in register 0.
    PrintString,
    /// Print the register whose index register 0 holds.
    PrintRegister,
}

/// The host request numbered `n`.
pub open spec fn syscall_number(n: int) -> Option<Syscall> {
    if n == 0 {
        Some(Syscall::LogMemory)
    } else if n == 1 {
        Some(Syscall::Log)
    } else if n == 2 {
        Some(Syscall::PrintString)
    } else if n == 3 {
        Some(Syscall::PrintRegister)
    } else {
        None
    }
}

// ---------------------------------------------------------------------------
// Operands

/// `true` when the source operand can be fetched and, for a register, names one.
pub open spec fn source_ok(s: MachineState, src: Source) -> bool {
    &&& s.can_fetch(src.len())
    &&& match src {
        Source::Imm(_) => true,
        Source::Reg(f) => is_register(s.operand(0, f)),
    }
}

/// The low `w` bits of the source operand: of the immediate, or of the
/// register, read once the operand has been fetched.
pub open spec fn source_value(s: MachineState, src: Source, w: Width) -> int {
    match src {
        Source::Imm(f) => low_bits(s.operand(0, f), w),
        Source::Reg(f) => low_bits(s.advance(src.len()).reg(s.operand(0, f)) as int, w),
    }
}

/// The low `w` bits of register 0.
pub open spec fn accumulator(s: MachineState, w: Width) -> int {
    low_bits(s.reg(0) as int, w)
}

/// The number of instruction bytes a move operand takes.
pub open spec fn location_len(l: Location, w: Width) -> int {
    match l {
        Location::Imm => w.bytes() as int,
        Location::Reg => 1,
        Location::Ind => 1,
        Location::Abs => 4,
        Location::Mem => 4,
    }
}

/// The field of a move operand found `offset` bytes into the operands.
pub open spec fn location_field(s: MachineState, offset: int, l: Location, w: Width) -> int {
    match l {
        Location::Imm => s.operand(offset, w),
        Location::Reg => s.operand(offset, Width::Byte),
        Location::Ind => s.operand(offset, Width::Byte),
        Location::Abs => s.operand(offset, Width::Long),
        Location::Mem => s.operand(offset, Width::Long),
    }
}

/// The memory address a move operand with field `field` denotes once the
/// whole instruction has been fetched (in `t`).
pub open spec fn location_address(t: MachineState, l: Location, field: int) -> int {
    match l {
        Location::Abs => field,
        Location::Mem => field + t.ip(),
        Location::Ind => t.reg(field) as int,
        _ => 0,
    }
}

/// `true` when the move operand names a register or a `w`-wide piece of memory.
pub open spec fn location_ok(t: MachineState, l: Location, field: int, w: Width) -> bool {
    match l {
        Location::Imm => true,
        Location::Reg => is_register(field),
        Location::Ind => is_register(field) && in_bounds(t.mem, location_address(t, l, field), w),
        _ => in_bounds(t.mem, location_address(t, l, field), w),
    }
}

/// `true` when `cond` holds of the values `a` (register 0) and `b` (register 1).
pub open spec fn condition_holds(cond: Condition, a: u32, b: u32) -> bool {
    let sa = to_signed(a as int, Width::Long);
    let sb = to_signed(b as int, Width::Long);
    match cond {
        Condition::Always => true,
        Condition::Equal => a == b,
        Condition::NotEqual => a != b,
        Condition::Greater => a > b,
        Condition::GreaterEqual => a >= b,
        Condition::Less => a < b,
        Condition::LessEqual => a <= b,
        Condition::SignedGreater => sa > sb,
        Condition::SignedGreaterEqual => sa >= sb,
        Condition::SignedLess => sa < sb,
        Condition::SignedLessEqual => sa <= sb,
    }
}

/// `a / b`, rounded toward zero.
pub open spec fn quotient_toward_zero(a: int, b: int) -> int {
    let q = (if a < 0 { -a } else { a }) / (if b < 0 { -b } else { b });
    if (a < 0) == (b < 0) {
        q
    } else {
        -q
    }
}

/// The value `x` (of width `w`) rotated left by `k` bits, `0 <= k < w.bits()`.
pub open spec fn rotated(x: int, k: nat, w: Width) -> int {
    let p = x * pow2(k);
    p % (w.modulus() as int) + p / (w.modulus() as int)
}

// ---------------------------------------------------------------------------
// Moves

/// Copies a `w`-wide value from `src` to `dst`. The destination operand comes
/// first in the instruction, the source second; a register destination
/// receives the value zero-extended, a register source gives its low `w` bits.
pub open spec fn mov(s: MachineState, w: Width, dst: Location, src: Location) -> Option<
    MachineState,
> {
    let n = location_len(dst, w) + location_len(src, w);
    let t = s.advance(n);
    let d = location_field(s, 0, dst, w);
    let f = location_field(s, location_len(dst, w), src, w);
    if !s.can_fetch(n) || dst == Location::Imm || !location_ok(t, dst, d, w) || !location_ok(
        t,
        src,
        f,
        w,
    ) {
        None
    } else {
        let v = match src {
            Location::Imm => f,
            Location::Reg => low_bits(t.reg(f) as int, w),
            _ => t.load(location_address(t, src, f), w),
        };
        match dst {
            Location::Reg => Some(t.with_reg(d, v as u32)),
            _ => Some(t.with_mem(location_address(t, dst, d), w, v)),
        }
    }
}

// ---------------------------------------------------------------------------
// Arithmetic on register 0

/// Adds the operand, and the carry flag when `with_carry`, to the low `w` bits
/// of register 0; the carry flag tells whether the sum needs more than `w` bits.
pub open spec fn addition(s: MachineState, w: Width, src: Source, with_carry: bool) -> Option<
    MachineState,
> {
    if !source_ok(s, src) {
        None
    } else {
        let carry: int = if with_carry && s.has_flag(CARRY_FLAG) {
            1
        } else {
            0
        };
        let sum = accumulator(s, w) + source_value(s, src, w) + carry;
        Some(
            s.advance(src.len()).with_reg(0, low_bits(sum, w) as u32).with_flag(
                CARRY_FLAG,
                sum >= w.modulus(),
            ),
        )
    }
}

/// Subtracts the operand, and the carry flag when `with_borrow`, from the low
/// `w` bits of register 0, wrapping around; the carry flag tells whether the
/// difference is negative.
pub open spec fn subtraction(s: MachineState, w: Width, src: Source, with_borrow: bool) -> Option<
    MachineState,
> {
    if !source_ok(s, src) {
        None
    } else {
        let borrow: int = if with_borrow && s.has_flag(CARRY_FLAG) {
            1
        } else {
            0
        };
        let diff = accumulator(s, w) - source_value(s, src, w) - borrow;
        Some(
            s.advance(src.len()).with_reg(0, low_bits(diff, w) as u32).with_flag(
                CARRY_FLAG,
                diff < 0,
            ),
        )
    }
}

/// Multiplies the low `w` bits of register 0 by the operand, keeping the low `w` bits.
pub open spec fn multiplication(s: MachineState, w: Width, src: Source) -> Option<MachineState> {
    if !source_ok(s, src) {
        None
    } else {
        let product = accumulator(s, w) * source_value(s, src, w);
        Some(s.advance(src.len()).with_reg(0, low_bits(product, w) as u32))
    }
}

/// Divides the low `w` bits of register 0 by the operand: register 0 receives
/// the quotient and register 1 the remainder. The operand must not be zero.
pub open spec fn div(s: MachineState, w: Width, src: Source) -> Option<MachineState> {
    let a = accumulator(s, w);
    let b = source_value(s, src, w);
    if !source_ok(s, src) || b == 0 {
        None
    } else {
        Some(s.advance(src.len()).with_reg(0, (a / b) as u32).with_reg(1, (a % b) as u32))
    }
}

/// Multiplies register 0 by the operand as `w`-wide two's complement numbers;
/// the low `w` bits of the product, sign-extended, go to register 0.
pub open spec fn signed_mul(s: MachineState, w: Width, src: Source) -> Option<MachineState> {
    if !source_ok(s, src) {
        None
    } else {
        let product = accumulator(s, w) * source_value(s, src, w);
        Some(s.advance(src.len()).with_reg(0, sign_extend(low_bits(product, w), w)))
    }
}

/// Divides register 0 by the operand as `w`-wide two's complement numbers,
/// rounding toward zero: register 0 receives the quotient and register 1 the
/// remainder (with the sign of the dividend), both sign-extended. The divisor
/// must not be zero, and the quotient must fit in `w` bits.
pub open spec fn signed_div(s: MachineState, w: Width, src: Source) -> Option<MachineState> {
    let a = to_signed(accumulator(s, w), w);
    let b = to_signed(source_value(s, src, w), w);
    let q = quotient_toward_zero(a, b);
    if !source_ok(s, src) || b == 0 || (a == -(w.modulus() / 2) && b == -1) {
        None
    } else {
        Some(s.advance(src.len()).with_reg(0, wrap32(q)).with_reg(1, wrap32(a - b * q)))
    }
}

// ---------------------------------------------------------------------------
// Logic on register 0

/// Bitwise and of the low `w` bits of register 0 with the operand.
pub open spec fn and(s: MachineState, w: Width, src: Source) -> Option<MachineState> {
    if !source_ok(s, src) {
        None
    } else {
        Some(
            s.advance(src.len()).with_reg(
                0,
                (accumulator(s, w) as u32) & (source_value(s, src, w) as u32),
            ),
        )
    }
}

/// Bitwise or of the low `w` bits of register 0 with the operand.
pub open spec fn or(s: MachineState, w: Width, src: Source) -> Option<MachineState> {
    if !source_ok(s, src) {
        None
    } else {
        Some(
            s.advance(src.len()).with_reg(
                0,
                (accumulator(s, w) as u32) | (source_value(s, src, w) as u32),
            ),
        )
    }
}

/// Bitwise exclusive or of the low `w` bits of register 0 with the operand.
pub open spec fn xor(s: MachineState, w: Width, src: Source) -> Option<MachineState> {
    if !source_ok(s, src) {
        None
    } else {
        Some(
            s.advance(src.len()).with_reg(
                0,
                (accumulator(s, w) as u32) ^ (source_value(s, src, w) as u32),
            ),
        )
    }
}

/// Register 0 becomes 1 when its low `w` bits equal the operand, 0 otherwise.
pub open spec fn compare(s: MachineState, w: Width, src: Source) -> Option<MachineState> {
    if !source_ok(s, src) {
        None
    } else {
        Some(
            s.advance(src.len()).with_reg(
                0,
                if accumulator(s, w) == source_value(s, src, w) {
                    1
                } else {
                    0
                },
            ),
        )
    }
}

// ---------------------------------------------------------------------------
// Shifts and rotations of register 0

/// Shifts the low `w` bits of register 0 left by the operand (less than `w`
/// bits), keeping `w` bits, zero-extended.
pub open spec fn shift_left(s: MachineState, w: Width, src: Source) -> Option<MachineState> {
    let k = source_value(s, src, w);
    if !source_ok(s, src) || k >= w.bits() {
        None
    } else {
        Some(
            s.advance(src.len()).with_reg(0, low_bits(accumulator(s, w) * pow2(k as nat), w) as u32),
        )
    }
}

/// Shifts the low `w` bits of register 0 right by the operand (less than `w`
/// bits), filling with zeros.
pub open spec fn shift_right(s: MachineState, w: Width, src: Source) -> Option<MachineState> {
    let k = source_value(s, src, w);
    if !source_ok(s, src) || k >= w.bits() {
        None
    } else {
        Some(s.advance(src.len()).with_reg(0, (accumulator(s, w) / (pow2(k as nat) as int)) as u32))
    }
}

/// Shifts the low `w` bits of register 0 left by the operand (less than `w`
/// bits), keeping `w` bits, and sign-extends the result.
pub open spec fn arith_shift_left(s: MachineState, w: Width, src: Source) -> Option<MachineState> {
    let k = source_value(s, src, w);
    if !source_ok(s, src) || k >= w.bits() {
        None
    } else {
        Some(
            s.advance(src.len()).with_reg(
                0,
                sign_extend(low_bits(accumulator(s, w) * pow2(k as nat), w), w),
            ),
        )
    }
}

/// Divides register 0, as a `w`-wide two's complement number, by 2 to the
/// operand (less than `w` bits), rounding down, and sign-extends the result.
pub open spec fn arith_shift_right(s: MachineState, w: Width, src: Source) -> Option<
    MachineState,
> {
    let k = source_value(s, src, w);
    if !source_ok(s, src) || k >= w.bits() {
        None
    } else {
        Some(
            s.advance(src.len()).with_reg(
                0,
                wrap32(to_signed(accumulator(s, w), w) / (pow2(k as nat) as int)),
            ),
        )
    }
}

/// Rotates the low `w` bits of register 0 left by the operand, modulo `w` bits.
pub open spec fn rotate_left(s: MachineState, w: Width, src: Source) -> Option<MachineState> {
    let k = (source_value(s, src, Width::Long) % (w.bits() as int)) as nat;
    if !source_ok(s, src) {
        None
    } else {
        Some(s.advance(src.len()).with_reg(0, rotated(accumulator(s, w), k, w) as u32))
    }
}

/// Rotates the low `w` bits of register 0 right by the operand, modulo `w` bits.
pub open spec fn rotate_right(s: MachineState, w: Width, src: Source) -> Option<MachineState> {
    let k = (source_value(s, src, Width::Long) % (w.bits() as int)) as nat;
    let left = ((w.bits() - k) % (w.bits() as int)) as nat;
    if !source_ok(s, src) {
        None
    } else {
        Some(s.advance(src.len()).with_reg(0, rotated(accumulator(s, w), left, w) as u32))
    }
}

// ---------------------------------------------------------------------------
// Single-register operations (the register index follows the opcode)

/// The register an instruction with a single register operand names.
pub open spec fn target(s: MachineState) -> int {
    s.operand(0, Width::Byte)
}

/// `true` when the single register operand can be fetched and names a register.
pub open spec fn target_ok(s: MachineState) -> bool {
    s.can_fetch(1) && is_register(target(s))
}

/// The low `w` bits of the target register, read once its index was fetched.
pub open spec fn target_value(s: MachineState, w: Width) -> int {
    low_bits(s.advance(1).reg(target(s)) as int, w)
}

/// Negates the target register as a `w`-wide two's complement number, which
/// must not be the most negative one; the result is sign-extended.
pub open spec fn negate(s: MachineState, w: Width) -> Option<MachineState> {
    let v = target_value(s, w);
    if !target_ok(s) || v == w.modulus() / 2 {
        None
    } else {
        Some(s.advance(1).with_reg(target(s), wrap32(-to_signed(v, w))))
    }
}

/// Complements the low `w` bits of the target register; the result is sign-extended.
pub open spec fn not(s: MachineState, w: Width) -> Option<MachineState> {
    let v = target_value(s, w);
    if !target_ok(s) {
        None
    } else {
        Some(s.advance(1).with_reg(target(s), sign_extend(w.modulus() - 1 - v, w)))
    }
}

/// Adds one to the low `w` bits of the target register, wrapping around.
pub open spec fn increment(s: MachineState, w: Width) -> Option<MachineState> {
    if !target_ok(s) {
        None
    } else {
        Some(s.advance(1).with_reg(target(s), low_bits(target_value(s, w) + 1, w) as u32))
    }
}

/// Subtracts one from the low `w` bits of the target register, wrapping around.
pub open spec fn decrement(s: MachineState, w: Width) -> Option<MachineState> {
    if !target_ok(s) {
        None
    } else {
        Some(s.advance(1).with_reg(target(s), low_bits(target_value(s, w) - 1, w) as u32))
    }
}

// ---------------------------------------------------------------------------
// The stack

/// Moves the stack pointer down by `w.bytes()`, then stores the operand there.
pub open spec fn push(s: MachineState, w: Width, src: Source) -> Option<MachineState> {
    let u = s.with_reg(SP as int, (s.sp() - w.bytes()) as u32);
    if s.sp() < w.bytes() || !source_ok(u, src) || !in_bounds(u.mem, u.sp(), w) {
        None
    } else {
        Some(u.advance(src.len()).with_mem(u.sp(), w, source_value(u, src, w)))
    }
}

/// Loads the `w`-wide value at the stack pointer into the target register,
/// then moves the stack pointer up by `w.bytes()`.
pub open spec fn pop(s: MachineState, w: Width) -> Option<MachineState> {
    let t = s.advance(1);
    let u = t.with_reg(target(s), t.load(t.sp(), w) as u32);
    if !target_ok(s) || !in_bounds(t.mem, t.sp(), w) || u.sp() + w.bytes() > u32::MAX {
        None
    } else {
        Some(u.with_reg(SP as int, (u.sp() + w.bytes()) as u32))
    }
}

// ---------------------------------------------------------------------------
// Control flow

/// Jumps to the four-byte address that follows the opcode when `cond` holds.
pub open spec fn jump(s: MachineState, cond: Condition) -> Option<MachineState> {
    let t = s.advance(4);
    if !s.can_fetch(4) {
        None
    } else if condition_holds(cond, t.reg(0), t.reg(1)) {
        Some(t.with_reg(IP as int, s.operand(0, Width::Long) as u32))
    } else {
        Some(t)
    }
}

/// Jumps to the address held by the target register.
pub open spec fn jump_reg(s: MachineState) -> Option<MachineState> {
    if !target_ok(s) {
        None
    } else {
        Some(s.advance(1).with_reg(IP as int, s.advance(1).reg(target(s))))
    }
}

/// Pushes the address past the instruction and jumps to the four-byte address
/// that follows the opcode.
pub open spec fn call(s: MachineState) -> Option<MachineState> {
    let u = s.with_reg(SP as int, (s.sp() - 4) as u32);
    let t = u.advance(4);
    if s.sp() < 4 || !u.can_fetch(4) || !in_bounds(t.mem, t.sp(), Width::Long) {
        None
    } else {
        Some(
            t.with_mem(t.sp(), Width::Long, t.ip()).with_reg(
                IP as int,
                u.operand(0, Width::Long) as u32,
            ),
        )
    }
}

/// Pops an address off the stack and jumps to it.
pub open spec fn ret(s: MachineState) -> Option<MachineState> {
    if !in_bounds(s.mem, s.sp(), Width::Long) || s.sp() + 4 > u32::MAX {
        None
    } else {
        Some(
            s.with_reg(SP as int, (s.sp() + 4) as u32).with_reg(
                IP as int,
                s.load(s.sp(), Width::Long) as u32,
            ),
        )
    }
}

/// Unless an interrupt is being serviced already (then nothing happens),
/// reads the interrupt number that follows the opcode, pushes the address
/// past the instruction, sets the interrupt flag and jumps to the handler
/// address stored in entry `irq` (four bytes each) of the interrupt table.
pub open spec fn interrupt(s: MachineState) -> Option<MachineState> {
    let irq = s.operand(0, Width::Byte);
    let t = s.advance(1);
    let entry = t.reg(IDT as int) + irq * 4;
    let u = t.with_reg(SP as int, (t.sp() - 4) as u32);
    let v = u.with_mem(u.sp(), Width::Long, t.ip()).with_flag(INTERRUPT_FLAG, true);
    if s.has_flag(INTERRUPT_FLAG) {
        Some(s)
    } else if !s.can_fetch(1) || entry > u32::MAX || t.sp() < 4 || !in_bounds(
        u.mem,
        u.sp(),
        Width::Long,
    ) || !in_bounds(v.mem, entry, Width::Long) {
        None
    } else {
        Some(v.with_reg(IP as int, v.load(entry, Width::Long) as u32))
    }
}

/// Clears the interrupt flag, pops an address off the stack and jumps to it.
pub open spec fn interrupt_return(s: MachineState) -> Option<MachineState> {
    ret(s.with_flag(INTERRUPT_FLAG, false))
}

/// Reads the number of the host request that follows the opcode, which must
/// name one; the machine state is otherwise unchanged.
pub open spec fn syscall(s: MachineState) -> Option<MachineState> {
    if !s.can_fetch(1) || syscall_number(s.operand(0, Width::Byte)) is None {
        None
    } else {
        Some(s.advance(1))
    }
}

/// Sets the halt flag.
pub open spec fn halt(s: MachineState) -> Option<MachineState> {
    Some(s.with_flag(HALT_FLAG, true))
}

/// Clears the carry flag.
pub open spec fn clear_carry(s: MachineState) -> Option<MachineState> {
    Some(s.with_flag(CARRY_FLAG, false))
}

/// Does nothing.
pub open spec fn nop(s: MachineState) -> Option<MachineState> {
    Some(s)
}

// ---------------------------------------------------------------------------
// The machine cycle

/// What the instruction with opcode `op` does, started right after its opcode byte.
///
/// Register indices and the counts of immediate shifts and rotations take one
/// byte; the operand fields are the ones `Opcode::operand_sizes` gives.
pub open spec fn execute(op: Opcode, s: MachineState) -> Option<MachineState> {
    match op {
        Opcode::Hlt => halt(s),
        Opcode::MoveImmRegByte => mov(s, Width::Byte, Location::Reg, Location::Imm),
        Opcode::MoveImmRegShort => mov(s, Width::Short, Location::Reg, Location::Imm),
        Opcode::MoveImmRegLong => mov(s, Width::Long, Location::Reg, Location::Imm),
        Opcode::MoveRegRegByte => mov(s, Width::Byte, Location::Reg, Location::Reg),
        Opcode::MoveRegRegShort => mov(s, Width::Short, Location::Reg, Location::Reg),
        Opcode::MoveRegRegLong => mov(s, Width::Long, Location::Reg, Location::Reg),
        Opcode::MoveAbsRegByte => mov(s, Width::Byte, Location::Reg, Location::Abs),
        Opcode::MoveAbsRegShort => mov(s, Width::Short, Location::Reg, Location::Abs),
        Opcode::MoveAbsRegLong => mov(s, Width::Long, Location::Reg, Location::Abs),
        Opcode::MoveMemRegByte => mov(s, Width::Byte, Location::Reg, Location::Mem),
        Opcode::MoveMemRegShort => mov(s, Width::Short, Location::Reg, Location::Mem),
        Opcode::MoveMemRegLong => mov(s, Width::Long, Location::Reg, Location::Mem),
        Opcode::MoveIndirectRegByte => mov(s, Width::Byte, Location::Reg, Location::Ind),
        Opcode::MoveIndirectRegShort => mov(s, Width::Short, Location::Reg, Location::Ind),
        Opcode::MoveIndirectRegLong => mov(s, Width::Long, Location::Reg, Location::Ind),
        Opcode::MoveImmAbsByte => mov(s, Width::Byte, Location::Abs, Location::Imm),
        Opcode::MoveImmAbsShort => mov(s, Width::Short, Location::Abs, Location::Imm),
        Opcode::MoveImmAbsLong => mov(s, Width::Long, Location::Abs, Location::Imm),
        Opcode::MoveRegAbsByte => mov(s, Width::Byte, Location::Abs, Location::Reg),
        Opcode::MoveRegAbsShort => mov(s, Width::Short, Location::Abs, Location::Reg),
        Opcode::MoveRegAbsLong => mov(s, Width::Long, Location::Abs, Location::Reg),
        Opcode::MoveAbsAbsByte => mov(s, Width::Byte, Location::Abs, Location::Abs),
        Opcode::MoveAbsAbsShort => mov(s, Width::Short, Location::Abs, Location::Abs),
        Opcode::MoveAbsAbsLong => mov(s, Width::Long, Location::Abs, Location::Abs),
        Opcode::MoveMemAbsByte => mov(s, Width::Byte, Location::Abs, Location::Mem),
        Opcode::MoveMemAbsShort => mov(s, Width::Short, Location::Abs, Location::Mem),
        Opcode::MoveMemAbsLong => mov(s, Width::Long, Location::Abs, Location::Mem),
        Opcode::MoveIndirectAbsByte => mov(s, Width::Byte, Location::Abs, Location::Ind),
        Opcode::MoveIndirectAbsShort => mov(s, Width::Short, Location::Abs, Location::Ind),
        Opcode::MoveIndirectAbsLong => mov(s, Width::Long, Location::Abs, Location::Ind),
        Opcode::MoveImmMemByte => mov(s, Width::Byte, Location::Mem, Location::Imm),
        Opcode::MoveImmMemShort => mov(s, Width::Short, Location::Mem, Location::Imm),
        Opcode::MoveImmMemLong => mov(s, Width::Long, Location::Mem, Location::Imm),
        Opcode::MoveRegMemByte => mov(s, Width::Byte, Location::Mem, Location::Reg),
        Opcode::MoveRegMemShort => mov(s, Width::Short, Location::Mem, Location::Reg),
        Opcode::MoveRegMemLong => mov(s, Width::Long, Location::Mem, Location::Reg),
        Opcode::MoveAbsMemByte => mov(s, Width::Byte, Location::Mem, Location::Abs),
        Opcode::MoveAbsMemShort => mov(s, Width::Short, Location::Mem, Location::Abs),
        Opcode::MoveAbsMemLong => mov(s, Width::Long, Location::Mem, Location::Abs),
        Opcode::MoveMemMemByte => mov(s, Width::Byte, Location::Mem, Location::Mem),
        Opcode::MoveMemMemShort => mov(s, Width::Short, Location::Mem, Location::Mem),
        Opcode::MoveMemMemLong => mov(s, Width::Long, Location::Mem, Location::Mem),
        Opcode::MoveIndirectMemByte => mov(s, Width::Byte, Location::Mem, Location::Ind),
        Opcode::MoveIndirectMemShort => mov(s, Width::Short, Location::Mem, Location::Ind),
        Opcode::MoveIndirectMemLong => mov(s, Width::Long, Location::Mem, Location::Ind),
        Opcode::MoveImmIndirectByte => mov(s, Width::Byte, Location::Ind, Location::Imm),
        Opcode::MoveImmIndirectShort => mov(s, Width::Short, Location::Ind, Location::Imm),
        Opcode::MoveImmIndirectLong => mov(s, Width::Long, Location::Ind, Location::Imm),
        Opcode::MoveRegIndirectByte => mov(s, Width::Byte, Location::Ind, Location::Reg),
        Opcode::MoveRegIndirectShort => mov(s, Width::Short, Location::Ind, Location::Reg),
        Opcode::MoveRegIndirectLong => mov(s, Width::Long, Location::Ind, Location::Reg),
        Opcode::MoveAbsIndirectByte => mov(s, Width::Byte, Location::Ind, Location::Abs),
        Opcode::MoveAbsIndirectShort => mov(s, Width::Short, Location::Ind, Location::Abs),
        Opcode::MoveAbsIndirectLong => mov(s, Width::Long, Location::Ind, Location::Abs),
        Opcode::MoveMemIndirectByte => mov(s, Width::Byte, Location::Ind, Location::Mem),
        Opcode::MoveMemIndirectShort => mov(s, Width::Short, Location::Ind, Location::Mem),
        Opcode::MoveMemIndirectLong => mov(s, Width::Long, Location::Ind, Location::Mem),
        Opcode::MoveIndirectIndirectByte => mov(s, Width::Byte, Location::Ind, Location::Ind),
        Opcode::MoveIndirectIndirectShort => mov(s, Width::Short, Location::Ind, Location::Ind),
        Opcode::MoveIndirectIndirectLong => mov(s, Width::Long, Location::Ind, Location::Ind),
        Opcode::AddByteImm => addition(s, Width::Byte, Source::Imm(Width::Byte), false),
        Opcode::AddShortImm => addition(s, Width::Short, Source::Imm(Width::Short), false),
        Opcode::AddLongImm => addition(s, Width::Long, Source::Imm(Width::Long), false),
        Opcode::AddByteReg => addition(s, Width::Byte, Source::Reg(Width::Byte), false),
        Opcode::AddShortReg => addition(s, Width::Short, Source::Reg(Width::Byte), false),
        Opcode::AddLongReg => addition(s, Width::Long, Source::Reg(Width::Byte), false),
        Opcode::AddCarryByteImm => addition(s, Width::Byte, Source::Imm(Width::Byte), true),
        Opcode::AddCarryShortImm => addition(s, Width::Short, Source::Imm(Width::Short), true),
        Opcode::AddCarryLongImm => addition(s, Width::Long, Source::Imm(Width::Long), true),
        Opcode::AddCarryByteReg => addition(s, Width::Byte, Source::Reg(Width::Byte), true),
        Opcode::AddCarryShortReg => addition(s, Width::Short, Source::Reg(Width::Byte), true),
        Opcode::AddCarryLongReg => addition(s, Width::Long, Source::Reg(Width::Byte), true),
        Opcode::SubByteImm => subtraction(s, Width::Byte, Source::Imm(Width::Byte), false),
        Opcode::SubShortImm => subtraction(s, Width::Short, Source::Imm(Width::Short), false),
        Opcode::SubLongImm => subtraction(s, Width::Long, Source::Imm(Width::Long), false),
        Opcode::SubByteReg => subtraction(s, Width::Byte, Source::Reg(Width::Byte), false),
        Opcode::SubShortReg => subtraction(s, Width::Short, Source::Reg(Width::Byte), false),
        Opcode::SubLongReg => subtraction(s, Width::Long, Source::Reg(Width::Byte), false),
        Opcode::SubBorrowByteImm => subtraction(s, Width::Byte, Source::Imm(Width::Byte), true),
        Opcode::SubBorrowShortImm => subtraction(s, Width::Short, Source::Imm(Width::Short), true),
        Opcode::SubBorrowLongImm => subtraction(s, Width::Long, Source::Imm(Width::Long), true),
        Opcode::SubBorrowByteReg => subtraction(s, Width::Byte, Source::Reg(Width::Byte), true),
        Opcode::SubBorrowShortReg => subtraction(s, Width::Short, Source::Reg(Width::Byte), true),
        Opcode::SubBorrowLongReg => subtraction(s, Width::Long, Source::Reg(Width::Byte), true),
        Opcode::MulByteImm => multiplication(s, Width::Byte, Source::Imm(Width::Byte)),
        Opcode::MulShortImm => multiplication(s, Width::Short, Source::Imm(Width::Short)),
        Opcode::MulLongImm => multiplication(s, Width::Long, Source::Imm(Width::Long)),
        Opcode::MulByteReg => multiplication(s, Width::Byte, Source::Reg(Width::Byte)),
        Opcode::MulShortReg => multiplication(s, Width::Short, Source::Reg(Width::Byte)),
        Opcode::MulLongReg => multiplication(s, Width::Long, Source::Reg(Width::Byte)),
        Opcode::DivByteImm => div(s, Width::Byte, Source::Imm(Width::Byte)),
        Opcode::DivShortImm => div(s, Width::Short, Source::Imm(Width::Short)),
        Opcode::DivLongImm => div(s, Width::Long, Source::Imm(Width::Long)),
        Opcode::DivByteReg => div(s, Width::Byte, Source::Reg(Width::Byte)),
        Opcode::DivShortReg => div(s, Width::Short, Source::Reg(Width::Byte)),
        Opcode::DivLongReg => div(s, Width::Long, Source::Reg(Width::Byte)),
        Opcode::SignedMulByteImm => signed_mul(s, Width::Byte, Source::Imm(Width::Byte)),
        Opcode::SignedMulShortImm => signed_mul(s, Width::Short, Source::Imm(Width::Short)),
        Opcode::SignedMulLongImm => signed_mul(s, Width::Long, Source::Imm(Width::Long)),
        Opcode::SignedMulByteReg => signed_mul(s, Width::Byte, Source::Reg(Width::Byte)),
        Opcode::SignedMulShortReg => signed_mul(s, Width::Short, Source::Reg(Width::Byte)),
        Opcode::SignedMulLongReg => signed_mul(s, Width::Long, Source::Reg(Width::Byte)),
        Opcode::SignedDivByteImm => signed_div(s, Width::Byte, Source::Imm(Width::Byte)),
        Opcode::SignedDivShortImm => signed_div(s, Width::Short, Source::Imm(Width::Short)),
        Opcode::SignedDivLongImm => signed_div(s, Width::Long, Source::Imm(Width::Long)),
        Opcode::SignedDivByteReg => signed_div(s, Width::Byte, Source::Reg(Width::Byte)),
        Opcode::SignedDivShortReg => signed_div(s, Width::Short, Source::Reg(Width::Byte)),
        Opcode::SignedDivLongReg => signed_div(s, Width::Long, Source::Reg(Width::Byte)),
        Opcode::AndByteImm => and(s, Width::Byte, Source::Imm(Width::Byte)),
        Opcode::AndShortImm => and(s, Width::Short, Source::Imm(Width::Short)),
        Opcode::AndLongImm => and(s, Width::Long, Source::Imm(Width::Long)),
        Opcode::AndByteReg => and(s, Width::Byte, Source::Reg(Width::Byte)),
        Opcode::AndShortReg => and(s, Width::Short, Source::Reg(Width::Byte)),
        Opcode::AndLongReg => and(s, Width::Long, Source::Reg(Width::Byte)),
        Opcode::OrByteImm => or(s, Width::Byte, Source::Imm(Width::Byte)),
        Opcode::OrShortImm => or(s, Width::Short, Source::Imm(Width::Short)),
        Opcode::OrLongImm => or(s, Width::Long, Source::Imm(Width::Long)),
        Opcode::OrByteReg => or(s, Width::Byte, Source::Reg(Width::Byte)),
        Opcode::OrShortReg => or(s, Width::Short, Source::Reg(Width::Byte)),
        Opcode::OrLongReg => or(s, Width::Long, Source::Reg(Width::Byte)),
        Opcode::XorByteImm => xor(s, Width::Byte, Source::Imm(Width::Byte)),
        Opcode::XorShortImm => xor(s, Width::Short, Source::Imm(Width::Short)),
        Opcode::XorLongImm => xor(s, Width::Long, Source::Imm(Width::Long)),
        Opcode::XorByteReg => xor(s, Width::Byte, Source::Reg(Width::Byte)),
        Opcode::XorShortReg => xor(s, Width::Short, Source::Reg(Width::Byte)),
        Opcode::XorLongReg => xor(s, Width::Long, Source::Reg(Width::Byte)),
        Opcode::PushByteImm => push(s, Width::Byte, Source::Imm(Width::Byte)),
        Opcode::PushShortImm => push(s, Width::Short, Source::Imm(Width::Short)),
        Opcode::PushLongImm => push(s, Width::Long, Source::Imm(Width::Long)),
        Opcode::PushByteReg => push(s, Width::Byte, Source::Reg(Width::Byte)),
        Opcode::PushShortReg => push(s, Width::Short, Source::Reg(Width::Byte)),
        Opcode::PushLongReg => push(s, Width::Long, Source::Reg(Width::Byte)),
        Opcode::CompareByteImm => compare(s, Width::Byte, Source::Imm(Width::Byte)),
        Opcode::CompareShortImm => compare(s, Width::Short, Source::Imm(Width::Short)),
        Opcode::CompareLongImm => compare(s, Width::Long, Source::Imm(Width::Long)),
        Opcode::CompareByteReg => compare(s, Width::Byte, Source::Reg(Width::Byte)),
        Opcode::CompareShortReg => compare(s, Width::Short, Source::Reg(Width::Byte)),
        Opcode::CompareLongReg => compare(s, Width::Long, Source::Reg(Width::Byte)),
        Opcode::LogShiftLeftByteImm => shift_left(s, Width::Byte, Source::Imm(Width::Byte)),
        Opcode::LogShiftLeftShortImm => shift_left(s, Width::Short, Source::Imm(Width::Byte)),
        Opcode::LogShiftLeftLongImm => shift_left(s, Width::Long, Source::Imm(Width::Byte)),
        Opcode::LogShiftLeftByteReg => shift_left(s, Width::Byte, Source::Reg(Width::Byte)),
        Opcode::LogShiftLeftShortReg => shift_left(s, Width::Short, Source::Reg(Width::Byte)),
        Opcode::LogShiftLeftLongReg => shift_left(s, Width::Long, Source::Reg(Width::Byte)),
        Opcode::LogShiftRightByteImm => shift_right(s, Width::Byte, Source::Imm(Width::Byte)),
        Opcode::LogShiftRightShortImm => shift_right(s, Width::Short, Source::Imm(Width::Byte)),
        Opcode::LogShiftRightLongImm => shift_right(s, Width::Long, Source::Imm(Width::Byte)),
        Opcode::LogShiftRightByteReg => shift_right(s, Width::Byte, Source::Reg(Width::Byte)),
        Opcode::LogShiftRightShortReg => shift_right(s, Width::Short, Source::Reg(Width::Byte)),
        Opcode::LogShiftRightLongReg => shift_right(s, Width::Long, Source::Reg(Width::Byte)),
        Opcode::ArithShiftLeftByteImm => shift_left(s, Width::Byte, Source::Imm(Width::Byte)),
        Opcode::ArithShiftLeftShortImm => shift_left(s, Width::Short, Source::Imm(Width::Byte)),
        Opcode::ArithShiftLeftLongImm => shift_left(s, Width::Long, Source::Imm(Width::Byte)),
        Opcode::ArithShiftLeftByteReg => arith_shift_left(s, Width::Byte, Source::Reg(Width::Byte)),
        Opcode::ArithShiftLeftShortReg => arith_shift_left(s, Width::Short, Source::Reg(Width::Byte)),
        Opcode::ArithShiftLeftLongReg => arith_shift_left(s, Width::Long, Source::Reg(Width::Byte)),
        Opcode::ArithShiftRightByteImm => shift_right(s, Width::Byte, Source::Imm(Width::Byte)),
        Opcode::ArithShiftRightShortImm => shift_right(s, Width::Short, Source::Imm(Width::Byte)),
        Opcode::ArithShiftRightLongImm => shift_right(s, Width::Long, Source::Imm(Width::Byte)),
        Opcode::ArithShiftRightByteReg => arith_shift_right(s, Width::Byte, Source::Reg(Width::Byte)),
        Opcode::ArithShiftRightShortReg => arith_shift_right(s, Width::Short, Source::Reg(Width::Byte)),
        Opcode::ArithShiftRightLongReg => arith_shift_right(s, Width::Long, Source::Reg(Width::Byte)),
        Opcode::RotateLeftByteImm => rotate_left(s, Width::Byte, Source::Imm(Width::Byte)),
        Opcode::RotateLeftShortImm => rotate_left(s, Width::Short, Source::Imm(Width::Byte)),
        Opcode::RotateLeftLongImm => rotate_left(s, Width::Long, Source::Imm(Width::Byte)),
        Opcode::RotateLeftByteReg => rotate_left(s, Width::Byte, Source::Reg(Width::Byte)),
        Opcode::RotateLeftShortReg => rotate_left(s, Width::Short, Source::Reg(Width::Byte)),
        Opcode::RotateLeftLongReg => rotate_left(s, Width::Long, Source::Reg(Width::Byte)),
        Opcode::RotateRightByteImm => rotate_right(s, Width::Byte, Source::Imm(Width::Byte)),
        Opcode::RotateRightShortImm => rotate_right(s, Width::Short, Source::Imm(Width::Byte)),
        Opcode::RotateRightLongImm => rotate_right(s, Width::Long, Source::Imm(Width::Byte)),
        Opcode::RotateRightByteReg => rotate_right(s, Width::Byte, Source::Reg(Width::Byte)),
        Opcode::RotateRightShortReg => rotate_right(s, Width::Short, Source::Reg(Width::Byte)),
        Opcode::RotateRightLongReg => rotate_right(s, Width::Long, Source::Reg(Width::Byte)),
        Opcode::PopByte => pop(s, Width::Byte),
        Opcode::PopShort => pop(s, Width::Short),
        Opcode::PopLong => pop(s, Width::Long),
        Opcode::NegateByte => negate(s, Width::Byte),
        Opcode::NegateShort => negate(s, Width::Short),
        Opcode::NegateLong => negate(s, Width::Long),
        Opcode::NotByte => not(s, Width::Byte),
        Opcode::NotShort => not(s, Width::Short),
        Opcode::NotLong => not(s, Width::Long),
        Opcode::IncrementByte => increment(s, Width::Byte),
        Opcode::IncrementShort => increment(s, Width::Short),
        Opcode::IncrementLong => increment(s, Width::Long),
        Opcode::DecrementByte => decrement(s, Width::Byte),
        Opcode::DecrementShort => decrement(s, Width::Short),
        Opcode::DecrementLong => decrement(s, Width::Long),
        Opcode::JumpEqual => jump(s, Condition::Equal),
        Opcode::JumpNotEqual => jump(s, Condition::NotEqual),
        Opcode::JumpGreater => jump(s, Condition::Greater),
        Opcode::JumpGreaterEqual => jump(s, Condition::GreaterEqual),
        Opcode::JumpLess => jump(s, Condition::Less),
        Opcode::JumpLessEqual => jump(s, Condition::LessEqual),
        Opcode::JumpSignedGreater => jump(s, Condition::SignedGreater),
        Opcode::JumpSignedGreaterEqual => jump(s, Condition::SignedGreaterEqual),
        Opcode::JumpSignedLess => jump(s, Condition::SignedLess),
        Opcode::JumpSignedLessEqual => jump(s, Condition::SignedLessEqual),
        Opcode::JumpImm => jump(s, Condition::Always),
        Opcode::JumpReg => jump_reg(s),
        Opcode::Interrupt => interrupt(s),
        Opcode::InterruptReturn => interrupt_return(s),
        Opcode::Call => call(s),
        Opcode::Return => ret(s),
        Opcode::Syscall => syscall(s),
        Opcode::ClearCarry => clear_carry(s),
        Opcode::Nop => nop(s),
    }
}

/// The opcode the byte `b` stands for when executed: bytes that encode no
/// opcode halt the machine.
pub open spec fn executed_opcode(b: u8) -> Opcode {
    match Opcode::decoding(b) {
        Some(op) => op,
        None => Opcode::Hlt,
    }
}

/// One machine cycle: fetch the opcode byte at the instruction pointer and
/// execute it; `None` when it cannot execute.
#[verifier::opaque]
pub open spec fn step(s: MachineState) -> Option<MachineState> {
    if !s.can_fetch(1) {
        None
    } else {
        execute(executed_opcode(s.operand(0, Width::Byte) as u8), s.advance(1))
    }
}

/// `n` machine cycles; `None` when one of them cannot execute.
pub open spec fn steps(s: MachineState, n: nat) -> Option<MachineState>
    decreases n,
{
    if n == 0 {
        Some(s)
    } else {
        match step(s) {
            Some(t) => steps(t, (n - 1) as nat),
            None => None,
        }
    }
}

/// The host request the next instruction makes, if it is a request.
pub open spec fn pending_syscall(s: MachineState) -> Option<Syscall> {
    if s.can_fetch(2) && executed_opcode(s.operand(0, Width::Byte) as u8) == Opcode::Syscall {
        syscall_number(s.operand(1, Width::Byte))
    } else {
        None
    }
}

/// A host request that is pending can be made: the instruction executes.
pub proof fn lemma_pending_syscall_executes(s: MachineState)
    requires
        s.well_formed(),
        pending_syscall(s) is Some,
    ensures
        step(s) is Some,
{
    reveal(step);
    reveal(execute);
    let t = s.advance(1);
    assert(t.operand(0, Width::Byte) == s.operand(1, Width::Byte));
    assert(execute(Opcode::Syscall, t) == syscall(t));
}

/// `true` when running from `s` stops before cycle `n`: the machine halted or
/// a host request was made at an earlier cycle.
pub open spec fn stops_before(s: MachineState, n: nat) -> bool {
    exists|k: nat|
        k < n && match #[trigger] steps(s, k) {
            Some(t) => t.halted() || pending_syscall(t) is Some,
            None => false,
        }
}

/// `true` when every cycle that running from `s` reaches can execute.
pub open spec fn runs_without_fault(s: MachineState) -> bool {
    forall|n: nat| #![trigger steps(s, n)] !stops_before(s, n) ==> steps(s, n) is Some
}

} // verus!
