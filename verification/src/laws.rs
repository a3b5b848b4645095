//! Properties of the machine that span several operations: what a write
//! leaves for a read, what a flag update leaves for a flag test, and the
//! instruction pairs that undo each other.
use vstd::prelude::*;
use crate::machine::{
    in_bounds, low_bits, read_le, write_le, MachineState, Width, CARRY_FLAG, HALT_FLAG,
    INTERRUPT_FLAG, IP, SP,
};
use crate::opcodes::Opcode;
use crate::semantics::execute;
use crate::semantics::{
    accumulator, addition, call, interrupt, interrupt_return, pop, push, ret, rotate_left,
    rotate_right, rotated, source_value, step, subtraction, target, Source,
};
use vstd::arithmetic::div_mod::lemma_fundamental_div_mod_converse;
use vstd::arithmetic::power2::{lemma2_to64, lemma_pow2_adds, lemma_pow2_pos, pow2};

verus! {

/// Reading `w` bytes at `addr` right after writing `v` there gives back the
/// low `w` bytes of `v`.
pub proof fn lemma_read_after_write(mem: Seq<u8>, addr: int, w: Width, v: int)
    requires
        in_bounds(mem, addr, w),
        0 <= v,
    ensures
        read_le(write_le(mem, addr, w, v), addr, w) == low_bits(v, w),
{
    let b0 = v % 0x100;
    let b1 = (v / 0x100) % 0x100;
    let b2 = (v / 0x1_0000) % 0x100;
    let b3 = (v / 0x100_0000) % 0x100;
    assert(b0 + 0x100 * b1 == v % 0x1_0000);
    assert(b0 + 0x100 * b1 + 0x1_0000 * b2 + 0x100_0000 * b3 == v % 0x1_0000_0000);
}

/// Writing `w` bytes at `addr` leaves the length of memory and every byte
/// outside the written ones unchanged.
pub proof fn lemma_write_frame(mem: Seq<u8>, addr: int, w: Width, v: int, i: int)
    requires
        in_bounds(mem, addr, w),
        0 <= i < mem.len(),
        !(addr <= i < addr + w.bytes()),
    ensures
        write_le(mem, addr, w, v).len() == mem.len(),
        write_le(mem, addr, w, v)[i] == mem[i],
{
}

/// Setting (or clearing) a flag bit makes the flag test report it set (or
/// clear), and leaves every flag that shares no bit with it as it was.
pub proof fn lemma_flag_update(s: MachineState, flag: u32, set: bool, other: u32)
    requires
        s.well_formed(),
        flag != 0,
        flag & other == 0,
    ensures
        s.with_flag(flag, set).has_flag(flag) == set,
        s.with_flag(flag, set).has_flag(other) == s.has_flag(other),
{
    let f = s.flags();
    assert((f | flag) & flag == flag) by (bit_vector);
    assert((f & !flag) & flag != flag) by (bit_vector)
        requires
            flag != 0,
    ;
    assert(((f | flag) & other == other) == (f & other == other)) by (bit_vector)
        requires
            flag & other == 0,
    ;
    assert(((f & !flag) & other == other) == (f & other == other)) by (bit_vector)
        requires
            flag & other == 0,
    ;
}

/// A pop right after a push gives back the pushed value, and the stack
/// pointer of before the push (unless the pop targets the stack pointer).
pub proof fn lemma_pop_after_push(s: MachineState, w: Width, src: Source)
    requires
        s.well_formed(),
        push(s, w, src) is Some,
        pop(push(s, w, src).unwrap().advance(1), w) is Some,
        target(push(s, w, src).unwrap().advance(1)) != SP,
    ensures
        ({
            let pushed = source_value(s.with_reg(SP as int, (s.sp() - w.bytes()) as u32), src, w);
            let p = push(s, w, src).unwrap().advance(1);
            let after = pop(p, w).unwrap();
            &&& after.reg(target(p)) == pushed
            &&& after.sp() == s.sp()
        }),
{
    let u = s.with_reg(SP as int, (s.sp() - w.bytes()) as u32);
    let pushed = source_value(u, src, w);
    let t = push(s, w, src).unwrap();
    let p = t.advance(1);
    assert(0 <= pushed < w.modulus());
    lemma_read_after_write(u.advance(src.len()).mem, u.sp(), w, pushed);
    assert(p.advance(1).load(p.advance(1).sp(), w) == pushed);
}

/// A return right after a call comes back to the instruction that follows the
/// call, with the stack pointer of before the call and every other register
/// unchanged.
pub proof fn lemma_ret_after_call(s: MachineState)
    requires
        s.well_formed(),
        call(s) is Some,
    ensures
        ret(call(s).unwrap().advance(1)) matches Some(r) && {
            &&& r.ip() == s.ip() + 4
            &&& r.sp() == s.sp()
            &&& forall|i: int| 0 <= i < 22 && i != IP ==> r.reg(i) == s.reg(i)
        },
{
    let u = s.with_reg(SP as int, (s.sp() - 4) as u32);
    let t = u.advance(4);
    lemma_read_after_write(t.mem, t.sp(), Width::Long, t.ip());
}

/// Returning from an interrupt right after raising it (with no interrupt in
/// service) comes back to the instruction that follows, with the stack
/// pointer, the flags and every other register as they were before.
pub proof fn lemma_interrupt_return_after_interrupt(s: MachineState)
    requires
        s.well_formed(),
        !s.has_flag(INTERRUPT_FLAG),
        interrupt(s) is Some,
    ensures
        interrupt_return(interrupt(s).unwrap().advance(1)) matches Some(r) && {
            &&& r.ip() == s.ip() + 1
            &&& r.sp() == s.sp()
            &&& forall|i: int| 0 <= i < 22 && i != IP ==> r.reg(i) == s.reg(i)
        },
{
    let t = s.advance(1);
    let u = t.with_reg(SP as int, (t.sp() - 4) as u32);
    let f = s.flags();
    assert(f & 2 != 2 ==> (f | 2) & !2u32 == f) by (bit_vector);
    lemma_read_after_write(u.mem, u.sp(), Width::Long, t.ip());
}

/// An addition loses nothing: the low `w` bits of register 0 and the carry
/// flag (worth `2^w`) together hold the exact sum of the operands and the
/// carry that went in.
pub proof fn lemma_addition_exact(s: MachineState, w: Width, src: Source, with_carry: bool)
    requires
        s.well_formed(),
        addition(s, w, src, with_carry) is Some,
    ensures
        ({
            let r = addition(s, w, src, with_carry).unwrap();
            let carry_in: int = if with_carry && s.has_flag(CARRY_FLAG) {
                1
            } else {
                0
            };
            let carry_out: int = if r.has_flag(CARRY_FLAG) {
                w.modulus() as int
            } else {
                0
            };
            r.reg(0) + carry_out == accumulator(s, w) + source_value(s, src, w) + carry_in
        }),
{
    let t = s.advance(src.len());
    let carry_in: int = if with_carry && s.has_flag(CARRY_FLAG) {
        1
    } else {
        0
    };
    let sum = accumulator(s, w) + source_value(s, src, w) + carry_in;
    let r0 = t.with_reg(0, low_bits(sum, w) as u32);
    assert(4u32 & 0u32 == 0u32) by (bit_vector);
    lemma_flag_update(r0, CARRY_FLAG, sum >= w.modulus(), 0);
}

/// A subtraction loses nothing: the low `w` bits of register 0, minus the
/// carry (borrow) flag worth `2^w`, are the exact difference of the operands
/// less the borrow that went in.
pub proof fn lemma_subtraction_exact(s: MachineState, w: Width, src: Source, with_borrow: bool)
    requires
        s.well_formed(),
        subtraction(s, w, src, with_borrow) is Some,
    ensures
        ({
            let r = subtraction(s, w, src, with_borrow).unwrap();
            let borrow_in: int = if with_borrow && s.has_flag(CARRY_FLAG) {
                1
            } else {
                0
            };
            let borrow_out: int = if r.has_flag(CARRY_FLAG) {
                w.modulus() as int
            } else {
                0
            };
            r.reg(0) - borrow_out == accumulator(s, w) - source_value(s, src, w) - borrow_in
        }),
{
    let t = s.advance(src.len());
    let borrow_in: int = if with_borrow && s.has_flag(CARRY_FLAG) {
        1
    } else {
        0
    };
    let diff = accumulator(s, w) - source_value(s, src, w) - borrow_in;
    assert(0 <= accumulator(s, w) < w.modulus());
    assert(0 <= source_value(s, src, w) < w.modulus());
    assert(low_bits(diff, w) == if diff < 0 {
        diff + w.modulus()
    } else {
        diff
    }) by {
        match w {
            Width::Byte => {},
            Width::Short => {},
            Width::Long => {},
        }
    }
    let r0 = t.with_reg(0, low_bits(diff, w) as u32);
    assert(4u32 & 0u32 == 0u32) by (bit_vector);
    lemma_flag_update(r0, CARRY_FLAG, diff < 0, 0);
}

/// A byte that encodes no opcode halts the machine: executing it only moves
/// the instruction pointer past it and sets the halt flag.
pub proof fn lemma_undefined_opcode_halts(s: MachineState)
    requires
        s.well_formed(),
        s.can_fetch(1),
        Opcode::decoding(s.operand(0, Width::Byte) as u8) is None,
    ensures
        step(s) == Some(s.advance(1).with_flag(HALT_FLAG, true)),
        step(s).unwrap().halted(),
{
    reveal(step);
    reveal(crate::semantics::execute);
    assert(1u32 & 0u32 == 0u32) by (bit_vector);
    lemma_flag_update(s.advance(1), HALT_FLAG, true, 0);
}

/// `2^bits` is the modulus of every width.
proof fn lemma_pow2_width(w: Width)
    ensures
        pow2(w.bits()) == w.modulus(),
{
    lemma2_to64();
}

/// Rotating left by `k` swaps the top `k` bits `a` and the low `bits - k`
/// bits `b` of a `w`-wide value.
proof fn lemma_rotated_swaps(a: int, b: int, k: nat, w: Width)
    requires
        0 < k < w.bits(),
        0 <= a < pow2(k),
        0 <= b < pow2((w.bits() - k) as nat),
    ensures
        rotated(a * pow2((w.bits() - k) as nat) + b, k, w) == b * pow2(k) + a,
        0 <= b * pow2(k) + a < w.modulus(),
{
    let n = w.bits();
    let pk = pow2(k) as int;
    let rest = pow2((n - k) as nat) as int;
    let m = w.modulus() as int;
    lemma_pow2_width(w);
    lemma_pow2_adds((n - k) as nat, k);
    assert(((n - k) as nat + k) as nat == n);
    assert(m == rest * pk);
    let x = a * rest + b;
    let p = x * pk;
    assert(p == a * m + b * pk) by (nonlinear_arith)
        requires
            p == x * pk,
            x == a * rest + b,
            m == rest * pk,
    ;
    assert(0 <= b * pk && b * pk + pk <= m) by (nonlinear_arith)
        requires
            0 <= b < rest,
            m == rest * pk,
            pk > 0,
    ;
    lemma_fundamental_div_mod_converse(p, m, a, b * pk);
}

/// A `w`-wide value rotated left by `k` bits and then by `(bits - k) % bits`
/// bits is the value again.
proof fn lemma_rotations_cancel(x: int, k: nat, w: Width)
    requires
        0 <= x < w.modulus(),
        k < w.bits(),
    ensures
        0 <= rotated(x, k, w) < w.modulus(),
        rotated(rotated(x, k, w), ((w.bits() - k) % (w.bits() as int)) as nat, w) == x,
{
    let n = w.bits();
    let m = w.modulus() as int;
    lemma_pow2_width(w);
    lemma2_to64();
    if k == 0 {
        assert(rotated(x, 0, w) == x) by {
            assert(x * pow2(0) == x);
            lemma_fundamental_div_mod_converse(x, m, 0, x);
        }
        lemma_fundamental_div_mod_converse(n - 0, n as int, 1, 0);
    } else {
        let j = (n - k) as nat;
        let rest = pow2(j) as int;
        let pk = pow2(k) as int;
        lemma_pow2_pos(j);
        lemma_pow2_pos(k);
        lemma_pow2_adds(j, k);
        assert((j + k) as nat == n);
        let a = x / rest;
        let b = x % rest;
        assert(x == a * rest + b && 0 <= b < rest && 0 <= a < pk) by (nonlinear_arith)
            requires
                rest > 0,
                a == x / rest,
                b == x % rest,
                0 <= x < m,
                m == rest * pk,
        ;
        lemma_rotated_swaps(a, b, k, w);
        lemma_fundamental_div_mod_converse(n - k, n as int, 0, j as int);
        assert((n - k) % (n as int) == j);
        assert((n - j) as nat == k);
        lemma_rotated_swaps(b, a, j, w);
    }
}

/// Rotating right by the count a left rotation used (taken modulo the width)
/// undoes it: register 0 ends with the low `w` bits it had before the left
/// rotation, whatever state the right rotation starts from, as long as its
/// register 0 is the left rotation's result.
pub proof fn lemma_rotate_right_undoes_rotate_left(
    s: MachineState,
    u: MachineState,
    w: Width,
    src: Source,
)
    requires
        s.well_formed(),
        u.well_formed(),
        rotate_left(s, w, src) is Some,
        rotate_right(u, w, src) is Some,
        u.reg(0) == rotate_left(s, w, src).unwrap().reg(0),
        source_value(u, src, Width::Long) % (w.bits() as int) == source_value(s, src, Width::Long)
            % (w.bits() as int),
    ensures
        rotate_right(u, w, src).unwrap().reg(0) == accumulator(s, w),
{
    let k = (source_value(s, src, Width::Long) % (w.bits() as int)) as nat;
    let x = accumulator(s, w);
    lemma_rotations_cancel(x, k, w);
    let y = rotated(x, k, w);
    assert(u.reg(0) == y as u32);
    assert(accumulator(u, w) == y);
}

/// `true` for the opcodes that fall through to the next instruction: all but
/// the jumps, calls, returns and interrupts, which set the instruction pointer.
pub open spec fn falls_through(op: Opcode) -> bool {
    match op {
        Opcode::JumpEqual
        | Opcode::JumpNotEqual
        | Opcode::JumpGreater
        | Opcode::JumpGreaterEqual
        | Opcode::JumpLess
        | Opcode::JumpLessEqual
        | Opcode::JumpSignedGreater
        | Opcode::JumpSignedGreaterEqual
        | Opcode::JumpSignedLess
        | Opcode::JumpSignedLessEqual
        | Opcode::JumpImm
        | Opcode::JumpReg
        | Opcode::Interrupt
        | Opcode::InterruptReturn
        | Opcode::Call
        | Opcode::Return => false,
        _ => true,
    }
}

/// `true` for the opcodes that store into the register named by their first
/// operand: moves to a register, pops and the single-register operations.
pub open spec fn writes_first_operand_register(op: Opcode) -> bool {
    match op {
        Opcode::MoveImmRegByte
        | Opcode::MoveImmRegShort
        | Opcode::MoveImmRegLong
        | Opcode::MoveRegRegByte
        | Opcode::MoveRegRegShort
        | Opcode::MoveRegRegLong
        | Opcode::MoveAbsRegByte
        | Opcode::MoveAbsRegShort
        | Opcode::MoveAbsRegLong
        | Opcode::MoveMemRegByte
        | Opcode::MoveMemRegShort
        | Opcode::MoveMemRegLong
        | Opcode::MoveIndirectRegByte
        | Opcode::MoveIndirectRegShort
        | Opcode::MoveIndirectRegLong
        | Opcode::PopByte
        | Opcode::PopShort
        | Opcode::PopLong
        | Opcode::NegateByte
        | Opcode::NegateShort
        | Opcode::NegateLong
        | Opcode::NotByte
        | Opcode::NotShort
        | Opcode::NotLong
        | Opcode::IncrementByte
        | Opcode::IncrementShort
        | Opcode::IncrementLong
        | Opcode::DecrementByte
        | Opcode::DecrementShort
        | Opcode::DecrementLong => true,
        _ => false,
    }
}

/// An instruction that falls through leaves the instruction pointer just past
/// the operands `operand_sizes` gives, unless it stores into the instruction
/// pointer register named by its first operand.
pub proof fn lemma_operand_sizes_advance(op: Opcode, s: MachineState)
    requires
        s.well_formed(),
        falls_through(op),
        writes_first_operand_register(op) ==> s.operand(0, Width::Byte) != IP,
        execute(op, s) is Some,
    ensures
        execute(op, s).unwrap().ip() == s.ip() + op.operand_lengths().0 + op.operand_lengths().1,
{
}

} // verus!
