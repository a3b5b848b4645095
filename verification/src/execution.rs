//! Executable implementations of the instruction families of `semantics`,
//! each proved to perform exactly what its specification states.
use vstd::prelude::*;
use vstd::arithmetic::power2::{lemma2_to64, lemma_pow2_pos, pow2};
use vstd::bits::{lemma_u32_pow2_no_overflow, lemma_u32_shr_is_div, lemma_u64_shl_is_mul};
use crate::cpu::{Cpu, Memory};
use crate::machine::{
    in_bounds, low_bits, read_le, sign_extend, to_signed, wrap32, write_le, Width, CARRY_FLAG,
    FLAGS, IDT, INTERRUPT_FLAG, IP,
};
use crate::semantics::{
    condition_holds, location_address, location_field, location_len, location_ok,
    quotient_toward_zero, rotated, source_ok, source_value, syscall_number, target,
    Condition, Location, Source, Syscall,
};
use crate::semantics;

verus! {

// ---------------------------------------------------------------------------
// Values of a given width

/// The low `w` bits of `v`.
pub(crate) fn low(v: u32, w: Width) -> (r: u32)
    ensures
        r == low_bits(v as int, w),
        r < w.modulus(),
{
    match w {
        Width::Byte => {
            assert(v & 0xFF == v % 0x100) by (bit_vector);
            v & 0xFF
        },
        Width::Short => {
            assert(v & 0xFFFF == v % 0x1_0000) by (bit_vector);
            v & 0xFFFF
        },
        Width::Long => v,
    }
}

/// The low `w` bits of `v`.
pub(crate) fn wrap(v: u64, w: Width) -> (r: u32)
    ensures
        r == low_bits(v as int, w),
        r < w.modulus(),
{
    match w {
        Width::Byte => (v % 0x100) as u32,
        Width::Short => (v % 0x1_0000) as u32,
        Width::Long => (v % 0x1_0000_0000) as u32,
    }
}

/// The two's complement reading of the `w`-wide value `v`.
pub(crate) fn signed(v: u32, w: Width) -> (r: i64)
    requires
        v < w.modulus(),
    ensures
        r == to_signed(v as int, w),
{
    let m = w.range();
    if v as u64 >= m / 2 {
        v as i64 - m as i64
    } else {
        v as i64
    }
}

/// The `w`-wide value `v`, sign-extended to 32 bits.
pub(crate) fn extend(v: u64, w: Width) -> (r: u32)
    requires
        v < w.modulus(),
    ensures
        r == sign_extend(v as int, w),
{
    let m = w.range();
    if v >= m / 2 {
        (v + 0x1_0000_0000 - m) as u32
    } else {
        v as u32
    }
}

/// The 32-bit two's complement encoding of `v`.
pub(crate) fn encode32(v: i64) -> (r: u32)
    requires
        -0x1_0000_0000 < v < 0x1_0000_0000,
    ensures
        r == wrap32(v as int),
{
    if v < 0 {
        (v + 0x1_0000_0000) as u32
    } else {
        v as u32
    }
}

/// Adding the modulus does not change the low bits.
proof fn lemma_low_bits_add_modulus(x: int, w: Width)
    ensures
        low_bits(x + w.modulus(), w) == low_bits(x, w),
{
}

// ---------------------------------------------------------------------------
// Memory and operand access

/// The `w`-wide little-endian value at `addr`.
pub(crate) fn load(memory: &mut Memory, addr: usize, w: Width) -> (v: u32)
    requires
        in_bounds(old(memory).buffer@, addr as int, w),
    ensures
        *final(memory) == *old(memory),
        v == read_le(old(memory).buffer@, addr as int, w),
{
    match w {
        Width::Byte => memory.byte(addr) as u32,
        Width::Short => memory.short(addr) as u32,
        Width::Long => memory.long(addr),
    }
}

/// Stores the `w`-wide value `v` little-endian at `addr`.
pub(crate) fn store(memory: &mut Memory, addr: usize, w: Width, v: u32)
    requires
        in_bounds(old(memory).buffer@, addr as int, w),
        v < w.modulus(),
    ensures
        final(memory).buffer@ == write_le(old(memory).buffer@, addr as int, w, v as int),
{
    match w {
        Width::Byte => memory.set_byte(addr, v as u8),
        Width::Short => memory.set_short(addr, v as u16),
        Width::Long => memory.set_long(addr, v),
    }
}

/// Fetches a `f`-wide field of the instruction stream.
pub(crate) fn fetch(cpu: &mut Cpu, f: Width) -> (v: u32)
    requires
        old(cpu)@.can_fetch(f.bytes() as int),
    ensures
        v == old(cpu)@.operand(0, f),
        final(cpu)@ == old(cpu)@.advance(f.bytes() as int),
{
    match f {
        Width::Byte => cpu.next_byte() as u32,
        Width::Short => cpu.next_short() as u32,
        Width::Long => cpu.next_long(),
    }
}

/// Fetches a source operand and gives its value.
pub(crate) fn fetch_source(cpu: &mut Cpu, src: Source, w: Width) -> (v: u32)
    requires
        source_ok(old(cpu)@, src),
    ensures
        v == source_value(old(cpu)@, src, w),
        v < w.modulus(),
        final(cpu)@ == old(cpu)@.advance(src.len()),
{
    match src {
        Source::Imm(f) => {
            let value = fetch(cpu, f);
            low(value, w)
        },
        Source::Reg(f) => {
            let index = fetch(cpu, f) as usize;
            low(cpu.registers[index], w)
        },
    }
}

/// Fetches the field of a move operand.
fn fetch_location(cpu: &mut Cpu, l: Location, w: Width) -> (v: u32)
    requires
        old(cpu)@.can_fetch(location_len(l, w)),
    ensures
        v == location_field(old(cpu)@, 0, l, w),
        final(cpu)@ == old(cpu)@.advance(location_len(l, w)),
{
    match l {
        Location::Imm => fetch(cpu, w),
        Location::Reg => fetch(cpu, Width::Byte),
        Location::Ind => fetch(cpu, Width::Byte),
        Location::Abs => fetch(cpu, Width::Long),
        Location::Mem => fetch(cpu, Width::Long),
    }
}

/// The memory address a move operand denotes.
fn address(cpu: &Cpu, l: Location, field: u32, w: Width) -> (a: usize)
    requires
        l != Location::Imm,
        l != Location::Reg,
        location_ok(cpu@, l, field as int, w),
    ensures
        a == location_address(cpu@, l, field as int),
{
    proof {
        assert(cpu.memory.buffer@.len() == cpu.memory.buffer.len());
    }
    match l {
        Location::Mem => field as usize + cpu.ip(),
        Location::Ind => cpu.registers[field as usize] as usize,
        _ => field as usize,
    }
}

// ---------------------------------------------------------------------------
// Instruction families

/// Executes `semantics::mov`.
pub(crate) fn exec_mov(cpu: &mut Cpu, w: Width, dst: Location, src: Location)
    requires
        semantics::mov(old(cpu)@, w, dst, src) is Some,
    ensures
        Some(final(cpu)@) == semantics::mov(old(cpu)@, w, dst, src),
{
    let ghost s = cpu@;
    let d = fetch_location(cpu, dst, w);
    let f = fetch_location(cpu, src, w);
    proof {
        assert(f == location_field(s, location_len(dst, w), src, w));
    }
    let v = match src {
        Location::Imm => f,
        Location::Reg => low(cpu.registers[f as usize], w),
        _ => {
            let a = address(cpu, src, f, w);
            load(&mut cpu.memory, a, w)
        },
    };
    match dst {
        Location::Reg => {
            cpu.registers[d as usize] = v;
        },
        _ => {
            let a = address(cpu, dst, d, w);
            store(&mut cpu.memory, a, w, v);
        },
    }
}

/// Executes `semantics::addition`.
pub(crate) fn exec_add(cpu: &mut Cpu, w: Width, src: Source, with_carry: bool)
    requires
        semantics::addition(old(cpu)@, w, src, with_carry) is Some,
    ensures
        Some(final(cpu)@) == semantics::addition(old(cpu)@, w, src, with_carry),
{
    let lhs = low(cpu.registers[0], w) as u64;
    let rhs = fetch_source(cpu, src, w) as u64;
    let carry: u64 = if with_carry && cpu.has_flag(CARRY_FLAG) {
        1
    } else {
        0
    };
    let sum = lhs + rhs + carry;
    cpu.registers[0] = wrap(sum, w);
    cpu.set_flag(CARRY_FLAG, sum >= w.range());
}

/// Executes `semantics::subtraction`.
pub(crate) fn exec_sub(cpu: &mut Cpu, w: Width, src: Source, with_borrow: bool)
    requires
        semantics::subtraction(old(cpu)@, w, src, with_borrow) is Some,
    ensures
        Some(final(cpu)@) == semantics::subtraction(old(cpu)@, w, src, with_borrow),
{
    let lhs = low(cpu.registers[0], w) as u64;
    let rhs = fetch_source(cpu, src, w) as u64;
    let borrow: u64 = if with_borrow && cpu.has_flag(CARRY_FLAG) {
        1
    } else {
        0
    };
    let m = w.range();
    proof {
        lemma_low_bits_add_modulus(lhs - rhs - borrow, w);
    }
    cpu.registers[0] = wrap(lhs + m - rhs - borrow, w);
    cpu.set_flag(CARRY_FLAG, lhs < rhs + borrow);
}

/// Executes `semantics::multiplication`.
pub(crate) fn exec_mul(cpu: &mut Cpu, w: Width, src: Source)
    requires
        semantics::multiplication(old(cpu)@, w, src) is Some,
    ensures
        Some(final(cpu)@) == semantics::multiplication(old(cpu)@, w, src),
{
    let lhs = low(cpu.registers[0], w) as u64;
    let rhs = fetch_source(cpu, src, w) as u64;
    assert(lhs * rhs <= 0xFFFF_FFFE_0000_0001) by (nonlinear_arith)
        requires
            lhs <= 0xFFFF_FFFF,
            rhs <= 0xFFFF_FFFF,
    ;
    cpu.registers[0] = wrap(lhs * rhs, w);
}

/// Executes `semantics::div`.
pub(crate) fn exec_div(cpu: &mut Cpu, w: Width, src: Source)
    requires
        semantics::div(old(cpu)@, w, src) is Some,
    ensures
        Some(final(cpu)@) == semantics::div(old(cpu)@, w, src),
{
    let lhs = low(cpu.registers[0], w);
    let rhs = fetch_source(cpu, src, w);
    let quotient = lhs / rhs;
    let remainder = lhs % rhs;
    cpu.registers[0] = quotient;
    cpu.registers[1] = remainder;
}

/// Executes `semantics::signed_mul`.
pub(crate) fn exec_signed_mul(cpu: &mut Cpu, w: Width, src: Source)
    requires
        semantics::signed_mul(old(cpu)@, w, src) is Some,
    ensures
        Some(final(cpu)@) == semantics::signed_mul(old(cpu)@, w, src),
{
    let lhs = low(cpu.registers[0], w) as u64;
    let rhs = fetch_source(cpu, src, w) as u64;
    assert(lhs * rhs <= 0xFFFF_FFFE_0000_0001) by (nonlinear_arith)
        requires
            lhs <= 0xFFFF_FFFF,
            rhs <= 0xFFFF_FFFF,
    ;
    let product = wrap(lhs * rhs, w);
    cpu.registers[0] = extend(product as u64, w);
}

/// Executes `semantics::signed_div`.
pub(crate) fn exec_signed_div(cpu: &mut Cpu, w: Width, src: Source)
    requires
        semantics::signed_div(old(cpu)@, w, src) is Some,
    ensures
        Some(final(cpu)@) == semantics::signed_div(old(cpu)@, w, src),
{
    let lhs = signed(low(cpu.registers[0], w), w);
    let rhs = signed(fetch_source(cpu, src, w), w);
    let quotient = lhs.checked_div(rhs).unwrap();
    let remainder = lhs.checked_rem(rhs).unwrap();
    proof {
        lemma_truncated_division(lhs as int, rhs as int);
    }
    cpu.registers[0] = encode32(quotient);
    cpu.registers[1] = encode32(remainder);
}

/// Executes `semantics::and`.
pub(crate) fn exec_and(cpu: &mut Cpu, w: Width, src: Source)
    requires
        semantics::and(old(cpu)@, w, src) is Some,
    ensures
        Some(final(cpu)@) == semantics::and(old(cpu)@, w, src),
{
    let lhs = low(cpu.registers[0], w);
    let rhs = fetch_source(cpu, src, w);
    cpu.registers[0] = lhs & rhs;
}

/// Executes `semantics::or`.
pub(crate) fn exec_or(cpu: &mut Cpu, w: Width, src: Source)
    requires
        semantics::or(old(cpu)@, w, src) is Some,
    ensures
        Some(final(cpu)@) == semantics::or(old(cpu)@, w, src),
{
    let lhs = low(cpu.registers[0], w);
    let rhs = fetch_source(cpu, src, w);
    cpu.registers[0] = lhs | rhs;
}

/// Executes `semantics::xor`.
pub(crate) fn exec_xor(cpu: &mut Cpu, w: Width, src: Source)
    requires
        semantics::xor(old(cpu)@, w, src) is Some,
    ensures
        Some(final(cpu)@) == semantics::xor(old(cpu)@, w, src),
{
    let lhs = low(cpu.registers[0], w);
    let rhs = fetch_source(cpu, src, w);
    cpu.registers[0] = lhs ^ rhs;
}

/// Executes `semantics::compare`.
pub(crate) fn exec_compare(cpu: &mut Cpu, w: Width, src: Source)
    requires
        semantics::compare(old(cpu)@, w, src) is Some,
    ensures
        Some(final(cpu)@) == semantics::compare(old(cpu)@, w, src),
{
    let lhs = low(cpu.registers[0], w);
    let rhs = fetch_source(cpu, src, w);
    cpu.registers[0] = if lhs == rhs {
        1
    } else {
        0
    };
}

/// `x << k` is `x * 2^k` for a 32-bit `x` and `k < 32`, computed in 64 bits.
proof fn lemma_shl_fits(x: u64, k: u64)
    requires
        x < 0x1_0000_0000,
        k < 32,
    ensures
        x << k == x * pow2(k as nat),
        x * pow2(k as nat) < 0x1_0000_0000 * 0x1_0000_0000,
{
    lemma_u32_pow2_no_overflow(k as nat);
    assert(x * pow2(k as nat) < 0x1_0000_0000 * 0x1_0000_0000) by (nonlinear_arith)
        requires
            x < 0x1_0000_0000,
            pow2(k as nat) < 0x1_0000_0000,
    ;
    lemma_u64_shl_is_mul(x, k);
}

/// `2^bits` of each width.
proof fn lemma_pow2_bits(w: Width)
    ensures
        pow2(w.bits()) == w.modulus(),
{
    lemma2_to64();
}

/// Executes `semantics::shift_left`.
pub(crate) fn exec_shift_left(cpu: &mut Cpu, w: Width, src: Source)
    requires
        semantics::shift_left(old(cpu)@, w, src) is Some,
    ensures
        Some(final(cpu)@) == semantics::shift_left(old(cpu)@, w, src),
{
    let lhs = low(cpu.registers[0], w) as u64;
    let amount = fetch_source(cpu, src, w) as u64;
    proof {
        lemma_shl_fits(lhs, amount);
    }
    cpu.registers[0] = wrap(lhs << amount, w);
}

/// Executes `semantics::shift_right`.
pub(crate) fn exec_shift_right(cpu: &mut Cpu, w: Width, src: Source)
    requires
        semantics::shift_right(old(cpu)@, w, src) is Some,
    ensures
        Some(final(cpu)@) == semantics::shift_right(old(cpu)@, w, src),
{
    let lhs = low(cpu.registers[0], w);
    let amount = fetch_source(cpu, src, w);
    proof {
        lemma_u32_shr_is_div(lhs, amount);
    }
    cpu.registers[0] = lhs >> amount;
}

/// Executes `semantics::arith_shift_left`.
pub(crate) fn exec_arith_shift_left(cpu: &mut Cpu, w: Width, src: Source)
    requires
        semantics::arith_shift_left(old(cpu)@, w, src) is Some,
    ensures
        Some(final(cpu)@) == semantics::arith_shift_left(old(cpu)@, w, src),
{
    let lhs = low(cpu.registers[0], w) as u64;
    let amount = fetch_source(cpu, src, w) as u64;
    proof {
        lemma_shl_fits(lhs, amount);
    }
    let shifted = wrap(lhs << amount, w);
    cpu.registers[0] = extend(shifted as u64, w);
}

/// Floor division by a power of two, of a negative number through its complement.
proof fn lemma_floor_div_negative(v: int, p: int)
    requires
        v < 0,
        p > 0,
    ensures
        v / p == -((-v - 1) / p) - 1,
{
    let u = -v - 1;
    let q = u / p;
    let r = u % p;
    assert(u == q * p + r && 0 <= r < p) by (nonlinear_arith)
        requires
            u >= 0,
            p > 0,
            q == u / p,
            r == u % p,
    ;
    assert(v == (-q - 1) * p + (p - r - 1)) by (nonlinear_arith)
        requires
            v == -u - 1,
            u == q * p + r,
    ;
    vstd::arithmetic::div_mod::lemma_fundamental_div_mod_converse(v, p, -q - 1, p - r - 1);
}

/// Executes `semantics::arith_shift_right`.
pub(crate) fn exec_arith_shift_right(cpu: &mut Cpu, w: Width, src: Source)
    requires
        semantics::arith_shift_right(old(cpu)@, w, src) is Some,
    ensures
        Some(final(cpu)@) == semantics::arith_shift_right(old(cpu)@, w, src),
{
    let value = signed(low(cpu.registers[0], w), w);
    let amount = fetch_source(cpu, src, w);
    proof {
        lemma_u32_pow2_no_overflow(amount as nat);
        lemma_pow2_pos(amount as nat);
    }
    let quotient: i64 = if value >= 0 {
        proof {
            lemma_u32_shr_is_div(value as u32, amount);
        }
        ((value as u32) >> amount) as i64
    } else {
        proof {
            lemma_u32_shr_is_div((-value - 1) as u32, amount);
            lemma_floor_div_negative(value as int, pow2(amount as nat) as int);
        }
        -((((-value - 1) as u32) >> amount) as i64) - 1
    };
    proof {
        assert(quotient == (value as int) / (pow2(amount as nat) as int));
        assert(-0x8000_0000 <= quotient <= 0x7FFF_FFFF) by (nonlinear_arith)
            requires
                quotient == (value as int) / (pow2(amount as nat) as int),
                pow2(amount as nat) > 0,
                -0x8000_0000 <= value <= 0x7FFF_FFFF,
        ;
    }
    cpu.registers[0] = encode32(quotient);
}

/// The rotated value fits the width: the bits shifted out of the top come back
/// in at the bottom, where the shift left zeros.
proof fn lemma_rotated_fits(x: int, k: nat, w: Width)
    requires
        0 <= x < w.modulus(),
        k < w.bits(),
    ensures
        0 <= rotated(x, k, w) < w.modulus(),
{
    let m = w.modulus() as int;
    let pk = pow2(k) as int;
    let rest = pow2((w.bits() - k) as nat) as int;
    lemma_pow2_bits(w);
    lemma_pow2_pos(k);
    lemma_pow2_pos((w.bits() - k) as nat);
    vstd::arithmetic::power2::lemma_pow2_adds(k, (w.bits() - k) as nat);
    assert(m == pk * rest);
    let p = x * pk;
    let q = p / m;
    let r = p % m;
    assert(p == q * m + r && 0 <= r < m) by (nonlinear_arith)
        requires
            p >= 0,
            m > 0,
            q == p / m,
            r == p % m,
    ;
    assert(q < pk) by (nonlinear_arith)
        requires
            p == x * pk,
            x < m,
            pk > 0,
            p == q * m + r,
            0 <= r,
            m > 0,
    ;
    let j = x - q * rest;
    assert(r == pk * j) by (nonlinear_arith)
        requires
            p == x * pk,
            p == q * m + r,
            m == pk * rest,
            j == x - q * rest,
    ;
    assert(r + q < m) by (nonlinear_arith)
        requires
            r == pk * j,
            0 <= r < m,
            m == pk * rest,
            pk > 0,
            0 <= q < pk,
    ;
    assert(q >= 0) by (nonlinear_arith)
        requires
            p >= 0,
            m > 0,
            q == p / m,
    ;
}

/// The value `x` (of width `w`) rotated left by `k < w.bits()` bits.
fn rotate(x: u32, k: u32, w: Width) -> (r: u32)
    requires
        x < w.modulus(),
        k < w.bits(),
    ensures
        r == rotated(x as int, k as nat, w),
{
    proof {
        lemma_shl_fits(x as u64, k as u64);
        lemma_rotated_fits(x as int, k as nat, w);
    }
    let p = (x as u64) << (k as u64);
    let m = w.range();
    (p % m + p / m) as u32
}

/// Executes `semantics::rotate_left`.
pub(crate) fn exec_rotate_left(cpu: &mut Cpu, w: Width, src: Source)
    requires
        semantics::rotate_left(old(cpu)@, w, src) is Some,
    ensures
        Some(final(cpu)@) == semantics::rotate_left(old(cpu)@, w, src),
{
    let value = low(cpu.registers[0], w);
    let amount = fetch_source(cpu, src, Width::Long);
    cpu.registers[0] = rotate(value, amount % w.bit_count(), w);
}

/// Executes `semantics::rotate_right`.
pub(crate) fn exec_rotate_right(cpu: &mut Cpu, w: Width, src: Source)
    requires
        semantics::rotate_right(old(cpu)@, w, src) is Some,
    ensures
        Some(final(cpu)@) == semantics::rotate_right(old(cpu)@, w, src),
{
    let value = low(cpu.registers[0], w);
    let amount = fetch_source(cpu, src, Width::Long);
    let bits = w.bit_count();
    cpu.registers[0] = rotate(value, (bits - amount % bits) % bits, w);
}

/// Fetches the index of a single register operand.
fn fetch_target(cpu: &mut Cpu) -> (r: usize)
    requires
        semantics::target_ok(old(cpu)@),
    ensures
        r == target(old(cpu)@),
        r < 22,
        final(cpu)@ == old(cpu)@.advance(1),
{
    cpu.next_byte() as usize
}

/// Executes `semantics::negate`.
pub(crate) fn exec_negate(cpu: &mut Cpu, w: Width)
    requires
        semantics::negate(old(cpu)@, w) is Some,
    ensures
        Some(final(cpu)@) == semantics::negate(old(cpu)@, w),
{
    let reg = fetch_target(cpu);
    let value = signed(low(cpu.registers[reg], w), w);
    cpu.registers[reg] = encode32(-value);
}

/// Executes `semantics::not`.
pub(crate) fn exec_not(cpu: &mut Cpu, w: Width)
    requires
        semantics::not(old(cpu)@, w) is Some,
    ensures
        Some(final(cpu)@) == semantics::not(old(cpu)@, w),
{
    let reg = fetch_target(cpu);
    let value = low(cpu.registers[reg], w) as u64;
    cpu.registers[reg] = extend(w.range() - 1 - value, w);
}

/// Executes `semantics::increment`.
pub(crate) fn exec_increment(cpu: &mut Cpu, w: Width)
    requires
        semantics::increment(old(cpu)@, w) is Some,
    ensures
        Some(final(cpu)@) == semantics::increment(old(cpu)@, w),
{
    let reg = fetch_target(cpu);
    let value = low(cpu.registers[reg], w) as u64;
    cpu.registers[reg] = wrap(value + 1, w);
}

/// Executes `semantics::decrement`.
pub(crate) fn exec_decrement(cpu: &mut Cpu, w: Width)
    requires
        semantics::decrement(old(cpu)@, w) is Some,
    ensures
        Some(final(cpu)@) == semantics::decrement(old(cpu)@, w),
{
    let reg = fetch_target(cpu);
    let value = low(cpu.registers[reg], w) as u64;
    proof {
        lemma_low_bits_add_modulus(value - 1, w);
    }
    cpu.registers[reg] = wrap(value + w.range() - 1, w);
}

/// Executes `semantics::push`.
pub(crate) fn exec_push(cpu: &mut Cpu, w: Width, src: Source)
    requires
        semantics::push(old(cpu)@, w, src) is Some,
    ensures
        Some(final(cpu)@) == semantics::push(old(cpu)@, w, src),
{
    cpu.dec_sp(w.size());
    let value = fetch_source(cpu, src, w);
    let sp = cpu.sp();
    store(&mut cpu.memory, sp, w, value);
}

/// Executes `semantics::pop`.
pub(crate) fn exec_pop(cpu: &mut Cpu, w: Width)
    requires
        semantics::pop(old(cpu)@, w) is Some,
    ensures
        Some(final(cpu)@) == semantics::pop(old(cpu)@, w),
{
    let dest = fetch_target(cpu);
    let sp = cpu.sp();
    let value = load(&mut cpu.memory, sp, w);
    cpu.registers[dest] = value;
    cpu.inc_sp(w.size());
}

/// Whether `cond` holds of `a` and `b`.
fn holds(cond: Condition, a: u32, b: u32) -> (r: bool)
    ensures
        r == condition_holds(cond, a, b),
{
    let sa = signed(a, Width::Long);
    let sb = signed(b, Width::Long);
    match cond {
        Condition::Always => true,
        Condition::Equal => a == b,
        Condition::NotEqual => a != b,
        Condition::Greater => a > b,
        Condition::GreaterEqual => a >= b,
        Condition::Less => a < b,
        Condition::LessEqual => a <= b,
        Condition::SignedGreater => sa > sb,
        Condition::SignedGreaterEqual => sa >= sb,
        Condition::SignedLess => sa < sb,
        Condition::SignedLessEqual => sa <= sb,
    }
}

/// Executes `semantics::jump`.
pub(crate) fn exec_jump(cpu: &mut Cpu, cond: Condition)
    requires
        semantics::jump(old(cpu)@, cond) is Some,
    ensures
        Some(final(cpu)@) == semantics::jump(old(cpu)@, cond),
{
    let addr = cpu.next_long();
    if holds(cond, cpu.registers[0], cpu.registers[1]) {
        cpu.registers[IP] = addr;
    }
}

/// Executes `semantics::jump_reg`.
pub(crate) fn exec_jump_reg(cpu: &mut Cpu)
    requires
        semantics::jump_reg(old(cpu)@) is Some,
    ensures
        Some(final(cpu)@) == semantics::jump_reg(old(cpu)@),
{
    let index = fetch_target(cpu);
    let addr = cpu.registers[index];
    cpu.registers[IP] = addr;
}

/// Executes `semantics::call`.
pub(crate) fn exec_call(cpu: &mut Cpu)
    requires
        semantics::call(old(cpu)@) is Some,
    ensures
        Some(final(cpu)@) == semantics::call(old(cpu)@),
{
    cpu.dec_sp(4);
    let addr = cpu.next_long();
    let sp = cpu.sp();
    let ip = cpu.registers[IP];
    cpu.memory.set_long(sp, ip);
    cpu.registers[IP] = addr;
}

/// Executes `semantics::ret`.
pub(crate) fn exec_ret(cpu: &mut Cpu)
    requires
        semantics::ret(old(cpu)@) is Some,
    ensures
        Some(final(cpu)@) == semantics::ret(old(cpu)@),
{
    let sp = cpu.sp();
    let addr = cpu.memory.long(sp);
    cpu.inc_sp(4);
    cpu.registers[IP] = addr;
}

/// Executes `semantics::interrupt`.
pub(crate) fn exec_interrupt(cpu: &mut Cpu)
    requires
        semantics::interrupt(old(cpu)@) is Some,
    ensures
        Some(final(cpu)@) == semantics::interrupt(old(cpu)@),
{
    // Interrupts are not nested: one raised while another is serviced is dropped.
    let busy_in_interrupt = (cpu.registers[FLAGS] & INTERRUPT_FLAG) != 0;
    proof {
        let f = cpu.registers@[FLAGS as int];
        assert((f & 2u32 != 0) == (f & 2u32 == 2u32)) by (bit_vector);
    }
    if busy_in_interrupt {
        return;
    }
    let irq = cpu.next_byte() as u32;
    let isr_addr = cpu.registers[IDT] + irq * 4;
    let return_address = cpu.registers[IP];
    cpu.dec_sp(4);
    let sp = cpu.sp();
    cpu.memory.set_long(sp, return_address);
    cpu.set_flag(INTERRUPT_FLAG, true);
    let target = cpu.memory.long(isr_addr as usize);
    cpu.registers[IP] = target;
}

/// Executes `semantics::interrupt_return`.
pub(crate) fn exec_interrupt_return(cpu: &mut Cpu)
    requires
        semantics::interrupt_return(old(cpu)@) is Some,
    ensures
        Some(final(cpu)@) == semantics::interrupt_return(old(cpu)@),
{
    cpu.set_flag(INTERRUPT_FLAG, false);
    exec_ret(cpu);
}

/// Executes `semantics::syscall`, giving the request it names.
pub(crate) fn exec_syscall(cpu: &mut Cpu) -> (request: Syscall)
    requires
        semantics::syscall(old(cpu)@) is Some,
    ensures
        Some(final(cpu)@) == semantics::syscall(old(cpu)@),
        Some(request) == syscall_number(old(cpu)@.operand(0, Width::Byte)),
{
    let index = cpu.next_byte();
    match index {
        0 => Syscall::LogMemory,
        1 => Syscall::Log,
        2 => Syscall::PrintString,
        _ => Syscall::PrintRegister,
    }
}

/// The quotient and remainder that `checked_div` and `checked_rem` compute
/// are the quotient rounded toward zero and the remainder that goes with it.
proof fn lemma_truncated_division(a: int, b: int)
    requires
        b != 0,
    ensures
        ({
            let x = a;
            let d = b;
            let output = if x == 0 {
                0
            } else if x > 0 && d > 0 {
                x / d
            } else if x < 0 && d < 0 {
                ((x * -1) / (d * -1))
            } else if x < 0 {
                ((x * -1) / d) * -1
            } else {
                (x / (d * -1)) * -1
            };
            output == quotient_toward_zero(a, b)
        }),
        ({
            let x = a;
            let d = b;
            let output = if x == 0 {
                0
            } else if x > 0 && d > 0 {
                x % d
            } else if x < 0 && d < 0 {
                ((x * -1) % (d * -1)) * -1
            } else if x < 0 {
                ((x * -1) % d) * -1
            } else {
                x % (d * -1)
            };
            output == a - b * quotient_toward_zero(a, b)
        }),
{
    let na = if a < 0 { -a } else { a };
    let nb = if b < 0 { -b } else { b };
    let q = na / nb;
    assert(na % nb == na - nb * q) by (nonlinear_arith)
        requires
            na >= 0,
            nb > 0,
            q == na / nb,
    ;
    if a < 0 && b < 0 {
        assert(a - b * q == -(na - nb * q)) by (nonlinear_arith)
            requires
                na == -a,
                nb == -b,
        ;
    } else if a < 0 {
        assert(a - b * (-q) == -(na - nb * q)) by (nonlinear_arith)
            requires
                na == -a,
                nb == b,
        ;
    } else if b < 0 {
        assert(a - b * (-q) == na - nb * q) by (nonlinear_arith)
            requires
                na == a,
                nb == -b,
        ;
    }
}

} // verus!
