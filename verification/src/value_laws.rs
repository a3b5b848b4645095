//! What single instructions compute, stated over the machine's inputs with
//! Rust's own integer conversions: the `w`-bit view of a register is a cast
//! to `u8`, `u16` or `u32`, its signed view a cast to `i8`, `i16` or `i32`.
use vstd::prelude::*;
use crate::machine::{low_bits, to_signed, wrap32, MachineState, Width, IP};
use crate::semantics::{
    and, arith_shift_right, compare, condition_holds, signed_mul, decrement, div, increment, jump, mov, multiplication, negate,
    not, or, quotient_toward_zero, shift_left, shift_right, signed_div, source_value, target,
    xor, Condition, Location, Source,
};
use vstd::arithmetic::div_mod::lemma_fundamental_div_mod_converse;
use vstd::arithmetic::mul::{
    lemma_mul_is_associative, lemma_mul_is_commutative, lemma_mul_is_distributive_add_other_way,
    lemma_mul_is_distributive_sub, lemma_mul_is_distributive_sub_other_way,
};
use vstd::arithmetic::power2::pow2;
use vstd::bits::{lemma_u32_pow2_no_overflow, lemma_u32_shr_is_div, lemma_u64_shl_is_mul};

verus! {

/// The low `w` bits of `v`, by a cast to the unsigned type of width `w`.
pub open spec fn truncate(v: u32, w: Width) -> u32 {
    match w {
        Width::Byte => (v as u8) as u32,
        Width::Short => (v as u16) as u32,
        Width::Long => v,
    }
}

/// The low `w` bits of `v` read as a two's complement number, by a cast to
/// the signed type of width `w`.
pub open spec fn signed_of(v: u32, w: Width) -> int {
    match w {
        Width::Byte => (v as i8) as int,
        Width::Short => (v as i16) as int,
        Width::Long => (v as i32) as int,
    }
}

/// The operand an instruction with source `src` works on, in full: the
/// immediate that follows the opcode, or the register whose index follows it.
pub open spec fn operand_of(s: MachineState, src: Source) -> u32 {
    match src {
        Source::Imm(f) => s.operand(0, f) as u32,
        Source::Reg(f) => s.advance(f.bytes() as int).reg(s.operand(0, f)),
    }
}

/// The absolute value of `x`.
pub open spec fn abs(x: int) -> int {
    if x < 0 {
        -x
    } else {
        x
    }
}

/// The cast views agree with the arithmetic ones.
proof fn lemma_casts(v: u32, w: Width)
    ensures
        truncate(v, w) as int == low_bits(v as int, w),
        signed_of(v, w) == to_signed(low_bits(v as int, w), w),
{
    assert((v as u8) as u32 == v % 0x100) by (bit_vector);
    assert((v as u16) as u32 == v % 0x1_0000) by (bit_vector);
    assert(v as int % 0x1_0000_0000 == v as int);
    assert(v % 0x100 >= 0x80 ==> (v as i8) as int == (v % 0x100) - 0x100) by (bit_vector);
    assert(v % 0x100 < 0x80 ==> (v as i8) as int == v % 0x100) by (bit_vector);
    assert(v % 0x1_0000 >= 0x8000 ==> (v as i16) as int == (v % 0x1_0000) - 0x1_0000)
        by (bit_vector);
    assert(v % 0x1_0000 < 0x8000 ==> (v as i16) as int == v % 0x1_0000) by (bit_vector);
    assert(v >= 0x8000_0000 ==> (v as i32) as int == v - 0x1_0000_0000) by (bit_vector);
    assert(v < 0x8000_0000 ==> (v as i32) as int == v) by (bit_vector);
}

/// The operand the arithmetic specifications read is the `w`-bit view of
/// the full operand.
proof fn lemma_operand(s: MachineState, src: Source, w: Width)
    requires
        s.well_formed(),
    ensures
        source_value(s, src, w) == low_bits(operand_of(s, src) as int, w),
{
    match src {
        Source::Imm(f) => {
            let m = s.mem;
            let a = s.ip();
            assert(0 <= s.operand(0, f) < 0x1_0000_0000) by {
                match f {
                    Width::Byte => {},
                    Width::Short => {},
                    Width::Long => {
                        assert(m[a] < 0x100 && m[a + 1] < 0x100 && m[a + 2] < 0x100 && m[a + 3]
                            < 0x100);
                    },
                }
            }
        },
        Source::Reg(f) => {},
    }
}

/// A conditional jump goes to the four-byte address after its opcode exactly
/// when its test holds of registers 0 and 1, compared as unsigned 32-bit
/// numbers, or as signed ones (`i32`) for the signed tests; otherwise it goes
/// on with the next instruction. Nothing else changes.
pub proof fn lemma_conditional_jump(s: MachineState, cond: Condition)
    requires
        s.well_formed(),
        jump(s, cond) is Some,
    ensures
        ({
            let a = s.reg(0);
            let b = s.reg(1);
            let sa = a as i32;
            let sb = b as i32;
            let taken = match cond {
                Condition::Always => true,
                Condition::Equal => a == b,
                Condition::NotEqual => a != b,
                Condition::Greater => a > b,
                Condition::GreaterEqual => a >= b,
                Condition::Less => a < b,
                Condition::LessEqual => a <= b,
                Condition::SignedGreater => sa > sb,
                Condition::SignedGreaterEqual => sa >= sb,
                Condition::SignedLess => sa < sb,
                Condition::SignedLessEqual => sa <= sb,
            };
            jump(s, cond) == Some(
                if taken {
                    s.advance(4).with_reg(IP as int, s.operand(0, Width::Long) as u32)
                } else {
                    s.advance(4)
                },
            )
        }),
{
    let a = s.reg(0);
    let b = s.reg(1);
    lemma_casts(a, Width::Long);
    lemma_casts(b, Width::Long);
    assert(low_bits(a as int, Width::Long) == a);
    assert(low_bits(b as int, Width::Long) == b);
    let t = s.advance(4);
    assert(t.reg(0) == a && t.reg(1) == b);
    assert(condition_holds(cond, a, b) == match cond {
        Condition::Always => true,
        Condition::Equal => a == b,
        Condition::NotEqual => a != b,
        Condition::Greater => a > b,
        Condition::GreaterEqual => a >= b,
        Condition::Less => a < b,
        Condition::LessEqual => a <= b,
        Condition::SignedGreater => (a as i32) > (b as i32),
        Condition::SignedGreaterEqual => (a as i32) >= (b as i32),
        Condition::SignedLess => (a as i32) < (b as i32),
        Condition::SignedLessEqual => (a as i32) <= (b as i32),
    });
}

/// A comparison sets register 0 to 1 when the low `w` bits of register 0
/// equal the low `w` bits of the operand, and to 0 when they differ.
pub proof fn lemma_compare_result(s: MachineState, w: Width, src: Source)
    requires
        s.well_formed(),
        compare(s, w, src) is Some,
    ensures
        compare(s, w, src).unwrap().reg(0) == if truncate(s.reg(0), w) == truncate(
            operand_of(s, src),
            w,
        ) {
            1u32
        } else {
            0u32
        },
{
    lemma_casts(s.reg(0), w);
    lemma_casts(operand_of(s, src), w);
    lemma_operand(s, src, w);
}

/// A `w`-wide move into a register leaves a value below `2^w` there; from a
/// register it is the low `w` bits of the source register, from an immediate
/// the immediate itself.
pub proof fn lemma_move_to_register(s: MachineState, w: Width, src: Location)
    requires
        s.well_formed(),
        mov(s, w, Location::Reg, src) is Some,
    ensures
        ({
            let t = mov(s, w, Location::Reg, src).unwrap();
            let d = s.operand(0, Width::Byte);
            &&& (t.reg(d) as int) < w.modulus()
            &&& src == Location::Reg ==> t.reg(d) == truncate(
                s.advance(2).reg(s.operand(1, Width::Byte)),
                w,
            )
            &&& src == Location::Imm ==> t.reg(d) == s.operand(1, w)
        }),
{
    let t = mov(s, w, Location::Reg, src).unwrap();
    let d = s.operand(0, Width::Byte);
    if src == Location::Reg {
        lemma_casts(s.advance(2).reg(s.operand(1, Width::Byte)), w);
    }
    let n = 1 + crate::semantics::location_len(src, w);
    let u = s.advance(n);
    let f = crate::semantics::location_field(s, 1, src, w);
    let m = u.mem;
    match src {
        Location::Imm | Location::Reg => {},
        _ => {
            let addr = crate::semantics::location_address(u, src, f);
            assert(m[addr] < 0x100 && m[addr + 1] < 0x100 && m[addr + 2] < 0x100 && m[addr + 3]
                < 0x100);
        },
    }
    assert(t.reg(d) as int == t.regs[d]);
}

/// The quotient rounded toward zero leaves a remainder smaller than the
/// divisor, with the sign of the dividend, and is no larger than the
/// dividend; as large only when the divisor is 1 or -1.
proof fn lemma_toward_zero(a: int, b: int)
    requires
        b != 0,
    ensures
        ({
            let q = quotient_toward_zero(a, b);
            let r = a - b * q;
            &&& abs(r) < abs(b)
            &&& r == 0 || ((r < 0) == (a < 0))
            &&& abs(q) <= abs(a)
            &&& (abs(q) == abs(a) && a != 0 ==> abs(b) == 1)
        }),
{
    let na = abs(a);
    let nb = abs(b);
    let q0 = na / nb;
    let r0 = na % nb;
    assert(na == nb * q0 + r0 && 0 <= r0 < nb && 0 <= q0 <= na) by (nonlinear_arith)
        requires
            na >= 0,
            nb > 0,
            q0 == na / nb,
            r0 == na % nb,
    ;
    if q0 == na && na != 0 {
        assert(nb * na <= na);
        assert(nb <= 1) by (nonlinear_arith)
            requires
                nb * na <= na,
                na > 0,
        ;
    }
    let q = quotient_toward_zero(a, b);
    if (a < 0) == (b < 0) {
        assert(q == q0);
    } else {
        assert(q == -q0);
    }
    assert(a - b * q == if a < 0 { -r0 } else { r0 }) by (nonlinear_arith)
        requires
            na == nb * q0 + r0,
            na == abs(a),
            nb == abs(b),
            q == if (a < 0) == (b < 0) { q0 } else { -q0 },
    ;
}

/// A number that fits 32 signed bits, wrapped to 32 bits and read back as an
/// `i32`, is itself.
proof fn lemma_wrap32_signed(q: int)
    requires
        -0x8000_0000 <= q < 0x8000_0000,
    ensures
        (wrap32(q) as i32) as int == q,
{
    let m: int = 0x1_0000_0000;
    if q >= 0 {
        lemma_fundamental_div_mod_converse(q, m, 0, q);
    } else {
        lemma_fundamental_div_mod_converse(q, m, -1, q + m);
    }
    let x = wrap32(q);
    lemma_casts(x, Width::Long);
}

/// A signed division gives, in registers 0 and 1 read as `i32`, the quotient
/// `q` and remainder `r` of the `w`-bit signed register 0 by the `w`-bit
/// signed operand, rounded toward zero: `a == b * q + r`, the remainder is
/// smaller than the divisor and has the sign of the dividend (or is zero).
pub proof fn lemma_signed_division(s: MachineState, w: Width, src: Source)
    requires
        s.well_formed(),
        signed_div(s, w, src) is Some,
    ensures
        ({
            let t = signed_div(s, w, src).unwrap();
            let a = signed_of(s.reg(0), w);
            let b = signed_of(operand_of(s, src), w);
            let q = (t.reg(0) as i32) as int;
            let r = (t.reg(1) as i32) as int;
            &&& b != 0
            &&& a == b * q + r
            &&& abs(r) < abs(b)
            &&& r == 0 || ((r < 0) == (a < 0))
        }),
{
    let a = signed_of(s.reg(0), w);
    let b = signed_of(operand_of(s, src), w);
    lemma_casts(s.reg(0), w);
    lemma_casts(operand_of(s, src), w);
    lemma_operand(s, src, w);
    let half = (w.modulus() / 2) as int;
    assert(-half <= a < half && -half <= b < half);
    let q = quotient_toward_zero(a, b);
    let r = a - b * q;
    lemma_toward_zero(a, b);
    assert(-0x8000_0000 <= q < 0x8000_0000) by {
        if q == 0x8000_0000 {
            assert(abs(q) == abs(a));
            assert(abs(b) == 1);
        }
    }
    assert(abs(r) < half);
    lemma_wrap32_signed(q);
    lemma_wrap32_signed(r);
    let t = signed_div(s, w, src).unwrap();
    assert(t.reg(0) == wrap32(q) && t.reg(1) == wrap32(r));
}

/// An unsigned division gives the quotient `q` in register 0 and the
/// remainder `r` in register 1 of the low `w` bits of register 0 by the low
/// `w` bits of the operand: `a == b * q + r` with `r < b`.
pub proof fn lemma_unsigned_division(s: MachineState, w: Width, src: Source)
    requires
        s.well_formed(),
        div(s, w, src) is Some,
    ensures
        ({
            let t = div(s, w, src).unwrap();
            let a = truncate(s.reg(0), w) as int;
            let b = truncate(operand_of(s, src), w) as int;
            let q = t.reg(0) as int;
            let r = t.reg(1) as int;
            &&& b != 0
            &&& a == b * q + r
            &&& 0 <= r < b
        }),
{
    lemma_casts(s.reg(0), w);
    lemma_casts(operand_of(s, src), w);
    lemma_operand(s, src, w);
    let a = truncate(s.reg(0), w) as int;
    let b = truncate(operand_of(s, src), w) as int;
    assert(a == b * (a / b) + a % b && 0 <= a % b < b && 0 <= a / b <= a) by (nonlinear_arith)
        requires
            a >= 0,
            b > 0,
    ;
}

/// A multiplication leaves in register 0 the product of the low `w` bits of
/// register 0 and of the operand, reduced modulo `2^w`.
pub proof fn lemma_multiplication_product(s: MachineState, w: Width, src: Source)
    requires
        s.well_formed(),
        multiplication(s, w, src) is Some,
    ensures
        ({
            let t = multiplication(s, w, src).unwrap();
            let a = truncate(s.reg(0), w) as int;
            let b = truncate(operand_of(s, src), w) as int;
            &&& (t.reg(0) as int) < w.modulus()
            &&& exists|k: int| #[trigger] (k * w.modulus()) + t.reg(0) == a * b
        }),
{
    lemma_casts(s.reg(0), w);
    lemma_casts(operand_of(s, src), w);
    lemma_operand(s, src, w);
    let a = truncate(s.reg(0), w) as int;
    let b = truncate(operand_of(s, src), w) as int;
    let m = w.modulus() as int;
    let p = a * b;
    assert(p >= 0) by (nonlinear_arith)
        requires
            a >= 0,
            b >= 0,
            p == a * b,
    ;
    assert(p == (p / m) * m + p % m && 0 <= p % m < m) by (nonlinear_arith)
        requires
            m > 0,
    ;
    let t = multiplication(s, w, src).unwrap();
    assert(t.reg(0) as int == p % m);
    assert((p / m) * m + t.reg(0) == a * b);
}

/// The bitwise operations combine the low `w` bits of register 0 with the
/// low `w` bits of the operand.
pub proof fn lemma_bitwise(s: MachineState, w: Width, src: Source)
    requires
        s.well_formed(),
    ensures
        ({
            let a = truncate(s.reg(0), w);
            let b = truncate(operand_of(s, src), w);
            &&& and(s, w, src) matches Some(t) ==> t.reg(0) == a & b
            &&& or(s, w, src) matches Some(t) ==> t.reg(0) == a | b
            &&& xor(s, w, src) matches Some(t) ==> t.reg(0) == a ^ b
        }),
{
    lemma_casts(s.reg(0), w);
    lemma_casts(operand_of(s, src), w);
    lemma_operand(s, src, w);
}

/// A left shift moves the low `w` bits of register 0 up by the operand (a
/// count below `w`) and keeps the low `w` bits of the result; a right shift
/// moves them down, bringing in zeros.
pub proof fn lemma_shifts(s: MachineState, w: Width, src: Source)
    requires
        s.well_formed(),
    ensures
        ({
            let a = truncate(s.reg(0), w);
            let k = truncate(operand_of(s, src), w);
            &&& shift_left(s, w, src) matches Some(t) ==> k < w.bits() && t.reg(0) == truncate(
                (((a as u64) << (k as u64)) as u32),
                w,
            )
            &&& shift_right(s, w, src) matches Some(t) ==> k < w.bits() && t.reg(0) == a >> k
        }),
{
    let a = truncate(s.reg(0), w);
    let k = truncate(operand_of(s, src), w);
    lemma_casts(s.reg(0), w);
    lemma_casts(operand_of(s, src), w);
    lemma_operand(s, src, w);
    if k < w.bits() {
        lemma_u32_pow2_no_overflow(k as nat);
        lemma_u32_shr_is_div(a, k);
        let y = (a as u64) << (k as u64);
        assert((a as u64) * pow2(k as nat) < 0x1_0000_0000 * 0x1_0000_0000) by (nonlinear_arith)
            requires
                a < 0x1_0000_0000,
                pow2(k as nat) < 0x1_0000_0000,
        ;
        lemma_u64_shl_is_mul(a as u64, k as u64);
        assert(y == a * pow2(k as nat));
        let z = y as u32;
        assert(y as u32 == y % 0x1_0000_0000) by (bit_vector);
        assert(z as int == y % 0x1_0000_0000);
        lemma_casts(z, w);
        assert(low_bits(y as int, w) == low_bits(z as int, w)) by {
            let m = w.modulus() as int;
            assert(m == 0x100 || m == 0x1_0000 || m == 0x1_0000_0000);
            assert((y as int % 0x1_0000_0000) % m == (y as int) % m) by (nonlinear_arith)
                requires
                    m == 0x100 || m == 0x1_0000 || m == 0x1_0000_0000,
                    y >= 0,
            ;
        }
    }
}

/// Increment and decrement add and subtract one from the low `w` bits of
/// the register named by the operand, wrapping from the largest `w`-bit value
/// to zero and from zero to the largest; negation gives the negative of its
/// `w`-bit signed value, and complement the complement of its bits, both read
/// back as 32-bit signed numbers.
pub proof fn lemma_single_register(s: MachineState, w: Width)
    requires
        s.well_formed(),
    ensures
        ({
            let d = target(s);
            let v = s.advance(1).reg(d);
            let x = truncate(v, w) as int;
            let max = w.modulus() - 1;
            &&& increment(s, w) matches Some(t) ==> t.reg(d) == if x == max {
                0
            } else {
                x + 1
            }
            &&& decrement(s, w) matches Some(t) ==> t.reg(d) == if x == 0 {
                max
            } else {
                x - 1
            }
            &&& negate(s, w) matches Some(t) ==> (t.reg(d) as i32) as int == -signed_of(v, w)
            &&& not(s, w) matches Some(t) ==> (t.reg(d) as i32) as int == signed_of(!v, w)
        }),
{
    let d = target(s);
    let v = s.advance(1).reg(d);
    lemma_casts(v, w);
    lemma_casts(!v, w);
    let half = (w.modulus() / 2) as int;
    assert(-half <= signed_of(v, w) < half);
    if negate(s, w) is Some {
        lemma_wrap32_signed(-signed_of(v, w));
    }
    assert(truncate(!v, w) as int == w.modulus() - 1 - truncate(v, w)) by {
        assert((!v) as u8 as int == 0xff - (v as u8) as int) by (bit_vector);
        assert((!v) as u16 as int == 0xffff - (v as u16) as int) by (bit_vector);
        assert((!v) as int == 0xffff_ffff - v as int) by (bit_vector);
    }
    lemma_wrap32_signed(signed_of(!v, w));
}

/// Expands the product of two numbers each lowered by a multiple of `m`.
proof fn lemma_product_shift(ua: int, ub: int, e1: int, e2: int, m: int)
    ensures
        (ua - e1 * m) * (ub - e2 * m) == ua * ub - (e1 * m) * ub - ua * (e2 * m) + (e1 * m) * (e2
            * m),
{
    let a = ua - e1 * m;
    lemma_mul_is_distributive_sub(a, ub, e2 * m);
    lemma_mul_is_distributive_sub_other_way(ub, ua, e1 * m);
    lemma_mul_is_distributive_sub_other_way(e2 * m, ua, e1 * m);
}

/// Multiplies a sum of five terms by `m`.
proof fn lemma_scaled_sum(h: int, x: int, y: int, z: int, e: int, m: int)
    ensures
        (h - x - y + z + e) * m == h * m - x * m - y * m + z * m + e * m,
{
    lemma_mul_is_distributive_add_other_way(m, h - x - y + z, e);
    lemma_mul_is_distributive_add_other_way(m, h - x - y, z);
    lemma_mul_is_distributive_sub_other_way(m, h - x, y);
    lemma_mul_is_distributive_sub_other_way(m, h, x);
}

/// A signed multiplication leaves in register 0, read as an `i32`, the
/// `w`-bit two's complement number congruent modulo `2^w` to the product of
/// the signed `w`-bit views of register 0 and the operand.
pub proof fn lemma_signed_multiplication(s: MachineState, w: Width, src: Source)
    requires
        s.well_formed(),
        signed_mul(s, w, src) is Some,
    ensures
        ({
            let t = signed_mul(s, w, src).unwrap();
            let y = (t.reg(0) as i32) as int;
            let a = signed_of(s.reg(0), w);
            let b = signed_of(operand_of(s, src), w);
            let m = w.modulus() as int;
            &&& -(m / 2) <= y < m / 2
            &&& exists|k: int| y + #[trigger] (k * m) == a * b
        }),
{
    lemma_casts(s.reg(0), w);
    lemma_casts(operand_of(s, src), w);
    lemma_operand(s, src, w);
    let m = w.modulus() as int;
    let ua = truncate(s.reg(0), w) as int;
    let ub = truncate(operand_of(s, src), w) as int;
    let a = signed_of(s.reg(0), w);
    let b = signed_of(operand_of(s, src), w);
    let e1: int = if ua >= m / 2 { 1 } else { 0 };
    let e2: int = if ub >= m / 2 { 1 } else { 0 };
    assert(a == ua - e1 * m && b == ub - e2 * m);
    let p = ua * ub;
    assert(p >= 0) by (nonlinear_arith)
        requires
            ua >= 0,
            ub >= 0,
            p == ua * ub,
    ;
    let lo = p % m;
    let h = p / m;
    assert(p == h * m + lo && 0 <= lo < m) by (nonlinear_arith)
        requires
            m > 0,
            lo == p % m,
            h == p / m,
    ;
    let y = to_signed(lo, w);
    let e3: int = if lo >= m / 2 { 1 } else { 0 };
    assert(y == lo - e3 * m);
    assert(-0x8000_0000 <= y < 0x8000_0000);
    lemma_wrap32_signed(y);
    let t = signed_mul(s, w, src).unwrap();
    assert(t.reg(0) == wrap32(y));
    let k = h - e1 * ub - e2 * ua + e1 * e2 * m + e3;
    lemma_product_shift(ua, ub, e1, e2, m);
    lemma_scaled_sum(h, e1 * ub, e2 * ua, e1 * e2 * m, e3, m);
    assert((e1 * ub) * m == (e1 * m) * ub && (e2 * ua) * m == ua * (e2 * m) && (e1 * e2 * m) * m
        == (e1 * m) * (e2 * m)) by {
        lemma_mul_is_associative(e1, ub, m);
        lemma_mul_is_associative(e1, m, ub);
        lemma_mul_is_commutative(ub, m);
        lemma_mul_is_associative(e2, ua, m);
        lemma_mul_is_commutative(ua, e2 * m);
        lemma_mul_is_associative(e2, m, ua);
        lemma_mul_is_commutative(ua, m);
        lemma_mul_is_associative(e1 * e2, m, m);
        lemma_mul_is_associative(e1, e2, m);
        lemma_mul_is_associative(e1 * m, e2, m);
        lemma_mul_is_associative(e1, m, e2);
        lemma_mul_is_commutative(m, e2);
        lemma_mul_is_associative(e1, e2 * m, m);
        lemma_mul_is_associative(e1, e2, m * m);
        lemma_mul_is_associative(e1 * e2, m, m);
    }
    assert(y + k * m == a * b);
}

/// An arithmetic right shift leaves in register 0, read as an `i32`, the
/// signed `w`-bit view of register 0 divided by `2^k` for the count `k`
/// (below `w`), rounded down: `2^k * q <= a < 2^k * (q + 1)`.
pub proof fn lemma_arith_shift_right(s: MachineState, w: Width, src: Source)
    requires
        s.well_formed(),
        arith_shift_right(s, w, src) is Some,
    ensures
        ({
            let t = arith_shift_right(s, w, src).unwrap();
            let q = (t.reg(0) as i32) as int;
            let a = signed_of(s.reg(0), w);
            let k = truncate(operand_of(s, src), w);
            &&& k < w.bits()
            &&& pow2(k as nat) * q <= a < pow2(k as nat) * (q + 1)
        }),
{
    lemma_casts(s.reg(0), w);
    lemma_casts(operand_of(s, src), w);
    lemma_operand(s, src, w);
    let a = signed_of(s.reg(0), w);
    let k = truncate(operand_of(s, src), w);
    let m = w.modulus() as int;
    lemma_u32_pow2_no_overflow(k as nat);
    vstd::arithmetic::power2::lemma_pow2_pos(k as nat);
    let d = pow2(k as nat) as int;
    let q = a / d;
    assert(d * q <= a < d * (q + 1)) by (nonlinear_arith)
        requires
            d > 0,
            q == a / d,
    ;
    assert(-(m / 2) <= a < m / 2);
    assert(-(m / 2) <= q < m / 2) by (nonlinear_arith)
        requires
            d >= 1,
            d * q <= a < d * (q + 1),
            -(m / 2) <= a < m / 2,
            m >= 0x100,
    ;
    assert(m <= 0x1_0000_0000);
    lemma_wrap32_signed(q);
}

} // verus!
