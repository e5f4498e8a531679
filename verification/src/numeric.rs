//! The 32-bit integer lane.
//!
//! A lane value is a `u32` bit pattern. Signedness belongs to the operator:
//! the signed operators read their operands through [`signed`] and put the
//! result back with [`wrap`].
use vstd::prelude::*;
use vstd::std_specs::bits::{
    axiom_u32_leading_zeros, axiom_u32_trailing_zeros, u32_leading_zeros, u32_trailing_zeros,
};
use crate::ast::{BinOp, UnaryOp};
use crate::Program;

verus! {

/// The two's-complement reading of a 32-bit pattern.
pub open spec fn signed(x: u32) -> int {
    if x < 0x8000_0000 {
        x as int
    } else {
        x as int - 0x1_0000_0000
    }
}

/// The 32-bit pattern of an integer: its residue modulo 2^32.
pub open spec fn wrap(i: int) -> u32 {
    (i % 0x1_0000_0000) as u32
}

/// The distance of an integer from zero.
pub open spec fn magnitude(i: int) -> int {
    if i < 0 {
        -i
    } else {
        i
    }
}

/// The quotient of `a` by `b`, rounded toward zero.
pub open spec fn div_toward_zero(a: int, b: int) -> int
    recommends
        b != 0,
{
    let q = magnitude(a) / magnitude(b);
    if (a < 0) != (b < 0) {
        -q
    } else {
        q
    }
}

/// What is left of `a` once `b` has been taken out `div_toward_zero(a, b)`
/// times. It has the sign of `a`.
pub open spec fn rem_toward_zero(a: int, b: int) -> int
    recommends
        b != 0,
{
    a - b * div_toward_zero(a, b)
}

/// A truth value as a lane value: 1 for true, 0 for false.
pub open spec fn flag(b: bool) -> u32 {
    if b {
        1
    } else {
        0
    }
}

/// `x` with its bits moved `k` places toward the high end, those pushed out
/// coming back in at the low end.
pub open spec fn rotated_left(x: u32, k: u32) -> u32
    recommends
        k < 32,
{
    if k == 0 {
        x
    } else {
        (x << k) | (x >> ((32 - k) as u32))
    }
}

/// `x` with its bits moved `k` places toward the low end, those pushed out
/// coming back in at the high end.
pub open spec fn rotated_right(x: u32, k: u32) -> u32
    recommends
        k < 32,
{
    if k == 0 {
        x
    } else {
        (x >> k) | (x << ((32 - k) as u32))
    }
}

/// The number of one bits in `x`.
pub open spec fn ones(x: u32) -> nat
    decreases x,
{
    if x == 0 {
        0
    } else {
        (x % 2) as nat + ones(x / 2)
    }
}

/// `u32::rotate_left` with an amount below the width of the type: the bits
/// shifted out at the high end are put back at the low end.
pub assume_specification[ u32::rotate_left ](x: u32, n: u32) -> (r: u32)
    requires
        n < 32,
    ensures
        r == rotated_left(x, n),
;

/// `u32::rotate_right` with an amount below the width of the type: the bits
/// shifted out at the low end are put back at the high end.
pub assume_specification[ u32::rotate_right ](x: u32, n: u32) -> (r: u32)
    requires
        n < 32,
    ensures
        r == rotated_right(x, n),
;

/// `u32::count_ones` returns the number of ones in the binary representation
/// of its argument.
pub assume_specification[ u32::count_ones ](x: u32) -> (r: u32)
    ensures
        r == ones(x),
;

impl BinOp {
    /// Whether the operator divides by its right operand.
    pub open spec fn divides(self) -> bool {
        self == BinOp::DivS || self == BinOp::DivU || self == BinOp::RemS || self == BinOp::RemU
    }

    /// Whether the operator compares its operands.
    pub open spec fn compares(self) -> bool {
        match self {
            BinOp::Eq | BinOp::Ne => true,
            BinOp::LtU | BinOp::LeU | BinOp::GtU | BinOp::GeU => true,
            BinOp::LtS | BinOp::LeS | BinOp::GtS | BinOp::GeS => true,
            _ => false,
        }
    }

    /// Whether the operator divides by its right operand.
    pub fn is_division(&self) -> (b: bool)
        ensures
            b == self.divides(),
    {
        match self {
            BinOp::DivS | BinOp::DivU | BinOp::RemS | BinOp::RemU => true,
            _ => false,
        }
    }
}

/// The result of a binary operator in the 32-bit integer lane.
///
/// The four dividing operators say nothing for a zero divisor; everything
/// else is defined for every pair of operands. A signed quotient that does
/// not fit (the least value divided by -1) is wrapped like any other result.
pub open spec fn binop(op: BinOp, lhs: u32, rhs: u32) -> u32 {
    match op {
        BinOp::Add => wrap(lhs + rhs),
        BinOp::Sub => wrap(lhs - rhs),
        BinOp::Mul => wrap(lhs * rhs),
        BinOp::DivU => lhs / rhs,
        BinOp::RemU => lhs % rhs,
        BinOp::DivS => wrap(div_toward_zero(signed(lhs), signed(rhs))),
        BinOp::RemS => wrap(rem_toward_zero(signed(lhs), signed(rhs))),
        BinOp::And => lhs & rhs,
        BinOp::Or => lhs | rhs,
        BinOp::Xor => lhs ^ rhs,
        BinOp::Shl => lhs << (rhs % 32),
        BinOp::ShrU => lhs >> (rhs % 32),
        BinOp::ShrS => ((lhs as i32) >> (rhs % 32)) as u32,
        BinOp::RotL => rotated_left(lhs, rhs % 32),
        BinOp::RotR => rotated_right(lhs, rhs % 32),
        BinOp::Eq => flag(lhs == rhs),
        BinOp::Ne => flag(lhs != rhs),
        BinOp::LtU => flag(lhs < rhs),
        BinOp::LeU => flag(lhs <= rhs),
        BinOp::GtU => flag(lhs > rhs),
        BinOp::GeU => flag(lhs >= rhs),
        BinOp::LtS => flag(signed(lhs) < signed(rhs)),
        BinOp::LeS => flag(signed(lhs) <= signed(rhs)),
        BinOp::GtS => flag(signed(lhs) > signed(rhs)),
        BinOp::GeS => flag(signed(lhs) >= signed(rhs)),
    }
}

/// The result of a unary operator in the 32-bit integer lane.
pub open spec fn unop(op: UnaryOp, arg: u32) -> u32 {
    match op {
        UnaryOp::Clz => u32_leading_zeros(arg),
        UnaryOp::Ctz => u32_trailing_zeros(arg),
        UnaryOp::Popcnt => ones(arg) as u32,
        UnaryOp::Eqz => flag(arg == 0),
    }
}

/// Addition, subtraction and multiplication are those of the integers, taken
/// modulo 2^32.
pub proof fn lemma_arithmetic_wraps(a: u32, b: u32)
    ensures
        binop(BinOp::Add, a, b) == (a + b) % 0x1_0000_0000,
        binop(BinOp::Sub, a, b) == (a - b) % 0x1_0000_0000,
        binop(BinOp::Mul, a, b) == (a * b) % 0x1_0000_0000,
{
}

/// Rotating to the right and then to the left by the same amount gives the
/// value back, and so does rotating to the left and then to the right.
pub proof fn lemma_rotations_undo(a: u32, k: u32)
    requires
        k < 32,
    ensures
        binop(BinOp::RotL, binop(BinOp::RotR, a, k), k) == a,
        binop(BinOp::RotR, binop(BinOp::RotL, a, k), k) == a,
{
    assert(k % 32 == k);
    assert(rotated_left(rotated_right(a, k), k) == a && rotated_right(rotated_left(a, k), k) == a)
        by (bit_vector)
        requires
            k < 32,
    ;
}

/// The zero test gives 1 for zero and 0 for everything else.
pub proof fn lemma_eqz(a: u32)
    ensures
        unop(UnaryOp::Eqz, 0) == 1,
        a != 0 ==> unop(UnaryOp::Eqz, a) == 0,
{
}

/// The signed quotient and remainder take the dividend apart: the divisor
/// times the quotient, plus the remainder, is the dividend; the remainder is
/// nearer to zero than the divisor and, unless it is zero, has the sign of
/// the dividend.
pub proof fn lemma_signed_division(a: int, b: int)
    requires
        b != 0,
    ensures
        a == b * div_toward_zero(a, b) + rem_toward_zero(a, b),
        magnitude(rem_toward_zero(a, b)) < magnitude(b),
        rem_toward_zero(a, b) > 0 ==> a > 0,
        rem_toward_zero(a, b) < 0 ==> a < 0,
{
    let m = magnitude(a);
    let n = magnitude(b);
    let q = m / n;
    assert(m == n * q + m % n && 0 <= m % n < n) by (nonlinear_arith)
        requires
            n > 0,
            q == m / n,
    ;
    assert(b * (-q) == -(b * q)) by (nonlinear_arith);
    assert((-b) * q == -(b * q)) by (nonlinear_arith);
}

/// A value has at most 32 one bits.
pub proof fn lemma_ones_bound(x: u32)
    ensures
        ones(x) <= 32,
{
    lemma_ones_below(x, 32);
}

/// A value below 2 to the power `width` has at most `width` one bits.
proof fn lemma_ones_below(x: u32, width: nat)
    requires
        width <= 32,
        width < 32 ==> (x >> (width as u32)) == 0,
    ensures
        ones(x) <= width,
    decreases width,
{
    if x != 0 {
        let w = width as u32;
        assert(w > 0) by (bit_vector)
            requires
                x != 0,
                w <= 32,
                w < 32 ==> (x >> w) == 0,
        ;
        let v = (w - 1) as u32;
        assert((x / 2) >> v == 0) by (bit_vector)
            requires
                0 < w <= 32,
                v == w - 1,
                w < 32 ==> (x >> w) == 0,
        ;
        lemma_ones_below(x / 2, (width - 1) as nat);
    }
}

/// The count of leading zeros is 32 for zero; for any other value it is
/// below 32, the bit just under the counted ones is set, and nothing is set
/// above it.
pub proof fn lemma_leading_zeros(a: u32)
    ensures
        unop(UnaryOp::Clz, a) <= 32,
        a == 0 <==> unop(UnaryOp::Clz, a) == 32,
        a != 0 ==> (a >> ((31 - unop(UnaryOp::Clz, a)) as u32)) == 1,
{
    axiom_u32_leading_zeros(a);
    let n = u32_leading_zeros(a);
    if a != 0 {
        let high = (32 - n) as u32;
        let top = (31 - n) as u32;
        assert(a >> top == 1) by (bit_vector)
            requires
                n < 32,
                high == 32 - n,
                top == 31 - n,
                a >> high == 0,
                (a >> top) & 1 != 0,
        ;
    }
}

/// The count of trailing zeros is 32 for zero; for any other value it is
/// below 32, the bit just above the counted ones is set, and nothing is set
/// below it.
pub proof fn lemma_trailing_zeros(a: u32)
    ensures
        unop(UnaryOp::Ctz, a) <= 32,
        a == 0 <==> unop(UnaryOp::Ctz, a) == 32,
        a != 0 ==> (a >> unop(UnaryOp::Ctz, a)) & 1 == 1,
        a != 0 ==> a << ((32 - unop(UnaryOp::Ctz, a)) as u32) == 0,
{
    axiom_u32_trailing_zeros(a);
    let n = u32_trailing_zeros(a);
    assert(a << 32 == 0) by (bit_vector);
}

/// The signed shift to the right fills the vacated high bits with the sign
/// bit: zeros for a value that reads as non-negative, ones otherwise.
pub proof fn lemma_signed_shift_fills_with_sign(a: u32, k: u32)
    ensures
        signed(a) >= 0 ==> binop(BinOp::ShrS, a, k) == a >> (k % 32),
        signed(a) < 0 ==> binop(BinOp::ShrS, a, k) == !((!a) >> (k % 32)),
{
    let s = (k % 32) as u32;
    assert(a < 0x8000_0000u32 ==> ((a as i32) >> s) as u32 == a >> s) by (bit_vector)
        requires
            s < 32,
    ;
    assert(a >= 0x8000_0000u32 ==> ((a as i32) >> s) as u32 == !((!a) >> s)) by (bit_vector)
        requires
            s < 32,
    ;
}

/// A comparison gives 1 or 0.
pub proof fn lemma_comparisons_are_flags(op: BinOp, a: u32, b: u32)
    requires
        op.compares(),
    ensures
        binop(op, a, b) == 0 || binop(op, a, b) == 1,
{
}

/// A cast to `i32` keeps the bits, so it reads them as [`signed`] does.
proof fn lemma_signed_cast(x: u32)
    ensures
        (x as i32) as int == signed(x),
{
    assert((x as i32) as int == (if x < 0x8000_0000u32 {
        x as int
    } else {
        x as int - 0x1_0000_0000
    })) by (bit_vector);
}

/// A cast to `u32` keeps the bits, so it is [`wrap`].
proof fn lemma_unsigned_cast(x: i32)
    ensures
        x as u32 == wrap(x as int),
{
    assert((x as u32) as int == (if x < 0i32 {
        x as int + 0x1_0000_0000
    } else {
        x as int
    })) by (bit_vector);
}

fn truth(b: bool) -> (r: u32)
    ensures
        r == flag(b),
{
    if b {
        1
    } else {
        0
    }
}

fn div_s(lhs: u32, rhs: u32) -> (r: u32)
    requires
        rhs != 0,
    ensures
        r == binop(BinOp::DivS, lhs, rhs),
{
    proof {
        lemma_signed_cast(lhs);
        lemma_signed_cast(rhs);
    }
    let a: i32 = #[verifier::truncate] (lhs as i32);
    let b: i32 = #[verifier::truncate] (rhs as i32);
    match a.checked_div(b) {
        Some(q) => {
            proof {
                lemma_unsigned_cast(q);
            }
            #[verifier::truncate] (q as u32)
        },
        None => lhs,
    }
}

fn rem_s(lhs: u32, rhs: u32) -> (r: u32)
    requires
        rhs != 0,
    ensures
        r == binop(BinOp::RemS, lhs, rhs),
{
    proof {
        lemma_signed_cast(lhs);
        lemma_signed_cast(rhs);
    }
    let a: i32 = #[verifier::truncate] (lhs as i32);
    let b: i32 = #[verifier::truncate] (rhs as i32);
    match a.checked_rem(b) {
        Some(q) => {
            proof {
                lemma_unsigned_cast(q);
                let x = a as int;
                let d = b as int;
                let m = magnitude(x);
                let n = magnitude(d);
                assert(m == n * (m / n) + m % n) by (nonlinear_arith)
                    requires
                        n > 0,
                ;
                assert(d * (-(m / n)) == -(d * (m / n))) by (nonlinear_arith);
                assert((-d) * (m / n) == -(d * (m / n))) by (nonlinear_arith);
            }
            #[verifier::truncate] (q as u32)
        },
        None => 0,
    }
}

fn less_s(lhs: u32, rhs: u32) -> (b: bool)
    ensures
        b == (signed(lhs) < signed(rhs)),
{
    proof {
        lemma_signed_cast(lhs);
        lemma_signed_cast(rhs);
    }
    #[verifier::truncate] (lhs as i32) < #[verifier::truncate] (rhs as i32)
}

fn shr_s(lhs: u32, rhs: u32) -> (r: u32)
    ensures
        r == binop(BinOp::ShrS, lhs, rhs),
{
    let a: i32 = #[verifier::truncate] (lhs as i32);
    #[verifier::truncate] (a.wrapping_shr(rhs) as u32)
}

impl Program {
    /// Applies a binary operator to two values of the 32-bit integer lane.
    ///
    /// A dividing operator with a zero divisor is left out: there is no
    /// result to give.
    pub fn interpret_binop(&self, op: &BinOp, lhs: u32, rhs: u32) -> (r: u32)
        requires
            op.divides() ==> rhs != 0,
        ensures
            r == binop(*op, lhs, rhs),
    {
        match op {
            BinOp::Add => lhs.wrapping_add(rhs),
            BinOp::And => lhs & rhs,
            BinOp::DivU => lhs / rhs,
            BinOp::DivS => div_s(lhs, rhs),
            BinOp::Eq => truth(lhs == rhs),
            BinOp::GeS => truth(!less_s(lhs, rhs)),
            BinOp::GeU => truth(lhs >= rhs),
            BinOp::GtS => truth(less_s(rhs, lhs)),
            BinOp::GtU => truth(lhs > rhs),
            BinOp::LeS => truth(!less_s(rhs, lhs)),
            BinOp::LeU => truth(lhs <= rhs),
            BinOp::LtS => truth(less_s(lhs, rhs)),
            BinOp::LtU => truth(lhs < rhs),
            BinOp::Mul => lhs.wrapping_mul(rhs),
            BinOp::Ne => truth(lhs != rhs),
            BinOp::Or => lhs | rhs,
            BinOp::RemS => rem_s(lhs, rhs),
            BinOp::RemU => lhs % rhs,
            BinOp::RotL => lhs.rotate_left(rhs % 32),
            BinOp::RotR => lhs.rotate_right(rhs % 32),
            BinOp::Shl => lhs.wrapping_shl(rhs),
            BinOp::ShrS => shr_s(lhs, rhs),
            BinOp::ShrU => lhs.wrapping_shr(rhs),
            BinOp::Sub => lhs.wrapping_sub(rhs),
            BinOp::Xor => lhs ^ rhs,
        }
    }

    /// Applies a unary operator to a value of the 32-bit integer lane.
    pub fn interpret_unop(&self, op: &UnaryOp, arg: u32) -> (r: u32)
        ensures
            r == unop(*op, arg),
    {
        match op {
            UnaryOp::Clz => arg.leading_zeros(),
            UnaryOp::Ctz => arg.trailing_zeros(),
            UnaryOp::Popcnt => arg.count_ones(),
            UnaryOp::Eqz => truth(arg == 0),
        }
    }
}

} // verus!
