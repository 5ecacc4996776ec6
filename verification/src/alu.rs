//! The arithmetic and logic unit: each operation gives its result and the
//! flag byte it leaves.

use vstd::prelude::*;
use crate::registers::{even_parity, flags, signed, spec_even_parity, spec_flags, spec_signed};

verus! {

pub open spec fn spec_add8(a: u8, b: u8, carry_in: bool) -> (u8, u8) {
    let c: int = if carry_in { 1 } else { 0 };
    let sum: int = a + b + c;
    let result: u8 = (sum % 256) as u8;
    let wide: int = spec_signed(a) + spec_signed(b) + c;
    (
        result,
        spec_flags(
            result >= 128,
            result == 0,
            a % 16 + b % 16 + c >= 16,
            wide < -128 || wide > 127,
            false,
            sum >= 256,
        ),
    )
}

/// `a + b + carry_in` in 8 bits. Sign and zero follow the result, half carry
/// is the carry out of bit 3, overflow says that the signed sum does not fit
/// in a byte, and carry is the carry out of bit 7.
#[verifier::when_used_as_spec(spec_add8)]
pub fn add8(a: u8, b: u8, carry_in: bool) -> (out: (u8, u8))
    ensures
        out == spec_add8(a, b, carry_in),
{
    let c: i32 = if carry_in { 1 } else { 0 };
    let sum: i32 = (a as i32) + (b as i32) + c;
    let result: u8 = (sum % 256) as u8;
    let wide: i32 = signed(a) + signed(b) + c;
    let half: bool = ((a % 16) as i32) + ((b % 16) as i32) + c >= 16;
    (result, flags(result >= 128, result == 0, half, wide < -128 || wide > 127, false, sum >= 256))
}

pub open spec fn spec_sub8(a: u8, b: u8, borrow_in: bool) -> (u8, u8) {
    let c: int = if borrow_in { 1 } else { 0 };
    let diff: int = a - b - c;
    let result: u8 = (diff % 256) as u8;
    let wide: int = spec_signed(a) - spec_signed(b) - c;
    (
        result,
        spec_flags(
            result >= 128,
            result == 0,
            a % 16 - b % 16 - c < 0,
            wide < -128 || wide > 127,
            true,
            diff < 0,
        ),
    )
}

/// `a - b - borrow_in` in 8 bits. Half carry is the borrow from bit 4,
/// overflow says that the signed difference does not fit in a byte, and
/// carry is the borrow out of bit 7.
#[verifier::when_used_as_spec(spec_sub8)]
pub fn sub8(a: u8, b: u8, borrow_in: bool) -> (out: (u8, u8))
    ensures
        out == spec_sub8(a, b, borrow_in),
{
    let c: i32 = if borrow_in { 1 } else { 0 };
    let diff: i32 = (a as i32) - (b as i32) - c;
    let result: u8 = (if diff < 0 { diff + 256 } else { diff }) as u8;
    let wide: i32 = signed(a) - signed(b) - c;
    let half: bool = ((a % 16) as i32) - ((b % 16) as i32) - c < 0;
    (result, flags(result >= 128, result == 0, half, wide < -128 || wide > 127, true, diff < 0))
}

pub open spec fn spec_logic_flags(result: u8, half: bool) -> u8 {
    spec_flags(result >= 128, result == 0, half, spec_even_parity(result), false, false)
}

/// The flags after AND, XOR and OR: sign and zero follow the result, the
/// parity flag is set on even parity, subtract and carry are clear.
#[verifier::when_used_as_spec(spec_logic_flags)]
pub fn logic_flags(result: u8, half: bool) -> (f: u8)
    ensures
        f == spec_logic_flags(result, half),
{
    flags(result >= 128, result == 0, half, even_parity(result), false, false)
}

pub open spec fn spec_alu(operation: u8, a: u8, b: u8, f: u8) -> (u8, u8) {
    if operation == 0 {
        spec_add8(a, b, false)
    } else if operation == 1 {
        spec_add8(a, b, f % 2 == 1)
    } else if operation == 2 {
        spec_sub8(a, b, false)
    } else if operation == 3 {
        spec_sub8(a, b, f % 2 == 1)
    } else if operation == 4 {
        (a & b, spec_logic_flags(a & b, true))
    } else if operation == 5 {
        (a ^ b, spec_logic_flags(a ^ b, false))
    } else if operation == 6 {
        (a | b, spec_logic_flags(a | b, false))
    } else {
        (a, spec_sub8(a, b, false).1)
    }
}

/// The accumulator operation selected by an opcode's 3-bit field, on the
/// accumulator `a`, the operand `b` and the flags `f`: ADD, ADC, SUB, SBC,
/// AND, XOR, OR for the codes 0 to 6, and CP, which keeps the accumulator
/// and leaves the flags of the subtraction, for any other.
#[verifier::when_used_as_spec(spec_alu)]
pub fn alu(operation: u8, a: u8, b: u8, f: u8) -> (out: (u8, u8))
    ensures
        out == spec_alu(operation, a, b, f),
{
    if operation == 0 {
        add8(a, b, false)
    } else if operation == 1 {
        add8(a, b, f % 2 == 1)
    } else if operation == 2 {
        sub8(a, b, false)
    } else if operation == 3 {
        sub8(a, b, f % 2 == 1)
    } else if operation == 4 {
        (a & b, logic_flags(a & b, true))
    } else if operation == 5 {
        (a ^ b, logic_flags(a ^ b, false))
    } else if operation == 6 {
        (a | b, logic_flags(a | b, false))
    } else {
        (a, sub8(a, b, false).1)
    }
}

pub open spec fn spec_inc8(value: u8, f: u8) -> (u8, u8) {
    let result: u8 = if value == 255 { 0u8 } else { (value + 1) as u8 };
    (
        result,
        spec_flags(result >= 128, result == 0, value % 16 == 15, value == 127, false, f % 2 == 1),
    )
}

/// `value + 1` in 8 bits; the carry flag is kept from `f`.
#[verifier::when_used_as_spec(spec_inc8)]
pub fn inc8(value: u8, f: u8) -> (out: (u8, u8))
    ensures
        out == spec_inc8(value, f),
{
    let result: u8 = if value == 255 { 0u8 } else { value + 1 };
    (result, flags(result >= 128, result == 0, value % 16 == 15, value == 127, false, f % 2 == 1))
}

pub open spec fn spec_dec8(value: u8, f: u8) -> (u8, u8) {
    let result: u8 = if value == 0 { 255u8 } else { (value - 1) as u8 };
    (
        result,
        spec_flags(result >= 128, result == 0, value % 16 == 0, value == 128, true, f % 2 == 1),
    )
}

/// `value - 1` in 8 bits; the carry flag is kept from `f`.
#[verifier::when_used_as_spec(spec_dec8)]
pub fn dec8(value: u8, f: u8) -> (out: (u8, u8))
    ensures
        out == spec_dec8(value, f),
{
    let result: u8 = if value == 0 { 255u8 } else { value - 1 };
    (result, flags(result >= 128, result == 0, value % 16 == 0, value == 128, true, f % 2 == 1))
}

pub open spec fn spec_add16(a: u16, b: u16, f: u8) -> (u16, u8) {
    let sum: int = a + b;
    (
        (sum % 0x10000) as u16,
        spec_flags(
            f >= 128,
            (f / 64) % 2 == 1,
            a % 0x1000 + b % 0x1000 >= 0x1000,
            (f / 4) % 2 == 1,
            false,
            sum >= 0x10000,
        ),
    )
}

/// `a + b` in 16 bits. Half carry is the carry out of bit 11 and carry the
/// carry out of bit 15; sign, zero and parity are kept from `f`.
#[verifier::when_used_as_spec(spec_add16)]
pub fn add16(a: u16, b: u16, f: u8) -> (out: (u16, u8))
    ensures
        out == spec_add16(a, b, f),
{
    let sum: u32 = (a as u32) + (b as u32);
    let half: bool = ((a % 0x1000) as u32) + ((b % 0x1000) as u32) >= 0x1000;
    (
        (sum % 0x10000) as u16,
        flags(f >= 128, (f / 64) % 2 == 1, half, (f / 4) % 2 == 1, false, sum >= 0x10000),
    )
}

pub open spec fn spec_decimal_adjust(a: u8, f: u8) -> (u8, u8) {
    let h: bool = (f / 16) % 2 == 1;
    let n: bool = (f / 2) % 2 == 1;
    let fix_low: bool = h || a % 16 > 9;
    let fix_high: bool = f % 2 == 1 || a > 0x99;
    let correction: int = (if fix_low { 6int } else { 0 }) + (if fix_high { 0x60int } else { 0 });
    let moved: int = if n { a - correction } else { a + correction };
    let result: u8 = (if moved < 0 {
        moved + 256
    } else if moved >= 256 {
        moved - 256
    } else {
        moved
    }) as u8;
    let half: bool = if n { h && a % 16 < 6 } else { a % 16 > 9 };
    (result, spec_flags(result >= 128, result == 0, half, spec_even_parity(result), n, fix_high))
}

/// DAA: the accumulator corrected to two decimal digits. 6 is added to, or
/// with the subtract flag set taken from, a low digit above 9 or one that a
/// half carry marks, and 0x60 likewise for the high digit, in 8 bits; the
/// carry is set when the high digit was corrected.
#[verifier::when_used_as_spec(spec_decimal_adjust)]
pub fn decimal_adjust(a: u8, f: u8) -> (out: (u8, u8))
    ensures
        out == spec_decimal_adjust(a, f),
{
    let h: bool = (f / 16) % 2 == 1;
    let n: bool = (f / 2) % 2 == 1;
    let fix_low: bool = h || a % 16 > 9;
    let fix_high: bool = f % 2 == 1 || a > 0x99;
    let correction: i32 = (if fix_low { 6i32 } else { 0 }) + (if fix_high { 0x60i32 } else { 0 });
    let moved: i32 = if n { (a as i32) - correction } else { (a as i32) + correction };
    let result: u8 = (if moved < 0 {
        moved + 256
    } else if moved >= 256 {
        moved - 256
    } else {
        moved
    }) as u8;
    let half: bool = if n { h && a % 16 < 6 } else { a % 16 > 9 };
    (result, flags(result >= 128, result == 0, half, even_parity(result), n, fix_high))
}

pub open spec fn spec_adjust(operation: u8, a: u8, f: u8) -> (u8, u8) {
    let s: bool = f >= 128;
    let z: bool = (f / 64) % 2 == 1;
    let h: bool = (f / 16) % 2 == 1;
    let pv: bool = (f / 4) % 2 == 1;
    let n: bool = (f / 2) % 2 == 1;
    let c: bool = f % 2 == 1;
    let carry_in: int = if c { 1 } else { 0 };
    if operation == 0 {
        (((a % 128) * 2 + a / 128) as u8, spec_flags(s, z, false, pv, false, a >= 128))
    } else if operation == 1 {
        ((a / 2 + (a % 2) * 128) as u8, spec_flags(s, z, false, pv, false, a % 2 == 1))
    } else if operation == 2 {
        (((a % 128) * 2 + carry_in) as u8, spec_flags(s, z, false, pv, false, a >= 128))
    } else if operation == 3 {
        ((a / 2 + carry_in * 128) as u8, spec_flags(s, z, false, pv, false, a % 2 == 1))
    } else if operation == 4 {
        spec_decimal_adjust(a, f)
    } else if operation == 5 {
        ((255 - a) as u8, spec_flags(s, z, true, pv, true, c))
    } else if operation == 6 {
        (a, spec_flags(s, z, false, pv, false, true))
    } else {
        (a, spec_flags(s, z, c, pv, false, !c))
    }
}

/// The accumulator adjustment selected by an opcode's 3-bit field: RLCA,
/// RRCA, RLA, RRA, DAA, CPL, SCF, CCF for the codes 0 to 7. The four
/// rotations move the accumulator by one bit, through or past the carry, and
/// keep sign, zero and parity. DAA corrects the accumulator to two decimal
/// digits after an addition or, with the subtract flag set, a subtraction.
#[verifier::when_used_as_spec(spec_adjust)]
pub fn adjust(operation: u8, a: u8, f: u8) -> (out: (u8, u8))
    ensures
        out == spec_adjust(operation, a, f),
{
    let s: bool = f >= 128;
    let z: bool = (f / 64) % 2 == 1;
    let h: bool = (f / 16) % 2 == 1;
    let pv: bool = (f / 4) % 2 == 1;
    let n: bool = (f / 2) % 2 == 1;
    let c: bool = f % 2 == 1;
    let carry_in: u8 = if c { 1 } else { 0 };
    if operation == 0 {
        ((a % 128) * 2 + a / 128, flags(s, z, false, pv, false, a >= 128))
    } else if operation == 1 {
        (a / 2 + (a % 2) * 128, flags(s, z, false, pv, false, a % 2 == 1))
    } else if operation == 2 {
        ((a % 128) * 2 + carry_in, flags(s, z, false, pv, false, a >= 128))
    } else if operation == 3 {
        (a / 2 + carry_in * 128, flags(s, z, false, pv, false, a % 2 == 1))
    } else if operation == 4 {
        decimal_adjust(a, f)
    } else if operation == 5 {
        (255 - a, flags(s, z, true, pv, true, c))
    } else if operation == 6 {
        (a, flags(s, z, false, pv, false, true))
    } else {
        (a, flags(s, z, c, pv, false, !c))
    }
}

pub open spec fn spec_rotate(operation: u8, value: u8, f: u8) -> (u8, u8) {
    let carry_in: int = if f % 2 == 1 { 1 } else { 0 };
    let result: u8 = (if operation == 0 {
        (value % 128) * 2 + value / 128
    } else if operation == 1 {
        value / 2 + (value % 2) * 128
    } else if operation == 2 {
        (value % 128) * 2 + carry_in
    } else if operation == 3 {
        value / 2 + carry_in * 128
    } else if operation == 4 {
        (value % 128) * 2
    } else if operation == 5 {
        value / 2 + (value / 128) * 128
    } else if operation == 6 {
        (value % 128) * 2 + 1
    } else {
        (value / 2) as int
    }) as u8;
    let carry_out: bool = if operation == 0 || operation == 2 || operation == 4 || operation == 6 {
        value >= 128
    } else {
        value % 2 == 1
    };
    (result, spec_flags(result >= 128, result == 0, false, spec_even_parity(result), false, carry_out))
}

/// The shift or rotation selected by a 3-bit field: RLC, RRC, RL, RR, SLA,
/// SRA, SLL, SRL for the codes 0 to 7. The carry takes the bit that leaves;
/// sign, zero and parity follow the result.
#[verifier::when_used_as_spec(spec_rotate)]
pub fn rotate(operation: u8, value: u8, f: u8) -> (out: (u8, u8))
    ensures
        out == spec_rotate(operation, value, f),
{
    let carry_in: u8 = if f % 2 == 1 { 1 } else { 0 };
    let result: u8 = if operation == 0 {
        (value % 128) * 2 + value / 128
    } else if operation == 1 {
        value / 2 + (value % 2) * 128
    } else if operation == 2 {
        (value % 128) * 2 + carry_in
    } else if operation == 3 {
        value / 2 + carry_in * 128
    } else if operation == 4 {
        (value % 128) * 2
    } else if operation == 5 {
        value / 2 + (value / 128) * 128
    } else if operation == 6 {
        (value % 128) * 2 + 1
    } else {
        value / 2
    };
    let carry_out: bool = if operation == 0 || operation == 2 || operation == 4 || operation == 6 {
        value >= 128
    } else {
        value % 2 == 1
    };
    (result, flags(result >= 128, result == 0, false, even_parity(result), false, carry_out))
}

pub open spec fn spec_mask(bit: u8) -> u8 {
    if bit == 0 {
        1
    } else if bit == 1 {
        2
    } else if bit == 2 {
        4
    } else if bit == 3 {
        8
    } else if bit == 4 {
        16
    } else if bit == 5 {
        32
    } else if bit == 6 {
        64
    } else {
        128
    }
}

/// The byte in which only the bit numbered `bit` is set; a number above 7
/// selects bit 7.
#[verifier::when_used_as_spec(spec_mask)]
pub fn mask(bit: u8) -> (byte: u8)
    ensures
        byte == spec_mask(bit),
{
    if bit == 0 {
        1
    } else if bit == 1 {
        2
    } else if bit == 2 {
        4
    } else if bit == 3 {
        8
    } else if bit == 4 {
        16
    } else if bit == 5 {
        32
    } else if bit == 6 {
        64
    } else {
        128
    }
}

pub open spec fn spec_bit_set(value: u8, bit: u8) -> bool {
    (value / spec_mask(bit)) % 2 == 1
}

/// Whether the bit numbered `bit` is set in `value`.
#[verifier::when_used_as_spec(spec_bit_set)]
pub fn bit_set(value: u8, bit: u8) -> (set: bool)
    ensures
        set == spec_bit_set(value, bit),
{
    (value / mask(bit)) % 2 == 1
}

pub open spec fn spec_bit_op(group: u8, bit: u8, value: u8, f: u8) -> (u8, u8) {
    let set: bool = spec_bit_set(value, bit);
    if group == 1 {
        (value, spec_flags(bit == 7 && set, !set, true, !set, false, f % 2 == 1))
    } else if group == 2 {
        (if set { (value - spec_mask(bit)) as u8 } else { value }, f)
    } else {
        (if set { value } else { (value + spec_mask(bit)) as u8 }, f)
    }
}

/// BIT, RES and SET on one bit of `value`, for the groups 1, 2 and any
/// other. BIT keeps the value and sets the zero flag when the bit is clear;
/// RES and SET give the value with the bit cleared or set and keep the flags.
#[verifier::when_used_as_spec(spec_bit_op)]
pub fn bit_op(group: u8, bit: u8, value: u8, f: u8) -> (out: (u8, u8))
    ensures
        out == spec_bit_op(group, bit, value, f),
{
    let set: bool = bit_set(value, bit);
    if group == 1 {
        (value, flags(bit == 7 && set, !set, true, !set, false, f % 2 == 1))
    } else if group == 2 {
        proof {
            lemma_bit_weight(value, bit);
        }
        (if set { value - mask(bit) } else { value }, f)
    } else {
        proof {
            lemma_bit_weight(value, bit);
        }
        (if set { value } else { value + mask(bit) }, f)
    }
}

/// A byte with a bit set is at least that bit's weight, and one with the
/// bit clear stays a byte when the weight is added.
pub proof fn lemma_bit_weight(value: u8, bit: u8)
    ensures
        spec_bit_set(value, bit) ==> value >= spec_mask(bit),
        !spec_bit_set(value, bit) ==> value + spec_mask(bit) <= 255,
{
    let m = spec_mask(bit);
    assert(value == m * (value / m) + value % m) by (nonlinear_arith)
        requires m > 0;
}

/// A word put together from two bytes gives them back as its halves.
pub proof fn lemma_word_halves(high: u8, low: u8)
    ensures
        crate::registers::spec_high(crate::registers::spec_word(high, low)) == high,
        crate::registers::spec_low(crate::registers::spec_word(high, low)) == low,
{
}

pub open spec fn spec_signed16(value: u16) -> i32 {
    if value >= 0x8000 { (value - 0x10000) as i32 } else { value as i32 }
}

/// A 16-bit value read as a two's complement number.
#[verifier::when_used_as_spec(spec_signed16)]
pub fn signed16(value: u16) -> (number: i32)
    ensures
        number == spec_signed16(value),
{
    if value >= 0x8000 { (value as i32) - 0x10000 } else { value as i32 }
}

pub open spec fn spec_adc16(a: u16, b: u16, carry_in: bool) -> (u16, u8) {
    let c: int = if carry_in { 1 } else { 0 };
    let sum: int = a + b + c;
    let result: u16 = (if sum >= 0x10000 { sum - 0x10000 } else { sum }) as u16;
    let wide: int = spec_signed16(a) + spec_signed16(b) + c;
    (
        result,
        spec_flags(
            result >= 0x8000,
            result == 0,
            a % 0x1000 + b % 0x1000 + c >= 0x1000,
            wide < -0x8000 || wide > 0x7FFF,
            false,
            sum >= 0x10000,
        ),
    )
}

/// `a + b + carry_in` in 16 bits, with every flag set as an 8-bit addition
/// sets it: half carry is the carry out of bit 11.
#[verifier::when_used_as_spec(spec_adc16)]
pub fn adc16(a: u16, b: u16, carry_in: bool) -> (out: (u16, u8))
    ensures
        out == spec_adc16(a, b, carry_in),
{
    let c: i32 = if carry_in { 1 } else { 0 };
    let sum: i32 = (a as i32) + (b as i32) + c;
    let result: u16 = (if sum >= 0x10000 { sum - 0x10000 } else { sum }) as u16;
    let wide: i32 = signed16(a) + signed16(b) + c;
    let half: bool = ((a % 0x1000) as i32) + ((b % 0x1000) as i32) + c >= 0x1000;
    (
        result,
        flags(result >= 0x8000, result == 0, half, wide < -0x8000 || wide > 0x7FFF, false, sum >= 0x10000),
    )
}

pub open spec fn spec_sbc16(a: u16, b: u16, borrow_in: bool) -> (u16, u8) {
    let c: int = if borrow_in { 1 } else { 0 };
    let diff: int = a - b - c;
    let result: u16 = (if diff < 0 { diff + 0x10000 } else { diff }) as u16;
    let wide: int = spec_signed16(a) - spec_signed16(b) - c;
    (
        result,
        spec_flags(
            result >= 0x8000,
            result == 0,
            a % 0x1000 - b % 0x1000 - c < 0,
            wide < -0x8000 || wide > 0x7FFF,
            true,
            diff < 0,
        ),
    )
}

/// `a - b - borrow_in` in 16 bits, with every flag set as an 8-bit
/// subtraction sets it: half carry is the borrow from bit 12.
#[verifier::when_used_as_spec(spec_sbc16)]
pub fn sbc16(a: u16, b: u16, borrow_in: bool) -> (out: (u16, u8))
    ensures
        out == spec_sbc16(a, b, borrow_in),
{
    let c: i32 = if borrow_in { 1 } else { 0 };
    let diff: i32 = (a as i32) - (b as i32) - c;
    let result: u16 = (if diff < 0 { diff + 0x10000 } else { diff }) as u16;
    let wide: i32 = signed16(a) - signed16(b) - c;
    let half: bool = ((a % 0x1000) as i32) - ((b % 0x1000) as i32) - c < 0;
    (result, flags(result >= 0x8000, result == 0, half, wide < -0x8000 || wide > 0x7FFF, true, diff < 0))
}

pub open spec fn spec_digit_rotate(left: bool, a: u8, cell: u8, f: u8) -> (u8, u8, u8) {
    let result: u8 = (if left { (a / 16) * 16 + cell / 16 } else { (a / 16) * 16 + cell % 16 }) as u8;
    let stored: u8 = (if left { (cell % 16) * 16 + a % 16 } else { (a % 16) * 16 + cell / 16 }) as u8;
    (
        result,
        stored,
        spec_flags(result >= 128, result == 0, false, spec_even_parity(result), false, f % 2 == 1),
    )
}

/// RLD and RRD: the low digit of the accumulator and the two digits of a
/// memory cell rotate by one digit, to the left or to the right. Gives the
/// accumulator, the cell and the flags; the carry is kept.
#[verifier::when_used_as_spec(spec_digit_rotate)]
pub fn digit_rotate(left: bool, a: u8, cell: u8, f: u8) -> (out: (u8, u8, u8))
    ensures
        out == spec_digit_rotate(left, a, cell, f),
{
    let result: u8 = if left { (a / 16) * 16 + cell / 16 } else { (a / 16) * 16 + cell % 16 };
    let stored: u8 = if left { (cell % 16) * 16 + a % 16 } else { (a % 16) * 16 + cell / 16 };
    (result, stored, flags(result >= 128, result == 0, false, even_parity(result), false, f % 2 == 1))
}

/// The two halves of a word put it together again.
pub proof fn lemma_halves_word(value: u16)
    ensures
        crate::registers::spec_word(crate::registers::spec_high(value), crate::registers::spec_low(value)) == value,
{
}

} // verus!
