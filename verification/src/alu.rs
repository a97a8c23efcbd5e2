//! The arithmetic and logic unit: addition and subtraction in binary and in
//! binary-coded decimal, comparison, shifts and rotates, as functions of
//! plain bytes.
//!
//! Each operation is defined once over the integers and implemented on
//! machine words; the implementation is proved to compute the definition.

use vstd::prelude::*;
use crate::bits::{lemma_sign_bit, low, minus8, plus8, signed, wrap8};
use crate::instruction::Operation;

verus! {

/// What an addition or subtraction produces.
#[derive(Debug, Clone, Copy, PartialEq, Eq, Structural)]
pub struct Sum {
    /// The eight-bit result.
    pub value: u8,
    /// The carry out of bit 7; for a subtraction, set when no borrow occurred.
    pub carry: bool,
    /// Whether the result, read as a signed number, is out of range.
    pub overflow: bool,
}

/// A byte and the carry that comes with it: what a shift, a rotate or a
/// comparison produces.
#[derive(Debug, Clone, Copy, PartialEq, Eq, Structural)]
pub struct Carried {
    /// The eight-bit result.
    pub value: u8,
    /// For a shift or rotate, the bit that left the byte; for a
    /// comparison, set when the register was not less than the operand.
    pub carry: bool,
}

/// The carry flag as a number.
pub open spec fn carry_value(carry: bool) -> int {
    if carry {
        1
    } else {
        0
    }
}

/// The signed-overflow test: the two operands agree in sign and the result
/// does not.
pub open spec fn signed_overflow(a: u8, m: u8, result: u8) -> bool {
    (a ^ m) & 0x80 == 0 && (a ^ result) & 0x80 != 0
}

/// The one's complement of a byte.
pub open spec fn complement(m: u8) -> u8 {
    (0xFF - m) as u8
}

/// Binary addition with carry.
pub open spec fn add_binary(a: u8, m: u8, carry: bool) -> Sum {
    let sum = a + m + carry_value(carry);
    Sum { value: wrap8(sum), carry: sum > 0xFF, overflow: signed_overflow(a, m, wrap8(sum)) }
}

/// Binary subtraction with borrow: addition of the operand's complement.
pub open spec fn subtract_binary(a: u8, m: u8, carry: bool) -> Sum {
    add_binary(a, complement(m), carry)
}

/// Decimal addition with carry, digit by digit.
///
/// The low digits are added first and corrected by six when they pass
/// nine; the high digits are added to that and corrected by 0x60 when the
/// sum passes 0x9F. The carry is the carry of the corrected sum; the
/// overflow is taken from the sum before the high correction.
#[verifier::opaque]
pub open spec fn add_decimal(a: u8, m: u8, carry: bool) -> Sum {
    let low = a % 16 + m % 16 + carry_value(carry);
    let low_corrected = if low >= 10 {
        (low + 6) % 16 + 16
    } else {
        low
    };
    let partial = (a / 16) * 16 + (m / 16) * 16 + low_corrected;
    let total = if partial >= 0xA0 {
        partial + 0x60
    } else {
        partial
    };
    Sum {
        value: wrap8(total),
        carry: total > 0xFF,
        overflow: signed_overflow(a, m, wrap8(partial)),
    }
}

/// Decimal subtraction with borrow, digit by digit.
///
/// The low digits are subtracted first and corrected by six on a borrow;
/// the high digits follow and are corrected by 0x60 when the difference is
/// negative. Carry and overflow are those of the binary subtraction.
#[verifier::opaque]
pub open spec fn subtract_decimal(a: u8, m: u8, carry: bool) -> Sum {
    let low = a % 16 - m % 16 - (1 - carry_value(carry));
    let low_corrected = if low < 0 {
        (low - 6) % 16 - 16
    } else {
        low
    };
    let partial = (a / 16) * 16 - (m / 16) * 16 + low_corrected;
    let total = if partial < 0 {
        partial - 0x60
    } else {
        partial
    };
    let binary = subtract_binary(a, m, carry);
    Sum { value: wrap8(total), carry: binary.carry, overflow: binary.overflow }
}

/// Addition with carry, in the mode that the decimal flag selects.
pub open spec fn add_with_carry(a: u8, m: u8, carry: bool, decimal: bool) -> Sum {
    if decimal {
        add_decimal(a, m, carry)
    } else {
        add_binary(a, m, carry)
    }
}

/// Subtraction with borrow, in the mode that the decimal flag selects.
pub open spec fn subtract_with_borrow(a: u8, m: u8, carry: bool, decimal: bool) -> Sum {
    if decimal {
        subtract_decimal(a, m, carry)
    } else {
        subtract_binary(a, m, carry)
    }
}

/// Comparison of a register with an operand: their difference, and whether
/// the register was not less.
pub open spec fn compare(register: u8, m: u8) -> Carried {
    Carried { value: wrap8(register - m), carry: register >= m }
}

/// Shift left by one bit; bit 7 leaves, zero enters.
pub open spec fn shift_left(v: u8) -> Carried {
    Carried { value: wrap8(v * 2), carry: v >= 0x80 }
}

/// Shift right by one bit; bit 0 leaves, zero enters.
pub open spec fn shift_right(v: u8) -> Carried {
    Carried { value: (v / 2) as u8, carry: v % 2 == 1 }
}

/// Rotate left through carry; bit 7 leaves, the old carry enters at bit 0.
pub open spec fn rotate_left(v: u8, carry: bool) -> Carried {
    Carried { value: wrap8(v * 2 + carry_value(carry)), carry: v >= 0x80 }
}

/// Rotate right through carry; bit 0 leaves, the old carry enters at bit 7.
pub open spec fn rotate_right(v: u8, carry: bool) -> Carried {
    Carried { value: (v / 2 + 0x80 * carry_value(carry)) as u8, carry: v % 2 == 1 }
}

/// What an instruction that changes a byte in place makes of `value`: the
/// new byte and the new carry. Increment and decrement leave the carry as
/// it is.
pub open spec fn modified(operation: Operation, value: u8, carry: bool) -> Carried {
    match operation {
        Operation::Asl => shift_left(value),
        Operation::Lsr => shift_right(value),
        Operation::Rol => rotate_left(value, carry),
        Operation::Ror => rotate_right(value, carry),
        Operation::Inc => Carried { value: wrap8(value + 1), carry },
        Operation::Dec => Carried { value: wrap8(value - 1), carry },
        _ => Carried { value, carry },
    }
}

/// Whether both digits of `v` are decimal digits.
pub open spec fn is_bcd(v: u8) -> bool {
    v / 16 <= 9 && v % 16 <= 9
}

/// The number in `0..=99` that a binary-coded decimal byte stands for.
pub open spec fn bcd_value(v: u8) -> int {
    (v / 16) * 10 + v % 16
}

/// Adds `m` and the carry to `a` in binary.
pub fn adc_binary(a: u8, m: u8, carry: bool) -> (sum: Sum)
    ensures
        sum == add_binary(a, m, carry),
{
    let c: u16 = if carry {
        1
    } else {
        0
    };
    let total: u16 = a as u16 + m as u16 + c;
    let value: u8 = low(total);
    Sum { value, carry: total > 0xFF, overflow: (a ^ m) & 0x80 == 0 && (a ^ value) & 0x80 != 0 }
}

/// Adds `m` and the carry to `a` in binary-coded decimal.
pub fn adc_decimal(a: u8, m: u8, carry: bool) -> (sum: Sum)
    ensures
        sum == add_decimal(a, m, carry),
{
    proof {
        reveal(wrap8);
        reveal(add_decimal);
    }
    let c: u16 = if carry {
        1
    } else {
        0
    };
    let mut lo: u16 = (a & 0x0F) as u16 + (m & 0x0F) as u16 + c;
    assert(a & 0x0F == a % 16 && m & 0x0F == m % 16 && (a & 0xF0) == (a / 16) * 16 && (m & 0xF0)
        == (m / 16) * 16) by (bit_vector);
    if lo >= 0x0A {
        let bumped: u16 = lo + 0x06;
        assert(bumped & 0x0F == bumped % 16) by (bit_vector);
        lo = (bumped & 0x0F) + 0x10;
    }
    let partial: u16 = (a & 0xF0) as u16 + (m & 0xF0) as u16 + lo;
    let total: u16 = if partial >= 0xA0 {
        partial + 0x60
    } else {
        partial
    };
    let before: u8 = low(partial);
    Sum {
        value: low(total),
        carry: total > 0xFF,
        overflow: (a ^ m) & 0x80 == 0 && (a ^ before) & 0x80 != 0,
    }
}

/// Adds `m` and the carry to `a`, in decimal when `decimal` is set.
pub fn adc(a: u8, m: u8, carry: bool, decimal: bool) -> (sum: Sum)
    ensures
        sum == add_with_carry(a, m, carry, decimal),
{
    if decimal {
        adc_decimal(a, m, carry)
    } else {
        adc_binary(a, m, carry)
    }
}

/// Subtracts `m` and the borrow (the inverted carry) from `a` in binary.
pub fn sbc_binary(a: u8, m: u8, carry: bool) -> (sum: Sum)
    ensures
        sum == subtract_binary(a, m, carry),
{
    assert(!m == 0xFF - m) by (bit_vector);
    adc_binary(a, !m, carry)
}

/// Subtracts `m` and the borrow from `a` in binary-coded decimal.
pub fn sbc_decimal(a: u8, m: u8, carry: bool) -> (sum: Sum)
    ensures
        sum == subtract_decimal(a, m, carry),
{
    proof {
        reveal(wrap8);
        reveal(subtract_decimal);
    }
    let binary = sbc_binary(a, m, carry);
    let borrow: i16 = if carry {
        0
    } else {
        1
    };
    let mut lo: i16 = (a % 16) as i16 - (m % 16) as i16 - borrow;
    if lo < 0 {
        // The low digit borrowed: take six more and borrow from the high digit.
        assert((lo - 6) % 16 == (lo + 26) % 16);
        lo = (lo + 26) % 16 - 16;
    }
    let partial: i16 = ((a / 16) as i16) * 16 - ((m / 16) as i16) * 16 + lo;
    let total: i16 = if partial < 0 {
        partial - 0x60
    } else {
        partial
    };
    assert((total + 0x200) % 0x100 == total % 0x100);
    let value: u8 = ((total + 0x200) % 0x100) as u8;
    Sum { value, carry: binary.carry, overflow: binary.overflow }
}

/// Subtracts `m` and the borrow from `a`, in decimal when `decimal` is
/// set.
pub fn sbc(a: u8, m: u8, carry: bool, decimal: bool) -> (sum: Sum)
    ensures
        sum == subtract_with_borrow(a, m, carry, decimal),
{
    if decimal {
        sbc_decimal(a, m, carry)
    } else {
        sbc_binary(a, m, carry)
    }
}

/// Compares `register` with `m`.
pub fn compare_bytes(register: u8, m: u8) -> (r: Carried)
    ensures
        r == compare(register, m),
{
    Carried { value: minus8(register, m), carry: register >= m }
}

/// Shifts `v` left by one bit.
pub fn asl(v: u8) -> (r: Carried)
    ensures
        r == shift_left(v),
{
    proof {
        reveal(wrap8);
        lemma_sign_bit(v);
    }
    assert(v << 1 == (v * 2) % 0x100) by (bit_vector);
    Carried { value: v << 1, carry: v & 0x80 != 0 }
}

/// Shifts `v` right by one bit.
pub fn lsr(v: u8) -> (r: Carried)
    ensures
        r == shift_right(v),
{
    assert(v >> 1 == v / 2 && ((v & 0x01 != 0) <==> v % 2 == 1)) by (bit_vector);
    Carried { value: v >> 1, carry: v & 0x01 != 0 }
}

/// Rotates `v` left through the carry.
pub fn rol(v: u8, carry: bool) -> (r: Carried)
    ensures
        r == rotate_left(v, carry),
{
    proof {
        reveal(wrap8);
        lemma_sign_bit(v);
    }
    let c: u8 = if carry {
        1
    } else {
        0
    };
    assert((v << 1) | c == (v * 2 + c) % 0x100) by (bit_vector)
        requires
            c <= 1,
    ;
    Carried { value: (v << 1) | c, carry: v & 0x80 != 0 }
}

/// Rotates `v` right through the carry.
pub fn ror(v: u8, carry: bool) -> (r: Carried)
    ensures
        r == rotate_right(v, carry),
{
    let c: u8 = if carry {
        0x80
    } else {
        0
    };
    assert((v >> 1) | c == v / 2 + c && ((v & 0x01 != 0) <==> v % 2 == 1)) by (bit_vector)
        requires
            c == 0 || c == 0x80,
    ;
    Carried { value: (v >> 1) | c, carry: v & 0x01 != 0 }
}

/// What a shift, a rotate, an increment or a decrement makes of `value`.
/// Increment and decrement hand the carry back as it came.
pub fn modify(operation: Operation, value: u8, carry: bool) -> (r: Carried)
    ensures
        r == modified(operation, value, carry),
{
    match operation {
        Operation::Asl => asl(value),
        Operation::Lsr => lsr(value),
        Operation::Rol => rol(value, carry),
        Operation::Ror => ror(value, carry),
        Operation::Inc => Carried { value: plus8(value, 1), carry },
        Operation::Dec => Carried { value: minus8(value, 1), carry },
        _ => Carried { value, carry },
    }
}

/// In binary mode the sum is the sum of the operands and the carry modulo
/// 256, the carry is set exactly when that sum passes 255, and the overflow
/// is set exactly when the sum of the operands read as signed numbers
/// leaves the range of a signed byte.
pub proof fn lemma_add_binary(a: u8, m: u8, carry: bool)
    ensures
        add_binary(a, m, carry).value == (a + m + carry_value(carry)) % 256,
        add_binary(a, m, carry).carry <==> a + m + carry_value(carry) > 255,
        add_binary(a, m, carry).overflow <==> ((a ^ m) & 0x80 == 0 && (a ^ add_binary(
            a,
            m,
            carry,
        ).value) & 0x80 != 0),
        add_binary(a, m, carry).overflow <==> !(-128 <= signed(a) + signed(m) + carry_value(carry)
            <= 127),
{
    reveal(wrap8);
    let r = add_binary(a, m, carry).value;
    assert(((a ^ m) & 0x80 == 0 && (a ^ r) & 0x80 != 0) <==> ((a < 0x80) == (m < 0x80) && (a < 0x80)
        != (r < 0x80))) by (bit_vector);
}

/// In binary mode the difference is the accumulator minus the operand minus
/// the borrow modulo 256, the carry is set exactly when no borrow is
/// needed, and the overflow is set exactly when the signed difference
/// leaves the range of a signed byte.
pub proof fn lemma_subtract_binary(a: u8, m: u8, carry: bool)
    ensures
        subtract_binary(a, m, carry).value == (a - m - (1 - carry_value(carry))) % 256,
        subtract_binary(a, m, carry).carry <==> a - m - (1 - carry_value(carry)) >= 0,
        subtract_binary(a, m, carry).overflow <==> !(-128 <= signed(a) - signed(m) - (1
            - carry_value(carry)) <= 127),
{
    reveal(wrap8);
    lemma_add_binary(a, complement(m), carry);
}

/// A number below 256 written as sixteen times `tens` plus `units` has
/// those two as its hexadecimal digits.
proof fn lemma_hex_digits(v: u8, tens: int, units: int)
    requires
        0 <= tens < 16,
        0 <= units < 16,
        v == 16 * tens + units,
    ensures
        v / 16 == tens,
        v % 16 == units,
{
}

/// Whole hundreds vanish modulo 100.
proof fn lemma_hundreds(hundreds: int, rest: int)
    requires
        0 <= rest < 100,
    ensures
        (100 * hundreds + rest) % 100 == rest,
        (rest + 100 * hundreds) % 100 == rest,
        (rest - 100 * (-hundreds)) % 100 == rest,
{
}

/// Decimal addition on decimal digits, digit by digit: each digit of the
/// result is the sum of the operands' digits and the incoming carry, less
/// ten when it passes nine.
proof fn lemma_add_decimal_digits(a: u8, m: u8, carry: bool) -> (r: (int, int, int))
    requires
        is_bcd(a),
        is_bcd(m),
    ensures
        0 <= r.0 <= 9,
        0 <= r.1 <= 9,
        0 <= r.2 <= 1,
        add_decimal(a, m, carry).value == 16 * r.0 + r.1,
        add_decimal(a, m, carry).carry <==> r.2 == 1,
        10 * (a / 16) + a % 16 + 10 * (m / 16) + m % 16 + carry_value(carry) == 100 * r.2 + 10
            * r.0 + r.1,
{
    reveal(wrap8);
    reveal(add_decimal);
    let low = a % 16 + m % 16 + carry_value(carry);
    let units_carry: int = if low >= 10 {
        1
    } else {
        0
    };
    let units = low - 10 * units_carry;
    let low_corrected = if low >= 10 {
        (low + 6) % 16 + 16
    } else {
        low
    };
    assert(low_corrected == 16 * units_carry + units);
    let high = a / 16 + m / 16 + units_carry;
    let tens_carry: int = if high >= 10 {
        1
    } else {
        0
    };
    let tens = high - 10 * tens_carry;
    let partial = (a / 16) * 16 + (m / 16) * 16 + low_corrected;
    assert(partial == 16 * high + units);
    let total = if partial >= 0xA0 {
        partial + 0x60
    } else {
        partial
    };
    assert(total == 0x100 * tens_carry + 16 * tens + units);
    assert(0 <= 16 * tens + units < 0x100);
    assert(total % 0x100 == 16 * tens + units);
    (tens, units, tens_carry)
}

/// On decimal digits, decimal addition adds the numbers that the operands
/// stand for: the result stands for their sum modulo 100, and the carry is
/// set exactly when the sum passes 99.
pub proof fn lemma_add_decimal(a: u8, m: u8, carry: bool)
    requires
        is_bcd(a),
        is_bcd(m),
    ensures
        is_bcd(add_decimal(a, m, carry).value),
        bcd_value(add_decimal(a, m, carry).value) == (bcd_value(a) + bcd_value(m) + carry_value(
            carry,
        )) % 100,
        add_decimal(a, m, carry).carry <==> bcd_value(a) + bcd_value(m) + carry_value(carry) > 99,
{
    let (tens, units, carry_out) = lemma_add_decimal_digits(a, m, carry);
    lemma_hex_digits(add_decimal(a, m, carry).value, tens, units);
    lemma_hundreds(carry_out, 10 * tens + units);
}

/// Decimal subtraction on decimal digits, digit by digit: each digit of
/// the result is the difference of the operands' digits less the incoming
/// borrow, plus ten when it falls below zero.
proof fn lemma_subtract_decimal_digits(a: u8, m: u8, carry: bool) -> (r: (int, int, int))
    requires
        is_bcd(a),
        is_bcd(m),
    ensures
        0 <= r.0 <= 9,
        0 <= r.1 <= 9,
        0 <= r.2 <= 1,
        subtract_decimal(a, m, carry).value == 16 * r.0 + r.1,
        10 * (a / 16) + a % 16 - 10 * (m / 16) - m % 16 - (1 - carry_value(carry)) == 10 * r.0
            + r.1 - 100 * r.2,
        a - m - (1 - carry_value(carry)) >= 0 <==> r.2 == 0,
{
    reveal(wrap8);
    reveal(subtract_decimal);
    let low = a % 16 - m % 16 - (1 - carry_value(carry));
    let units_borrow: int = if low < 0 {
        1
    } else {
        0
    };
    let units = low + 10 * units_borrow;
    let low_corrected = if low < 0 {
        (low - 6) % 16 - 16
    } else {
        low
    };
    assert(low_corrected == units - 16 * units_borrow);
    let high = a / 16 - m / 16 - units_borrow;
    let tens_borrow: int = if high < 0 {
        1
    } else {
        0
    };
    let tens = high + 10 * tens_borrow;
    let partial = (a / 16) * 16 - (m / 16) * 16 + low_corrected;
    assert(partial == 16 * high + units);
    let total = if partial < 0 {
        partial - 0x60
    } else {
        partial
    };
    assert(total == 16 * tens + units - 0x100 * tens_borrow);
    assert(0 <= 16 * tens + units < 0x100);
    assert(total % 0x100 == 16 * tens + units);
    assert(a - m - (1 - carry_value(carry)) == 16 * (a / 16 - m / 16) + low);
    (tens, units, tens_borrow)
}

/// On decimal digits, decimal subtraction subtracts the numbers that the
/// operands stand for: the result stands for their difference modulo 100,
/// and the carry is set exactly when no borrow is needed.
pub proof fn lemma_subtract_decimal(a: u8, m: u8, carry: bool)
    requires
        is_bcd(a),
        is_bcd(m),
    ensures
        is_bcd(subtract_decimal(a, m, carry).value),
        bcd_value(subtract_decimal(a, m, carry).value) == (bcd_value(a) - bcd_value(m) - (1
            - carry_value(carry))) % 100,
        subtract_decimal(a, m, carry).carry <==> bcd_value(a) - bcd_value(m) - (1 - carry_value(
            carry,
        )) >= 0,
{
    let (tens, units, borrow_out) = lemma_subtract_decimal_digits(a, m, carry);
    let r = subtract_decimal(a, m, carry);
    lemma_hex_digits(r.value, tens, units);
    lemma_hundreds(-borrow_out, 10 * tens + units);
    assert(r.carry <==> a - m - (1 - carry_value(carry)) >= 0) by {
        reveal(subtract_decimal);
        lemma_subtract_binary(a, m, carry);
    }
}

} // verus!
