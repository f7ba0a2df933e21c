use crate::cpu::Flags;
use crate::table::Mnemonic;
use vstd::prelude::*;

verus! {

/// What an 8-bit operation gives: the result and the flags after it.
#[derive(Clone, Copy, Debug, PartialEq, Eq, Structural)]
pub struct Outcome {
    pub value: u8,
    pub flags: Flags,
}

/// The number of set bits of `value`.
pub open spec fn ones(value: u8) -> int {
    value % 2 + (value / 2) % 2 + (value / 4) % 2 + (value / 8) % 2 + (value / 16) % 2 + (value
        / 32) % 2 + (value / 64) % 2 + (value / 128) % 2
}

/// The flags after an operation with the result `value`: zero, sign and parity are read
/// from the result, the two carries are given.
pub open spec fn flags_of(value: u8, carry: bool, auxiliary_carry: bool) -> Flags {
    Flags {
        zero: value == 0,
        carry,
        sign: value >= 0x80,
        parity: ones(value) % 2 == 0,
        auxiliary_carry,
    }
}

/// 1 for a set carry, 0 for a clear one.
pub open spec fn bit(carry: bool) -> int {
    if carry {
        1
    } else {
        0
    }
}

/// `left + right + carry_in` in eight bits. The carry is the one out of bit 7, the
/// auxiliary carry the one out of bit 3.
pub open spec fn sum(left: u8, right: u8, carry_in: bool) -> Outcome {
    let total = left + right + bit(carry_in);
    Outcome {
        value: (total % 256) as u8,
        flags: flags_of(
            (total % 256) as u8,
            total > 255,
            left % 16 + right % 16 + bit(carry_in) > 15,
        ),
    }
}

/// `left - right - borrow_in` in eight bits. The carry is set where the subtraction
/// borrows. The processor subtracts by adding the complement, so the auxiliary carry is
/// set where the low four bits do not borrow.
pub open spec fn difference(left: u8, right: u8, borrow_in: bool) -> Outcome {
    let total = left - right - bit(borrow_in);
    Outcome {
        value: (total % 256) as u8,
        flags: flags_of(
            (total % 256) as u8,
            total < 0,
            left % 16 - right % 16 - bit(borrow_in) >= 0,
        ),
    }
}

/// The bitwise and. The carry is cleared; the auxiliary carry is bit 3 of the or of
/// the two operands.
pub open spec fn conjunction(left: u8, right: u8) -> Outcome {
    Outcome {
        value: left & right,
        flags: flags_of(left & right, false, (left / 8) % 2 == 1 || (right / 8) % 2 == 1),
    }
}

/// The bitwise exclusive or. Both carries are cleared.
pub open spec fn exclusive_or(left: u8, right: u8) -> Outcome {
    Outcome { value: left ^ right, flags: flags_of(left ^ right, false, false) }
}

/// The bitwise or. Both carries are cleared.
pub open spec fn disjunction(left: u8, right: u8) -> Outcome {
    Outcome { value: left | right, flags: flags_of(left | right, false, false) }
}

/// `value + 1` in eight bits. The carry stays as it is in `flags`.
pub open spec fn successor(value: u8, flags: Flags) -> Outcome {
    Outcome {
        value: ((value + 1) % 256) as u8,
        flags: flags_of(((value + 1) % 256) as u8, flags.carry, value % 16 == 15),
    }
}

/// `value - 1` in eight bits. The carry stays as it is in `flags`.
pub open spec fn predecessor(value: u8, flags: Flags) -> Outcome {
    Outcome {
        value: ((value - 1) % 256) as u8,
        flags: flags_of(((value - 1) % 256) as u8, flags.carry, value % 16 != 0),
    }
}

/// What an arithmetic or logic instruction of `mnemonic` gives for the accumulator
/// `left` and the operand `right`. The carry of `flags` enters an addition or a
/// subtraction that takes it. A comparison subtracts for the flags alone and leaves the
/// accumulator; any other mnemonic changes nothing.
pub open spec fn combined(mnemonic: Mnemonic, left: u8, right: u8, flags: Flags) -> Outcome {
    match mnemonic {
        Mnemonic::Add => sum(left, right, false),
        Mnemonic::Adc => sum(left, right, flags.carry),
        Mnemonic::Sub => difference(left, right, false),
        Mnemonic::Sbb => difference(left, right, flags.carry),
        Mnemonic::Ana => conjunction(left, right),
        Mnemonic::Xra => exclusive_or(left, right),
        Mnemonic::Ora => disjunction(left, right),
        Mnemonic::Cmp => Outcome { value: left, flags: difference(left, right, false).flags },
        _ => Outcome { value: left, flags },
    }
}

/// Whether `value` has an even number of set bits.
pub fn even_parity(value: u8) -> (even: bool)
    ensures
        even == (ones(value) % 2 == 0),
{
    let folded = value ^ (value >> 4);
    let folded = folded ^ (folded >> 2);
    let folded = folded ^ (folded >> 1);
    assert(({
        let f4 = value ^ (value >> 4);
        let f2 = f4 ^ (f4 >> 2);
        let f1 = f2 ^ (f2 >> 1);
        f1 & 1 == 0
    }) == ((value % 2 + (value / 2) % 2 + (value / 4) % 2 + (value / 8) % 2 + (value / 16) % 2
        + (value / 32) % 2 + (value / 64) % 2 + (value / 128) % 2) % 2 == 0)) by (bit_vector);
    folded & 1 == 0
}

/// The flags after an operation with the result `value` and the two carries given.
pub fn flags_after(value: u8, carry: bool, auxiliary_carry: bool) -> (flags: Flags)
    ensures
        flags == flags_of(value, carry, auxiliary_carry),
{
    Flags {
        zero: value == 0,
        carry,
        sign: value >= 0x80,
        parity: even_parity(value),
        auxiliary_carry,
    }
}

/// Adds `right` and the carry to `left`.
pub fn add_with_carry(left: u8, right: u8, carry_in: bool) -> (outcome: Outcome)
    ensures
        outcome == sum(left, right, carry_in),
{
    let carry: u16 = if carry_in {
        1
    } else {
        0
    };
    let total: u16 = left as u16 + right as u16 + carry;
    let low: u16 = (left % 16) as u16 + (right % 16) as u16 + carry;
    let value = (total % 256) as u8;
    Outcome { value, flags: flags_after(value, total > 255, low > 15) }
}

/// Subtracts `right` and the borrow from `left`.
pub fn subtract_with_borrow(left: u8, right: u8, borrow_in: bool) -> (outcome: Outcome)
    ensures
        outcome == difference(left, right, borrow_in),
{
    let borrow: u16 = if borrow_in {
        1
    } else {
        0
    };
    let taken: u16 = right as u16 + borrow;
    let value: u8 = if left as u16 >= taken {
        (left as u16 - taken) as u8
    } else {
        (256 + left as u16 - taken) as u8
    };
    let low_taken: u16 = (right % 16) as u16 + borrow;
    assert(value == (left - right - bit(borrow_in)) % 256);
    Outcome {
        value,
        flags: flags_after(value, (left as u16) < taken, (left % 16) as u16 >= low_taken),
    }
}

/// The bitwise and of the two operands.
pub fn and(left: u8, right: u8) -> (outcome: Outcome)
    ensures
        outcome == conjunction(left, right),
{
    let value = left & right;
    assert((left | right) & 8 != 0 <==> (left / 8) % 2 == 1 || (right / 8) % 2 == 1)
        by (bit_vector);
    Outcome { value, flags: flags_after(value, false, (left | right) & 8 != 0) }
}

/// The bitwise exclusive or of the two operands.
pub fn xor(left: u8, right: u8) -> (outcome: Outcome)
    ensures
        outcome == exclusive_or(left, right),
{
    let value = left ^ right;
    Outcome { value, flags: flags_after(value, false, false) }
}

/// The bitwise or of the two operands.
pub fn or(left: u8, right: u8) -> (outcome: Outcome)
    ensures
        outcome == disjunction(left, right),
{
    let value = left | right;
    Outcome { value, flags: flags_after(value, false, false) }
}

/// Adds one to `value` and keeps the carry of `flags`.
pub fn increment(value: u8, flags: Flags) -> (outcome: Outcome)
    ensures
        outcome == successor(value, flags),
{
    let next: u8 = if value == 255 {
        0
    } else {
        value + 1
    };
    Outcome { value: next, flags: flags_after(next, flags.carry, value % 16 == 15) }
}

/// Takes one from `value` and keeps the carry of `flags`.
pub fn decrement(value: u8, flags: Flags) -> (outcome: Outcome)
    ensures
        outcome == predecessor(value, flags),
{
    let next: u8 = if value == 0 {
        255
    } else {
        value - 1
    };
    Outcome { value: next, flags: flags_after(next, flags.carry, value % 16 != 0) }
}

/// Carries out the arithmetic or logic instruction of `mnemonic` on the accumulator
/// `left` and the operand `right`.
pub fn combine(mnemonic: Mnemonic, left: u8, right: u8, flags: Flags) -> (outcome: Outcome)
    ensures
        outcome == combined(mnemonic, left, right, flags),
{
    match mnemonic {
        Mnemonic::Add => add_with_carry(left, right, false),
        Mnemonic::Adc => add_with_carry(left, right, flags.carry),
        Mnemonic::Sub => subtract_with_borrow(left, right, false),
        Mnemonic::Sbb => subtract_with_borrow(left, right, flags.carry),
        Mnemonic::Ana => and(left, right),
        Mnemonic::Xra => xor(left, right),
        Mnemonic::Ora => or(left, right),
        Mnemonic::Cmp => Outcome {
            value: left,
            flags: subtract_with_borrow(left, right, false).flags,
        },
        _ => Outcome { value: left, flags },
    }
}

} // verus!
