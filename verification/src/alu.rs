//! Addition, subtraction and comparison, and the flags they derive.
//!
//! The flags are a simplified model: the overflow flag reports an unsigned
//! carry or borrow, not a signed overflow, and the conditional jumps that
//! test it rely on that.

use vstd::prelude::*;
use crate::flags::{set_flag, with_flag, OVERFLOW_FLAG, PARITY_FLAG, SIGNED_FLAG, ZERO_FLAG};
use crate::instruction::Operation;
use crate::word::{count_ones, bit_count};

verus! {

/// Number of values that an operand of the given width can hold.
pub open spec fn modulus(wide: bool) -> int {
    if wide {
        0x1_0000
    } else {
        0x100
    }
}

/// The result of `op` on two operands before it is cut to any width, or
/// `None` if `op` is not arithmetic.
pub open spec fn exact_result(op: Operation, destination: u16, source: u16) -> Option<int> {
    match op {
        Operation::Add => Some(destination + source),
        Operation::Sub | Operation::Compare => Some(destination - source),
        _ => None,
    }
}

/// `exact` cut to the width of the operation.
pub open spec fn truncated(exact: int, wide: bool) -> u16 {
    (exact % modulus(wide)) as u16
}

/// The zero flag after a result `exact`: the result as stored is zero.
pub open spec fn zero_of(exact: int, wide: bool) -> bool {
    truncated(exact, wide) == 0
}

/// The sign flag after a result `exact`: the top bit of the result as stored.
pub open spec fn sign_of(exact: int, wide: bool) -> bool {
    truncated(exact, wide) >= modulus(wide) / 2
}

/// The parity flag after a result `exact`: the low byte of the result as
/// stored has an even number of one bits.
pub open spec fn parity_of(exact: int, wide: bool) -> bool {
    bit_count((truncated(exact, wide) % 256) as nat) % 2 == 0
}

/// The overflow flag after a result `exact`: the result does not fit the
/// width as an unsigned number.
pub open spec fn overflow_of(exact: int, wide: bool) -> bool {
    exact < 0 || exact >= modulus(wide)
}

/// The flags word after an operation with result `exact`: the four arithmetic
/// flags are derived from the result, every other bit is kept.
pub open spec fn flags_after(flags: u16, exact: int, wide: bool) -> u16 {
    with_flag(
        with_flag(
            with_flag(
                with_flag(flags, ZERO_FLAG, zero_of(exact, wide)),
                SIGNED_FLAG,
                sign_of(exact, wide),
            ),
            OVERFLOW_FLAG,
            overflow_of(exact, wide),
        ),
        PARITY_FLAG,
        parity_of(exact, wide),
    )
}

/// The scratch value of an operation: its exact result placed eight bits up
/// in a 32-bit word, in two's complement. Whatever the width of the operation,
/// the result as stored starts at bit 8 and a carry or borrow shows above it.
pub open spec fn accumulator(exact: int) -> u32 {
    ((exact * 256) % 0x1_0000_0000) as u32
}

/// The result that a scratch value carries, with any carry or borrow.
pub open spec fn carried(alu: u32) -> int {
    alu as int / 256
}

/// What a scratch value of two operands shows of their exact result, at either
/// width.
pub proof fn lemma_accumulator(exact: int, wide: bool)
    requires
        -modulus(wide) < exact < 2 * modulus(wide),
    ensures
        carried(accumulator(exact)) % modulus(wide) == truncated(exact, wide),
        carried(accumulator(exact)) >= modulus(wide) <==> overflow_of(exact, wide),
{
    if exact < 0 {
        assert(accumulator(exact) == exact * 256 + 0x1_0000_0000);
        assert(carried(accumulator(exact)) == exact + 0x100_0000);
    } else {
        assert(accumulator(exact) == exact * 256);
        assert(carried(accumulator(exact)) == exact);
    }
}

/// Builds the scratch value of `op` on two operands, or `None` if `op` is not
/// arithmetic.
pub fn accumulate(op: Operation, destination: u16, source: u16) -> (alu: Option<u32>)
    ensures
        alu == match exact_result(op, destination, source) {
            Some(exact) => Some(accumulator(exact)),
            None => None,
        },
{
    let left: u32 = (destination as u32) << 8;
    let right: u32 = (source as u32) << 8;
    proof {
        let d: u32 = destination as u32;
        let s: u32 = source as u32;
        assert(d << 8 == d * 256) by (bit_vector)
            requires
                d < 0x1_0000,
        ;
        assert(s << 8 == s * 256) by (bit_vector)
            requires
                s < 0x1_0000,
        ;
    }
    match op {
        Operation::Add => Some(left + right),
        Operation::Sub | Operation::Compare => Some(left.wrapping_sub(right)),
        _ => None,
    }
}

/// Cuts the word-width result out of a scratch value.
pub fn result_word(alu: u32) -> (result: u16)
    ensures
        result == carried(alu) % 0x1_0000,
{
    assert(((alu << 8) >> 16) & 0xffff == (alu / 256) % 0x1_0000) by (bit_vector);
    (((alu << 8) >> 16) & 0xffff) as u16
}

/// Cuts the byte-width result out of a scratch value.
pub fn result_byte(alu: u32) -> (result: u8)
    ensures
        result == carried(alu) % 0x100,
{
    assert((alu << 16) >> 24 == (alu / 256) % 0x100) by (bit_vector);
    ((alu << 16) >> 24) as u8
}

/// Sets the zero flag if and only if `result_val`, a result as stored, is
/// zero.
pub fn set_zero_flag(flags: u16, result_val: u32) -> (updated: u16)
    ensures
        updated == with_flag(flags, ZERO_FLAG, result_val == 0),
{
    set_flag(flags, ZERO_FLAG, result_val == 0)
}

/// Sets the sign flag to bit 7 of the result in `alu`.
pub fn set_signed_flag_u8(flags: u16, alu: u32) -> (updated: u16)
    ensures
        updated == with_flag(flags, SIGNED_FLAG, carried(alu) % 0x100 >= 0x80),
{
    assert((((alu >> 8) & 0x80) >> 7 == 1) == ((alu / 256) % 0x100 >= 0x80)) by (bit_vector);
    set_flag(flags, SIGNED_FLAG, ((alu >> 8) & 0x80) >> 7 == 1)
}

/// Sets the sign flag to bit 15 of the result in `alu`.
pub fn set_signed_flag(flags: u16, alu: u32) -> (updated: u16)
    ensures
        updated == with_flag(flags, SIGNED_FLAG, carried(alu) % 0x1_0000 >= 0x8000),
{
    assert((((alu >> 8) & 0x8000) >> 15 == 1) == ((alu / 256) % 0x1_0000 >= 0x8000))
        by (bit_vector);
    set_flag(flags, SIGNED_FLAG, ((alu >> 8) & 0x8000) >> 15 == 1)
}

/// Sets the parity flag if and only if the low byte of the result in `alu`
/// has an even number of one bits.
pub fn set_parity_flag(flags: u16, alu: u32) -> (updated: u16)
    ensures
        updated == with_flag(
            flags,
            PARITY_FLAG,
            bit_count((carried(alu) % 0x100) as nat) % 2 == 0,
        ),
{
    assert((alu >> 8) & 0xff == (alu / 256) % 0x100) by (bit_vector);
    let total = count_ones(((alu >> 8) & 0xff) as u8);
    set_flag(flags, PARITY_FLAG, total % 2 == 0)
}

/// Sets the overflow flag if and only if the result in `alu` does not fit 16
/// bits.
pub fn set_overflow_flag(flags: u16, alu: u32) -> (updated: u16)
    ensures
        updated == with_flag(flags, OVERFLOW_FLAG, carried(alu) >= 0x1_0000),
{
    assert(alu >> 8 == alu / 256) by (bit_vector);
    set_flag(flags, OVERFLOW_FLAG, (alu >> 8) > 0xffff)
}

/// Sets the overflow flag if and only if the result in `alu` does not fit 8
/// bits.
pub fn set_overflow_flag_u8(flags: u16, alu: u32) -> (updated: u16)
    ensures
        updated == with_flag(flags, OVERFLOW_FLAG, carried(alu) >= 0x100),
{
    assert(alu >> 8 == alu / 256) by (bit_vector);
    set_flag(flags, OVERFLOW_FLAG, (alu >> 8) > 0xff)
}

} // verus!
