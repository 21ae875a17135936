//! What holds of every step, stated over the transition the simulator is
//! verified against.

use vstd::prelude::*;
use crate::alu::{
    exact_result, flags_after, modulus, overflow_of, parity_of, sign_of, truncated, zero_of,
};
use crate::control::{branch_target, jump_condition, loop_condition};
use crate::flags::{
    has_flag, lemma_with_flag, with_flag, ARITHMETIC_FLAGS, OVERFLOW_FLAG, PARITY_FLAG,
    SIGNED_FLAG, ZERO_FLAG,
};
use crate::instruction::{Fault, Instruction, Operand, Operation};
use crate::machine::{step, MachineState, Place};
use crate::memory::lemma_word_round_trip;
use crate::registers::{valid_index, COUNTER_INDEX, IP_INDEX};
use crate::word::{byte_of, lemma_halves, bit_count, Half};

verus! {

/// The instruction pointer once it has moved past `inst`.
pub open spec fn next_pointer(state: MachineState, inst: Instruction) -> u16 {
    ((state.registers.ip() + inst.size) % 0x1_0000) as u16
}

/// A step changes what registers and memory hold, never how many there are.
pub proof fn law_step_keeps_sizes(state: MachineState, inst: Instruction)
    requires
        state.wf(),
    ensures
        step(state, inst).state.wf(),
{
}

/// After an arithmetic operation each of the four flags says of the result
/// what it stands for, and every other bit of the flags word is as before.
pub proof fn law_flags_after(flags: u16, exact: int, wide: bool)
    ensures
        has_flag(flags_after(flags, exact, wide), ZERO_FLAG) == zero_of(exact, wide),
        has_flag(flags_after(flags, exact, wide), SIGNED_FLAG) == sign_of(exact, wide),
        has_flag(flags_after(flags, exact, wide), OVERFLOW_FLAG) == overflow_of(exact, wide),
        has_flag(flags_after(flags, exact, wide), PARITY_FLAG) == parity_of(exact, wide),
        flags_after(flags, exact, wide) & !ARITHMETIC_FLAGS == flags & !ARITHMETIC_FLAGS,
{
    let zero = zero_of(exact, wide);
    let sign = sign_of(exact, wide);
    let overflow = overflow_of(exact, wide);
    let parity = parity_of(exact, wide);
    let f1 = with_flag(flags, ZERO_FLAG, zero);
    let f2 = with_flag(f1, SIGNED_FLAG, sign);
    let f3 = with_flag(f2, OVERFLOW_FLAG, overflow);
    let f4 = with_flag(f3, PARITY_FLAG, parity);
    assert(f4 == flags_after(flags, exact, wide));
    assert(ZERO_FLAG & SIGNED_FLAG == 0 && ZERO_FLAG & OVERFLOW_FLAG == 0 && ZERO_FLAG
        & PARITY_FLAG == 0 && SIGNED_FLAG & OVERFLOW_FLAG == 0 && SIGNED_FLAG & PARITY_FLAG == 0
        && OVERFLOW_FLAG & PARITY_FLAG == 0) by (bit_vector);
    lemma_with_flag(flags, ZERO_FLAG, zero, ZERO_FLAG);
    lemma_with_flag(f1, SIGNED_FLAG, sign, ZERO_FLAG);
    lemma_with_flag(f2, OVERFLOW_FLAG, overflow, ZERO_FLAG);
    lemma_with_flag(f2, OVERFLOW_FLAG, overflow, SIGNED_FLAG);
    lemma_with_flag(f3, PARITY_FLAG, parity, ZERO_FLAG);
    lemma_with_flag(f3, PARITY_FLAG, parity, SIGNED_FLAG);
    lemma_with_flag(f3, PARITY_FLAG, parity, OVERFLOW_FLAG);
    assert(f4 & !ARITHMETIC_FLAGS == flags & !ARITHMETIC_FLAGS) by (bit_vector)
        requires
            f1 & !ZERO_FLAG == flags & !ZERO_FLAG,
            f2 & !SIGNED_FLAG == f1 & !SIGNED_FLAG,
            f3 & !OVERFLOW_FLAG == f2 & !OVERFLOW_FLAG,
            f4 & !PARITY_FLAG == f3 & !PARITY_FLAG,
    ;
}

/// Word addition wraps around at 16 bits, whatever the operands, and sets
/// the zero flag if and only if the wrapped sum is zero.
pub proof fn law_word_add_wraps(a: u16, b: u16, flags: u16)
    ensures
        exact_result(Operation::Add, a, b) == Some(a + b),
        truncated(a + b, true) == (a + b) % 0x1_0000,
        has_flag(flags_after(flags, a + b, true), ZERO_FLAG) <==> (a + b) % 0x1_0000 == 0,
{
    law_flags_after(flags, a + b, true);
}

/// An addition that runs to its end leaves the sum of destination and source,
/// wrapped at the width of the operation, in the destination, and the zero
/// flag set if and only if that wrapped sum is zero. At word width the sum
/// wraps at 16 bits.
pub proof fn law_add(state: MachineState, inst: Instruction)
    requires
        state.wf(),
        inst.op == Operation::Add,
        step(state, inst).fault is None,
    ensures
        ({
            let before = state.advance(inst.size);
            let after = step(state, inst).state;
            let place = before.destination(inst)->Ok_0;
            let a = before.load(place, inst.wide);
            let b = before.arithmetic_source(inst, inst.wide)->Ok_0;
            &&& after.load(place, inst.wide) == (a + b) % modulus(inst.wide)
            &&& has_flag(after.registers.flags, ZERO_FLAG) <==> (a + b) % modulus(inst.wide) == 0
            &&& inst.wide ==> after.load(place, true) == (a + b) % 0x1_0000
        }),
{
    let before = state.advance(inst.size);
    let place = before.destination(inst)->Ok_0;
    let a = before.load(place, inst.wide);
    let b = before.arithmetic_source(inst, inst.wide)->Ok_0;
    let sum = truncated(a + b, inst.wide);
    law_flags_after(before.registers.flags, a + b, inst.wide);
    match place {
        Place::Register { index, half } => {
            lemma_halves(before.registers.word(index), half, byte_of(sum, Half::Low));
        },
        Place::Memory { offset } => {
            lemma_word_round_trip(before.memory, offset as int, sum);
        },
    }
}

/// The parity flag is set if and only if the low byte of the result as
/// stored has an even number of one bits.
pub proof fn law_parity_of_low_byte(flags: u16, exact: int, wide: bool)
    ensures
        has_flag(flags_after(flags, exact, wide), PARITY_FLAG) <==> bit_count(
            (truncated(exact, wide) % 256) as nat,
        ) % 2 == 0,
{
    law_flags_after(flags, exact, wide);
}

/// A comparison writes nothing back. Whatever its operands, and whether or
/// not it faults, no general register, no byte of memory and no slot of the
/// secondary bank differs from what it was once the instruction pointer had
/// moved past the instruction: the flags alone can.
pub proof fn law_compare_writes_nothing(state: MachineState, inst: Instruction)
    requires
        inst.op == Operation::Compare,
    ensures
        step(state, inst).state.registers.general == state.registers.general,
        step(state, inst).state.registers.biu == state.advance(inst.size).registers.biu,
        step(state, inst).state.memory == state.memory,
{
}

/// A byte-width move into one half of a register leaves the other half of
/// that register as it was once the instruction pointer had moved past the
/// instruction, which for every register but the instruction pointer is as it
/// was before the step. If the move runs to its end the written half holds the
/// low byte of the source value.
pub proof fn law_byte_move_keeps_other_half(
    state: MachineState,
    inst: Instruction,
    index: u32,
    half: Half,
)
    requires
        state.wf(),
        inst.op == Operation::Mov,
        !inst.wide,
        valid_index(index),
        inst.operand(0) == Some(Operand::Register { index, half }),
    ensures
        ({
            let before = state.advance(inst.size);
            let out = step(state, inst);
            let kept = half.other();
            &&& out.state.registers.half(index, kept) == before.registers.half(index, kept)
            &&& index != IP_INDEX ==> out.state.registers.half(index, kept)
                == state.registers.half(index, kept)
            &&& out.fault is None ==> out.state.registers.half(index, half) == byte_of(
                before.source(inst)->Ok_0,
                Half::Low,
            )
        }),
{
    let before = state.advance(inst.size);
    match before.source(inst) {
        Ok(value) => {
            lemma_halves(before.registers.word(index), half, byte_of(value, Half::Low));
        },
        Err(_) => {},
    }
}

/// A conditional jump whose flag is not in the state it asks for does not
/// branch: it looks at no operand, cannot fault, and changes nothing but the
/// instruction pointer, which has moved past the instruction and no further.
pub proof fn law_jump_not_taken(state: MachineState, inst: Instruction)
    requires
        state.wf(),
        jump_condition(inst.op) matches Some((mask, expected)) && has_flag(
            state.registers.flags,
            mask,
        ) != expected,
    ensures
        step(state, inst) == state.advance(inst.size).done(),
        step(state, inst).pointer() == Ok::<u16, Fault>(next_pointer(state, inst)),
{
}

/// A conditional jump whose flag is in the state it asks for branches: the
/// displacement is applied to the instruction pointer as it is once it has
/// moved past the instruction, and nothing but the pointer changes.
pub proof fn law_jump_taken(state: MachineState, inst: Instruction, displacement: i32)
    requires
        state.wf(),
        jump_condition(inst.op) matches Some((mask, expected)) && has_flag(
            state.registers.flags,
            mask,
        ) == expected,
        inst.operand(0) == Some(Operand::Immediate { value: displacement }),
    ensures
        step(state, inst).pointer() == branch_target(next_pointer(state, inst), displacement),
        step(state, inst).state.registers.general == state.registers.general,
        step(state, inst).state.registers.flags == state.registers.flags,
        step(state, inst).state.memory == state.memory,
{
}

/// A loop instruction counts the counter register down exactly once, whether
/// it branches, does not branch, or faults. It changes neither the flags nor
/// memory.
pub proof fn law_loop_counts_down(state: MachineState, inst: Instruction)
    requires
        state.wf(),
        loop_condition(inst.op) is Some,
    ensures
        step(state, inst).state.registers.word(COUNTER_INDEX) == (state.registers.word(
            COUNTER_INDEX,
        ) - 1) % 0x1_0000,
        step(state, inst).state.registers.flags == state.registers.flags,
        step(state, inst).state.memory == state.memory,
{
}

/// A loop instruction that counts the counter down to zero does not branch,
/// whatever the flags and whatever its operand: the instruction pointer has
/// moved past the instruction and no further.
pub proof fn law_loop_ends_at_zero(state: MachineState, inst: Instruction)
    requires
        state.wf(),
        loop_condition(inst.op) is Some,
        state.registers.word(COUNTER_INDEX) == 1,
    ensures
        step(state, inst).pointer() == Ok::<u16, Fault>(next_pointer(state, inst)),
        step(state, inst).state.registers.word(COUNTER_INDEX) == 0,
{
}

/// A loop instruction whose counter stays above zero branches if and only if
/// the zero flag is in the state it asks for.
pub proof fn law_loop_branches_on_flag(state: MachineState, inst: Instruction, displacement: i32)
    requires
        state.wf(),
        loop_condition(inst.op) is Some,
        state.registers.word(COUNTER_INDEX) != 1,
        inst.operand(0) == Some(Operand::Immediate { value: displacement }),
    ensures
        step(state, inst).pointer() == if has_flag(state.registers.flags, ZERO_FLAG)
            == loop_condition(inst.op)->Some_0 {
            branch_target(next_pointer(state, inst), displacement)
        } else {
            Ok(next_pointer(state, inst))
        },
{
}

} // verus!
