//! The machine as a mathematical value, and what one instruction does to it.
//!
//! [`step`] says what executing an instruction means: the simulator is
//! verified to make exactly this transition.

use vstd::prelude::*;
use crate::alu::{exact_result, flags_after, modulus, truncated};
use crate::control::{branch_target, jump_condition, loop_condition};
use crate::flags::{has_flag, ZERO_FLAG};
use crate::instruction::{Fault, Instruction, Operand, Operation};
use crate::memory::{holds_word, with_word_at, word_at, MEM_LEN};
use crate::registers::{valid_index, RegisterState, COUNTER_INDEX};
use crate::word::{byte_of, Half};

verus! {

/// A resolved operand: a register or a memory cell that is known to exist.
#[derive(Clone, Copy, Debug, PartialEq, Eq)]
pub enum Place {
    /// The register `index`; at byte width, the byte of it that `half`
    /// selects.
    Register { index: u32, half: Half },
    /// The word at `offset` in memory; at byte width, its first byte.
    Memory { offset: usize },
}

/// Whether `place` names a register or a word of memory that exists.
pub open spec fn valid_place(place: Place) -> bool {
    match place {
        Place::Register { index, .. } => valid_index(index),
        Place::Memory { offset } => holds_word(offset as int),
    }
}

/// The value of an immediate operand at the width of the operation: its low
/// 16 or 8 bits.
pub open spec fn immediate(value: i32, wide: bool) -> u16 {
    (value as int % modulus(wide)) as u16
}

/// Everything the machine holds.
pub struct MachineState {
    /// The register file.
    pub registers: RegisterState,
    /// The bytes of memory.
    pub memory: Seq<u8>,
}

/// A machine after an instruction, and the fault that cut the instruction
/// short, if one did.
pub struct Outcome {
    /// The machine as the instruction left it.
    pub state: MachineState,
    /// Why the instruction stopped, or `None` if it ran to its end.
    pub fault: Option<Fault>,
}

impl Outcome {
    /// What a handler reports: that it finished, or the fault.
    pub open spec fn completion(self) -> Result<(), Fault> {
        match self.fault {
            None => Ok(()),
            Some(fault) => Err(fault),
        }
    }

    /// What a step reports: the instruction pointer it ended on, or the fault.
    pub open spec fn pointer(self) -> Result<u16, Fault> {
        match self.fault {
            None => Ok(self.state.registers.ip()),
            Some(fault) => Err(fault),
        }
    }
}

impl MachineState {
    /// Registers and memory have their fixed sizes.
    pub open spec fn wf(self) -> bool {
        self.registers.wf() && self.memory.len() == MEM_LEN
    }

    /// An instruction that ran to its end and left the machine as `self`.
    pub open spec fn done(self) -> Outcome {
        Outcome { state: self, fault: None }
    }

    /// An instruction that stopped on `fault` and left the machine as `self`.
    pub open spec fn stopped(self, fault: Fault) -> Outcome {
        Outcome { state: self, fault: Some(fault) }
    }

    /// The machine with another register file.
    pub open spec fn with_registers(self, registers: RegisterState) -> MachineState {
        MachineState { registers, ..self }
    }

    /// The offset of the memory operand `base` plus `displacement`: the value
    /// of the base register, or 0 without one, plus the displacement. It is a
    /// fault for the base not to be a register, and for the word at the
    /// offset not to lie within memory.
    pub open spec fn address(self, base: Option<u32>, displacement: i32) -> Result<usize, Fault> {
        let start: int = match base {
            Some(index) => self.registers.word(index) as int,
            None => 0,
        };
        if base matches Some(index) && !valid_index(index) {
            Err(Fault::RegisterOutOfRange)
        } else if !holds_word(start + displacement) {
            Err(Fault::MemoryOutOfBounds)
        } else {
            Ok((start + displacement) as usize)
        }
    }

    /// The place that `operand` names. An immediate names none.
    pub open spec fn resolve(self, operand: Operand) -> Result<Place, Fault> {
        match operand {
            Operand::Register { index, half } => if valid_index(index) {
                Ok(Place::Register { index, half })
            } else {
                Err(Fault::RegisterOutOfRange)
            },
            Operand::Memory { base, displacement } => match self.address(base, displacement) {
                Ok(offset) => Ok(Place::Memory { offset }),
                Err(fault) => Err(fault),
            },
            Operand::Immediate { .. } => Err(Fault::IllegalOperand),
        }
    }

    /// What `place` holds: a word, or at byte width its selected byte.
    pub open spec fn load(self, place: Place, wide: bool) -> u16
        recommends
            valid_place(place),
    {
        match place {
            Place::Register { index, half } => if wide {
                self.registers.word(index)
            } else {
                self.registers.half(index, half) as u16
            },
            Place::Memory { offset } => if wide {
                word_at(self.memory, offset as int)
            } else {
                self.memory[offset as int] as u16
            },
        }
    }

    /// The machine with `value` in `place`: the whole word, or at byte width
    /// the low byte of `value` in the selected byte, the other byte kept.
    pub open spec fn store(self, place: Place, wide: bool, value: u16) -> MachineState
        recommends
            valid_place(place),
    {
        match place {
            Place::Register { index, half } => if wide {
                self.with_registers(self.registers.with_word(index, value))
            } else {
                self.with_registers(
                    self.registers.with_half(index, half, byte_of(value, Half::Low)),
                )
            },
            Place::Memory { offset } => if wide {
                MachineState { memory: with_word_at(self.memory, offset as int, value), ..self }
            } else {
                MachineState {
                    memory: self.memory.update(offset as int, byte_of(value, Half::Low)),
                    ..self
                }
            },
        }
    }

    /// The value that `operand` supplies at the width of the operation.
    pub open spec fn value_of(self, operand: Operand, wide: bool) -> Result<u16, Fault> {
        match operand {
            Operand::Immediate { value } => Ok(immediate(value, wide)),
            _ => match self.resolve(operand) {
                Ok(place) => Ok(self.load(place, wide)),
                Err(fault) => Err(fault),
            },
        }
    }

    /// The place that the first operand of `inst` names.
    pub open spec fn destination(self, inst: Instruction) -> Result<Place, Fault> {
        match inst.operand(0) {
            Some(operand) => self.resolve(operand),
            None => Err(Fault::IllegalOperand),
        }
    }

    /// The value that the second operand of `inst` supplies to a move.
    pub open spec fn source(self, inst: Instruction) -> Result<u16, Fault> {
        match inst.operand(1) {
            Some(operand) => self.value_of(operand, inst.wide),
            None => Err(Fault::IllegalOperand),
        }
    }

    /// The value that the second operand of `inst` supplies to arithmetic,
    /// which takes a register or an immediate.
    pub open spec fn arithmetic_source(self, inst: Instruction, wide: bool) -> Result<u16, Fault> {
        match inst.operand(1) {
            Some(Operand::Memory { .. }) | None => Err(Fault::IllegalOperand),
            Some(operand) => self.value_of(operand, wide),
        }
    }

    /// The machine with the instruction pointer moved past an instruction of
    /// `size` bytes. The pointer wraps around at 16 bits.
    pub open spec fn advance(self, size: u32) -> MachineState {
        self.with_registers(
            self.registers.with_ip(((self.registers.ip() + size) % 0x1_0000) as u16),
        )
    }

    /// A move: the source value goes to the destination. The destination is
    /// resolved first, so its fault comes before one of the source.
    pub open spec fn mov(self, inst: Instruction) -> Outcome {
        match (self.destination(inst), self.source(inst)) {
            (Err(fault), _) => self.stopped(fault),
            (Ok(_), Err(fault)) => self.stopped(fault),
            (Ok(place), Ok(value)) => self.store(place, inst.wide, value).done(),
        }
    }

    /// An addition, subtraction or comparison: the flags are derived from the
    /// exact result, and unless it is a comparison the result goes to the
    /// destination. Faults come in the order destination, source, operation.
    pub open spec fn arithmetic(self, inst: Instruction, wide: bool) -> Outcome {
        match (self.destination(inst), self.arithmetic_source(inst, wide)) {
            (Err(fault), _) => self.stopped(fault),
            (Ok(_), Err(fault)) => self.stopped(fault),
            (Ok(place), Ok(value)) => match exact_result(
                inst.op,
                self.load(place, wide),
                value,
            ) {
                None => self.stopped(Fault::Unimplemented),
                Some(exact) => {
                    let stored = if inst.op is Compare {
                        self
                    } else {
                        self.store(place, wide, truncated(exact, wide))
                    };
                    stored.with_registers(
                        stored.registers.with_flags(
                            flags_after(self.registers.flags, exact, wide),
                        ),
                    ).done()
                },
            },
        }
    }

    /// A branch: the displacement, which is the only operand and an
    /// immediate, is applied to the instruction pointer.
    pub open spec fn branch(self, inst: Instruction) -> Outcome {
        match inst.operand(0) {
            Some(Operand::Immediate { value }) => match branch_target(
                self.registers.ip(),
                value,
            ) {
                Ok(target) => self.with_registers(self.registers.with_ip(target)).done(),
                Err(fault) => self.stopped(fault),
            },
            _ => self.stopped(Fault::IllegalOperand),
        }
    }

    /// A conditional jump: it branches if and only if the flag under `mask`
    /// is in the state `expected`, and looks at its operand only then.
    pub open spec fn conditional_jump(self, inst: Instruction, mask: u16, expected: bool) -> Outcome {
        if has_flag(self.registers.flags, mask) == expected {
            self.branch(inst)
        } else {
            self.done()
        }
    }

    /// A loop instruction: the counter goes down by one, wrapping around at
    /// zero, and then the instruction branches if and only if the counter is
    /// not zero and the zero flag is in the state `expected`.
    pub open spec fn counted_loop(self, inst: Instruction, expected: bool) -> Outcome {
        let counter = ((self.registers.word(COUNTER_INDEX) - 1) % 0x1_0000) as u16;
        let counted = self.with_registers(self.registers.with_word(COUNTER_INDEX, counter));
        if counter != 0 && has_flag(self.registers.flags, ZERO_FLAG) == expected {
            counted.branch(inst)
        } else {
            counted.done()
        }
    }

    /// What `inst` does once the instruction pointer has moved past it.
    pub open spec fn dispatch(self, inst: Instruction) -> Outcome {
        match inst.op {
            Operation::Mov => self.mov(inst),
            Operation::Add | Operation::Sub | Operation::Compare => self.arithmetic(
                inst,
                inst.wide,
            ),
            _ => if let Some((mask, expected)) = jump_condition(inst.op) {
                self.conditional_jump(inst, mask, expected)
            } else if let Some(expected) = loop_condition(inst.op) {
                self.counted_loop(inst, expected)
            } else {
                self.stopped(Fault::Unimplemented)
            },
        }
    }
}

/// One step of the machine: the instruction pointer moves past `inst`, then
/// `inst` is executed. A branch is therefore relative to the instruction
/// after it, and a fault leaves the pointer advanced.
pub open spec fn step(state: MachineState, inst: Instruction) -> Outcome {
    state.advance(inst.size).dispatch(inst)
}

} // verus!
