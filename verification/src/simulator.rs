//! The execution engine: it applies one decoded instruction at a time to the
//! registers and memory it owns.

use vstd::prelude::*;
use crate::alu::{
    accumulate, exact_result, lemma_accumulator, result_byte, result_word, set_overflow_flag,
    set_overflow_flag_u8, set_parity_flag, set_signed_flag, set_signed_flag_u8, set_zero_flag,
};
use crate::control::jump_target;
use crate::flags::{test_flag, OVERFLOW_FLAG, PARITY_FLAG, ZERO_FLAG};
use crate::instruction::{Fault, Instruction, Operand, Operation};
use crate::machine::{immediate, step, valid_place, MachineState, Place};
use crate::memory::{Memory, MEM_LEN};
use crate::registers::{RegisterFile, BIU_LEN, COUNTER_INDEX, REG_LEN};
use crate::word::{replace_byte, select_byte, Half};

verus! {

/// The simulated machine.
pub struct Simulator {
    /// General registers, flags and instruction pointer.
    pub registers: RegisterFile,
    /// The flat memory.
    pub memory: Memory,
}

impl View for Simulator {
    type V = MachineState;

    open spec fn view(&self) -> MachineState {
        MachineState { registers: self.registers@, memory: self.memory@ }
    }
}

/// Cuts an immediate to the width of the operation.
pub fn immediate_value(value: i32, wide: bool) -> (cut: u16)
    ensures
        cut == immediate(value, wide),
{
    if wide {
        assert((value & 0xffff) as int == (value as int) % 0x1_0000) by (bit_vector);
        (value & 0xffff) as u16
    } else {
        assert((value & 0xff) as int == (value as int) % 0x100) by (bit_vector);
        (value & 0xff) as u16
    }
}

impl Simulator {
    /// A machine with every register, every flag and every byte of memory at
    /// zero.
    pub fn new() -> (machine: Self)
        ensures
            machine@.wf(),
            machine@.registers.flags == 0,
            forall|i: int| 0 <= i < REG_LEN ==> machine@.registers.general[i] == 0,
            forall|i: int| 0 <= i < BIU_LEN ==> machine@.registers.biu[i] == 0,
            forall|i: int| 0 <= i < MEM_LEN ==> machine@.memory[i] == 0,
    {
        Simulator { registers: RegisterFile::new(), memory: Memory::new() }
    }

    /// Executes one instruction: moves the instruction pointer past it, then
    /// carries it out. Returns the instruction pointer afterwards, or the
    /// fault that stopped the instruction.
    pub fn execute_instruction(&mut self, inst: &Instruction) -> (pointer: Result<u16, Fault>)
        ensures
            final(self)@ == step(old(self)@, *inst).state,
            pointer == step(old(self)@, *inst).pointer(),
            final(self)@.wf(),
    {
        proof {
            self.registers.lemma_wf();
            use_type_invariant(&self.memory);
        }
        let advanced: u16 = ((self.registers.ip() as u64 + inst.size as u64) % 0x1_0000) as u16;
        self.registers.set_ip(advanced);
        let completion = match inst.op {
            Operation::Mov => self.execute_mov(inst),
            Operation::Add | Operation::Sub | Operation::Compare => if inst.wide {
                self.execute_arithmetic(inst)
            } else {
                self.execute_u8_arithmetic(inst)
            },
            Operation::Jne => self.cnd_jmp(inst, ZERO_FLAG, false),
            Operation::Je => self.cnd_jmp(inst, ZERO_FLAG, true),
            Operation::Jnp => self.cnd_jmp(inst, PARITY_FLAG, false),
            Operation::Jp => self.cnd_jmp(inst, PARITY_FLAG, true),
            Operation::Jnb => self.cnd_jmp(inst, OVERFLOW_FLAG, false),
            Operation::Jb => self.cnd_jmp(inst, OVERFLOW_FLAG, true),
            Operation::Loopnz => self.cx_loop(inst, false),
            Operation::Loopz => self.cx_loop(inst, true),
            Operation::Other(_) => Err(Fault::Unimplemented),
        };
        match completion {
            Ok(()) => Ok(self.registers.ip()),
            Err(fault) => Err(fault),
        }
    }

    /// Executes a move.
    pub fn execute_mov(&mut self, inst: &Instruction) -> (completion: Result<(), Fault>)
        ensures
            final(self)@ == old(self)@.mov(*inst).state,
            completion == old(self)@.mov(*inst).completion(),
            final(self)@.wf(),
    {
        proof {
            self.registers.lemma_wf();
            use_type_invariant(&self.memory);
        }
        let place = self.destination(inst)?;
        let value = self.source(inst)?;
        self.store(place, inst.wide, value);
        Ok(())
    }

    /// Executes a word-width addition, subtraction or comparison.
    pub fn execute_arithmetic(&mut self, inst: &Instruction) -> (completion: Result<(), Fault>)
        ensures
            final(self)@ == old(self)@.arithmetic(*inst, true).state,
            completion == old(self)@.arithmetic(*inst, true).completion(),
            final(self)@.wf(),
    {
        proof {
            self.registers.lemma_wf();
            use_type_invariant(&self.memory);
        }
        let place = self.destination(inst)?;
        let value = self.arithmetic_source(inst, true)?;
        let current = self.load(place, true);
        let alu = match accumulate(inst.op, current, value) {
            Some(alu) => alu,
            None => {
                return Err(Fault::Unimplemented);
            },
        };
        proof {
            lemma_accumulator(exact_result(inst.op, current, value).unwrap(), true);
        }
        let result = result_word(alu);
        let flags = self.registers.flags();
        match inst.op {
            Operation::Compare => {},
            _ => {
                self.store(place, true, result);
            },
        }
        let flags = set_zero_flag(flags, result as u32);
        let flags = set_signed_flag(flags, alu);
        let flags = set_overflow_flag(flags, alu);
        let flags = set_parity_flag(flags, alu);
        self.registers.set_flags(flags);
        Ok(())
    }

    /// Executes a byte-width addition, subtraction or comparison.
    pub fn execute_u8_arithmetic(&mut self, inst: &Instruction) -> (completion: Result<
        (),
        Fault,
    >)
        ensures
            final(self)@ == old(self)@.arithmetic(*inst, false).state,
            completion == old(self)@.arithmetic(*inst, false).completion(),
            final(self)@.wf(),
    {
        proof {
            self.registers.lemma_wf();
            use_type_invariant(&self.memory);
        }
        let place = self.destination(inst)?;
        let value = self.arithmetic_source(inst, false)?;
        let current = self.load(place, false);
        let alu = match accumulate(inst.op, current, value) {
            Some(alu) => alu,
            None => {
                return Err(Fault::Unimplemented);
            },
        };
        proof {
            lemma_accumulator(exact_result(inst.op, current, value).unwrap(), false);
        }
        let result = result_byte(alu);
        let flags = self.registers.flags();
        match inst.op {
            Operation::Compare => {},
            _ => {
                self.store(place, false, result as u16);
            },
        }
        let flags = set_zero_flag(flags, result as u32);
        let flags = set_signed_flag_u8(flags, alu);
        let flags = set_overflow_flag_u8(flags, alu);
        let flags = set_parity_flag(flags, alu);
        self.registers.set_flags(flags);
        Ok(())
    }

    /// Computes the offset of a memory operand and checks that the word there
    /// lies within memory.
    pub fn address(&self, base: Option<u32>, displacement: i32) -> (offset: Result<usize, Fault>)
        ensures
            offset == self@.address(base, displacement),
            offset matches Ok(found) ==> valid_place(Place::Memory { offset: found }),
    {
        let start: i64 = match base {
            Some(index) => self.registers.read_word(index)? as i64,
            None => 0,
        };
        let target: i64 = start + displacement as i64;
        if 0 <= target && target < MEM_LEN as i64 - 1 {
            Ok(target as usize)
        } else {
            Err(Fault::MemoryOutOfBounds)
        }
    }

    /// Finds the place that `operand` names, or faults if it names none that
    /// exists.
    pub fn resolve(&self, operand: &Operand) -> (place: Result<Place, Fault>)
        ensures
            place == self@.resolve(*operand),
            place matches Ok(found) ==> valid_place(found),
    {
        match *operand {
            Operand::Register { index, half } => {
                if 1 <= index && index as usize <= REG_LEN + BIU_LEN {
                    Ok(Place::Register { index, half })
                } else {
                    Err(Fault::RegisterOutOfRange)
                }
            },
            Operand::Memory { base, displacement } => match self.address(base, displacement) {
                Ok(offset) => Ok(Place::Memory { offset }),
                Err(fault) => Err(fault),
            },
            Operand::Immediate { .. } => Err(Fault::IllegalOperand),
        }
    }

    /// Finds the place that the first operand of `inst` names.
    pub fn destination(&self, inst: &Instruction) -> (place: Result<Place, Fault>)
        ensures
            place == self@.destination(*inst),
            place matches Ok(found) ==> valid_place(found),
    {
        match inst.operand_at(0) {
            Some(operand) => self.resolve(&operand),
            None => Err(Fault::IllegalOperand),
        }
    }

    /// Reads `place` at the given width.
    pub fn load(&self, place: Place, wide: bool) -> (value: u16)
        requires
            valid_place(place),
        ensures
            value == self@.load(place, wide),
            !wide ==> value < 0x100,
    {
        match place {
            Place::Register { index, half } => {
                let word = self.registers.word(index);
                if wide {
                    word
                } else {
                    select_byte(word, half) as u16
                }
            },
            Place::Memory { offset } => {
                if wide {
                    self.memory.word(offset)
                } else {
                    self.memory.byte(offset) as u16
                }
            },
        }
    }

    /// Writes `value` to `place` at the given width. A byte-width write
    /// stores the low byte of `value` and leaves the neighbouring byte as it
    /// was.
    pub fn store(&mut self, place: Place, wide: bool, value: u16)
        requires
            valid_place(place),
        ensures
            final(self)@ == old(self)@.store(place, wide, value),
            final(self)@.wf(),
    {
        proof {
            self.registers.lemma_wf();
            use_type_invariant(&self.memory);
        }
        match place {
            Place::Register { index, half } => {
                if wide {
                    self.registers.set_word(index, value);
                } else {
                    let word = self.registers.word(index);
                    let byte = select_byte(value, Half::Low);
                    self.registers.set_word(index, replace_byte(word, half, byte));
                }
            },
            Place::Memory { offset } => {
                if wide {
                    self.memory.set_word(offset, value);
                } else {
                    self.memory.set_byte(offset, select_byte(value, Half::Low));
                }
            },
        }
        proof {
            use_type_invariant(&self.memory);
        }
    }

    /// Reads the value that `operand` supplies at the given width.
    pub fn value_of(&self, operand: &Operand, wide: bool) -> (value: Result<u16, Fault>)
        ensures
            value == self@.value_of(*operand, wide),
            !wide ==> (value matches Ok(read) ==> read < 0x100),
    {
        match *operand {
            Operand::Immediate { value } => Ok(immediate_value(value, wide)),
            _ => match self.resolve(operand) {
                Ok(place) => Ok(self.load(place, wide)),
                Err(fault) => Err(fault),
            },
        }
    }

    /// Reads the value that the second operand of `inst` supplies to a move.
    pub fn source(&self, inst: &Instruction) -> (value: Result<u16, Fault>)
        ensures
            value == self@.source(*inst),
    {
        match inst.operand_at(1) {
            Some(operand) => self.value_of(&operand, inst.wide),
            None => Err(Fault::IllegalOperand),
        }
    }

    /// Reads the value that the second operand of `inst` supplies to
    /// arithmetic, which takes a register or an immediate.
    pub fn arithmetic_source(&self, inst: &Instruction, wide: bool) -> (value: Result<u16, Fault>)
        ensures
            value == self@.arithmetic_source(*inst, wide),
            !wide ==> (value matches Ok(read) ==> read < 0x100),
    {
        match inst.operand_at(1) {
            Some(Operand::Memory { .. }) | None => Err(Fault::IllegalOperand),
            Some(operand) => self.value_of(&operand, wide),
        }
    }

    /// Executes a conditional jump on the flag under `flag`: branches if and
    /// only if the flag is in the state `exp`.
    pub fn cnd_jmp(&mut self, jmp: &Instruction, flag: u16, exp: bool) -> (completion: Result<
        (),
        Fault,
    >)
        ensures
            final(self)@ == old(self)@.conditional_jump(*jmp, flag, exp).state,
            completion == old(self)@.conditional_jump(*jmp, flag, exp).completion(),
            final(self)@.wf(),
    {
        proof {
            self.registers.lemma_wf();
            use_type_invariant(&self.memory);
        }
        if test_flag(self.registers.flags(), flag) == exp {
            self.set_ip_to_jmp(jmp)
        } else {
            Ok(())
        }
    }

    /// Applies the displacement of a branch to the instruction pointer.
    pub fn set_ip_to_jmp(&mut self, jmp: &Instruction) -> (completion: Result<(), Fault>)
        ensures
            final(self)@ == old(self)@.branch(*jmp).state,
            completion == old(self)@.branch(*jmp).completion(),
            final(self)@.wf(),
    {
        proof {
            self.registers.lemma_wf();
            use_type_invariant(&self.memory);
        }
        match jmp.operand_at(0) {
            Some(Operand::Immediate { value }) => match jump_target(self.registers.ip(), value) {
                Ok(target) => {
                    self.registers.set_ip(target);
                    Ok(())
                },
                Err(fault) => Err(fault),
            },
            _ => Err(Fault::IllegalOperand),
        }
    }

    /// Executes a loop instruction: counts the counter register down, then
    /// branches if and only if the counter is not zero and the zero flag is in
    /// the state `exp`.
    pub fn cx_loop(&mut self, jmp: &Instruction, exp: bool) -> (completion: Result<(), Fault>)
        ensures
            final(self)@ == old(self)@.counted_loop(*jmp, exp).state,
            completion == old(self)@.counted_loop(*jmp, exp).completion(),
            final(self)@.wf(),
    {
        proof {
            self.registers.lemma_wf();
            use_type_invariant(&self.memory);
        }
        let counter = self.registers.word(COUNTER_INDEX).wrapping_sub(1);
        self.registers.set_word(COUNTER_INDEX, counter);
        if test_flag(self.registers.flags(), ZERO_FLAG) == exp && counter != 0 {
            self.set_ip_to_jmp(jmp)
        } else {
            Ok(())
        }
    }
}

} // verus!
