//! The register file: eight general word registers, the flags word, and a
//! secondary bank that holds the instruction pointer.

use vstd::prelude::*;
use crate::instruction::Fault;
use crate::word::{byte_of, replace_byte, select_byte, with_byte, Half};

verus! {

/// Number of general registers, which have the indices 1 to 8.
pub const REG_LEN: usize = 8;

/// Number of slots in the secondary bank, which have the indices 9 to 13.
pub const BIU_LEN: usize = 5;

/// The slot of the secondary bank that holds the instruction pointer.
pub const IP_SLOT: usize = 4;

/// Register index of the instruction pointer.
pub const IP_INDEX: u32 = 13;

/// Register index of the counter that the loop instructions decrement.
pub const COUNTER_INDEX: u32 = 3;

/// What a register file holds.
pub struct RegisterState {
    /// The general registers; index `i` is at position `i - 1`.
    pub general: Seq<u16>,
    /// The flags word.
    pub flags: u16,
    /// The secondary bank; index `i` is at position `i - 9`.
    pub biu: Seq<u16>,
}

/// Whether `index` names a register.
pub open spec fn valid_index(index: u32) -> bool {
    1 <= index <= REG_LEN + BIU_LEN
}

impl RegisterState {
    /// Both banks have their fixed sizes.
    pub open spec fn wf(self) -> bool {
        self.general.len() == REG_LEN && self.biu.len() == BIU_LEN
    }

    /// The word in register `index`.
    pub open spec fn word(self, index: u32) -> u16
        recommends
            valid_index(index),
    {
        if index <= REG_LEN {
            self.general[index - 1]
        } else {
            self.biu[index - REG_LEN - 1]
        }
    }

    /// The state with `value` in register `index`.
    pub open spec fn with_word(self, index: u32, value: u16) -> RegisterState
        recommends
            valid_index(index),
    {
        if index <= REG_LEN {
            RegisterState { general: self.general.update(index - 1, value), ..self }
        } else {
            RegisterState { biu: self.biu.update(index - REG_LEN - 1, value), ..self }
        }
    }

    /// The byte of register `index` that `half` selects.
    pub open spec fn half(self, index: u32, half: Half) -> u8
        recommends
            valid_index(index),
    {
        byte_of(self.word(index), half)
    }

    /// The state with `byte` in the selected half of register `index`.
    pub open spec fn with_half(self, index: u32, half: Half, byte: u8) -> RegisterState
        recommends
            valid_index(index),
    {
        self.with_word(index, with_byte(self.word(index), half, byte))
    }

    /// The instruction pointer.
    pub open spec fn ip(self) -> u16 {
        self.biu[IP_SLOT as int]
    }

    /// The state with the instruction pointer at `value`.
    pub open spec fn with_ip(self, value: u16) -> RegisterState {
        RegisterState { biu: self.biu.update(IP_SLOT as int, value), ..self }
    }

    /// The state with the flags word replaced.
    pub open spec fn with_flags(self, flags: u16) -> RegisterState {
        RegisterState { flags, ..self }
    }
}

/// The registers of the machine.
pub struct RegisterFile {
    arr: [u16; 8],
    flags: u16,
    biu: [u16; 5],
}

impl View for RegisterFile {
    type V = RegisterState;

    closed spec fn view(&self) -> RegisterState {
        RegisterState { general: self.arr@, flags: self.flags, biu: self.biu@ }
    }
}

impl RegisterFile {
    /// Every register file has both banks at their fixed sizes.
    pub proof fn lemma_wf(&self)
        ensures
            self@.wf(),
    {
    }

    /// A register file with every register and the flags word at zero.
    pub fn new() -> (registers: Self)
        ensures
            registers@.wf(),
            registers@.flags == 0,
            forall|i: int| 0 <= i < REG_LEN ==> registers@.general[i] == 0,
            forall|i: int| 0 <= i < BIU_LEN ==> registers@.biu[i] == 0,
    {
        RegisterFile { arr: [0u16; 8], flags: 0, biu: [0u16; 5] }
    }

    /// The word in register `index`.
    pub fn word(&self, index: u32) -> (value: u16)
        requires
            valid_index(index),
        ensures
            value == self@.word(index),
    {
        if index as usize <= REG_LEN {
            self.arr[index as usize - 1]
        } else {
            self.biu[index as usize - REG_LEN - 1]
        }
    }

    /// Puts `value` in register `index`.
    pub fn set_word(&mut self, index: u32, value: u16)
        requires
            valid_index(index),
        ensures
            final(self)@ == old(self)@.with_word(index, value),
            final(self)@.wf(),
    {
        if index as usize <= REG_LEN {
            self.arr[index as usize - 1] = value;
        } else {
            self.biu[index as usize - REG_LEN - 1] = value;
        }
    }

    /// Reads register `index`, or faults if there is no such register.
    pub fn read_word(&self, index: u32) -> (read: Result<u16, Fault>)
        ensures
            read == if valid_index(index) {
                Ok::<u16, Fault>(self@.word(index))
            } else {
                Err(Fault::RegisterOutOfRange)
            },
    {
        if 1 <= index && index as usize <= REG_LEN + BIU_LEN {
            Ok(self.word(index))
        } else {
            Err(Fault::RegisterOutOfRange)
        }
    }

    /// Writes register `index`, or faults and changes nothing if there is no
    /// such register.
    pub fn write_word(&mut self, index: u32, value: u16) -> (written: Result<(), Fault>)
        ensures
            final(self)@.wf(),
            valid_index(index) ==> written == Ok::<(), Fault>(()) && final(self)@ == old(
                self,
            )@.with_word(index, value),
            !valid_index(index) ==> written == Err::<(), Fault>(Fault::RegisterOutOfRange)
                && final(self)@ == old(self)@,
    {
        if 1 <= index && index as usize <= REG_LEN + BIU_LEN {
            self.set_word(index, value);
            Ok(())
        } else {
            Err(Fault::RegisterOutOfRange)
        }
    }

    /// Reads the selected half of register `index`, or faults if there is no
    /// such register.
    pub fn read_half(&self, index: u32, half: Half) -> (read: Result<u8, Fault>)
        ensures
            read == if valid_index(index) {
                Ok::<u8, Fault>(self@.half(index, half))
            } else {
                Err(Fault::RegisterOutOfRange)
            },
    {
        if 1 <= index && index as usize <= REG_LEN + BIU_LEN {
            Ok(select_byte(self.word(index), half))
        } else {
            Err(Fault::RegisterOutOfRange)
        }
    }

    /// Writes the selected half of register `index` and leaves its other half
    /// as it was, or faults and changes nothing if there is no such register.
    pub fn write_half(&mut self, index: u32, half: Half, byte: u8) -> (written: Result<
        (),
        Fault,
    >)
        ensures
            final(self)@.wf(),
            valid_index(index) ==> written == Ok::<(), Fault>(()) && final(self)@ == old(
                self,
            )@.with_half(index, half, byte) && final(self)@.half(index, half) == byte
                && final(self)@.half(index, half.other()) == old(self)@.half(
                index,
                half.other(),
            ),
            !valid_index(index) ==> written == Err::<(), Fault>(Fault::RegisterOutOfRange)
                && final(self)@ == old(self)@,
    {
        if 1 <= index && index as usize <= REG_LEN + BIU_LEN {
            let replaced = replace_byte(self.word(index), half, byte);
            self.set_word(index, replaced);
            Ok(())
        } else {
            Err(Fault::RegisterOutOfRange)
        }
    }

    /// The flags word.
    pub fn flags(&self) -> (flags: u16)
        ensures
            flags == self@.flags,
    {
        self.flags
    }

    /// Replaces the flags word.
    pub fn set_flags(&mut self, flags: u16)
        ensures
            final(self)@ == old(self)@.with_flags(flags),
            final(self)@.wf(),
    {
        self.flags = flags;
    }

    /// The instruction pointer.
    pub fn ip(&self) -> (pointer: u16)
        ensures
            pointer == self@.ip(),
    {
        self.biu[IP_SLOT]
    }

    /// Moves the instruction pointer to `pointer`.
    pub fn set_ip(&mut self, pointer: u16)
        ensures
            final(self)@ == old(self)@.with_ip(pointer),
            final(self)@.wf(),
    {
        self.biu[IP_SLOT] = pointer;
    }
}

} // verus!
