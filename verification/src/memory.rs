//! The flat memory of the machine. A word occupies two adjacent bytes, the
//! low byte first.

use vstd::prelude::*;
use crate::instruction::Fault;
use crate::word::{byte_of, select_byte, Half};

verus! {

/// Number of bytes in memory.
pub const MEM_LEN: usize = 65535;

/// Whether a word at `offset` lies within memory: both of its bytes do.
pub open spec fn holds_word(offset: int) -> bool {
    0 <= offset && offset + 1 < MEM_LEN
}

/// The word whose low byte is at `offset`.
pub open spec fn word_at(bytes: Seq<u8>, offset: int) -> u16
    recommends
        0 <= offset,
        offset + 1 < bytes.len(),
{
    (bytes[offset + 1] * 256 + bytes[offset]) as u16
}

/// `bytes` with the word `value` stored at `offset`.
pub open spec fn with_word_at(bytes: Seq<u8>, offset: int, value: u16) -> Seq<u8>
    recommends
        0 <= offset,
        offset + 1 < bytes.len(),
{
    bytes.update(offset, byte_of(value, Half::Low)).update(offset + 1, byte_of(value, Half::High))
}

/// A stored word reads back, and storing it touches its two bytes alone.
pub proof fn lemma_word_round_trip(bytes: Seq<u8>, offset: int, value: u16)
    requires
        0 <= offset,
        offset + 1 < bytes.len(),
    ensures
        word_at(with_word_at(bytes, offset, value), offset) == value,
        with_word_at(bytes, offset, value).len() == bytes.len(),
        forall|i: int|
            0 <= i < bytes.len() && i != offset && i != offset + 1 ==> with_word_at(
                bytes,
                offset,
                value,
            )[i] == bytes[i],
{
}

/// The memory of the machine.
pub struct Memory {
    bytes: Vec<u8>,
}

impl View for Memory {
    type V = Seq<u8>;

    closed spec fn view(&self) -> Seq<u8> {
        self.bytes@
    }
}

impl Memory {
    /// Memory never changes its size.
    #[verifier::type_invariant]
    pub open spec fn sized(self) -> bool {
        self@.len() == MEM_LEN
    }

    /// A memory of zero bytes.
    pub fn new() -> (memory: Self)
        ensures
            memory@.len() == MEM_LEN,
            forall|i: int| 0 <= i < MEM_LEN ==> memory@[i] == 0,
    {
        Memory { bytes: vec![0u8; MEM_LEN] }
    }

    /// The byte at `offset`.
    pub fn byte(&self, offset: usize) -> (value: u8)
        requires
            offset < MEM_LEN,
        ensures
            value == self@[offset as int],
    {
        proof {
            use_type_invariant(self);
        }
        self.bytes[offset]
    }

    /// Stores `value` at `offset`.
    pub fn set_byte(&mut self, offset: usize, value: u8)
        requires
            offset < MEM_LEN,
        ensures
            final(self)@ == old(self)@.update(offset as int, value),
    {
        proof {
            use_type_invariant(&*self);
        }
        self.bytes[offset] = value;
    }

    /// The word at `offset`.
    pub fn word(&self, offset: usize) -> (value: u16)
        requires
            holds_word(offset as int),
        ensures
            value == word_at(self@, offset as int),
    {
        let low = self.byte(offset);
        let high = self.byte(offset + 1);
        let shifted: u16 = high as u16;
        assert((shifted << 8) | (low as u16) == shifted * 256 + low) by (bit_vector)
            requires
                shifted < 256,
        ;
        (shifted << 8) | (low as u16)
    }

    /// Stores the word `value` at `offset`.
    pub fn set_word(&mut self, offset: usize, value: u16)
        requires
            holds_word(offset as int),
        ensures
            final(self)@ == with_word_at(old(self)@, offset as int, value),
    {
        self.set_byte(offset, select_byte(value, Half::Low));
        self.set_byte(offset + 1, select_byte(value, Half::High));
    }

    /// Reads the word at `offset`, or faults if it does not lie within memory.
    pub fn read_word(&self, offset: usize) -> (read: Result<u16, Fault>)
        ensures
            read == if holds_word(offset as int) {
                Ok::<u16, Fault>(word_at(self@, offset as int))
            } else {
                Err(Fault::MemoryOutOfBounds)
            },
    {
        if offset < MEM_LEN - 1 {
            Ok(self.word(offset))
        } else {
            Err(Fault::MemoryOutOfBounds)
        }
    }

    /// Stores the word `value` at `offset`, or faults and changes nothing if it
    /// does not lie within memory.
    pub fn write_word(&mut self, offset: usize, value: u16) -> (written: Result<(), Fault>)
        ensures
            holds_word(offset as int) ==> written == Ok::<(), Fault>(()) && final(self)@
                == with_word_at(old(self)@, offset as int, value),
            !holds_word(offset as int) ==> written == Err::<(), Fault>(Fault::MemoryOutOfBounds)
                && final(self)@ == old(self)@,
    {
        if offset < MEM_LEN - 1 {
            self.set_word(offset, value);
            Ok(())
        } else {
            Err(Fault::MemoryOutOfBounds)
        }
    }
}

} // verus!
