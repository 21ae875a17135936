//! Byte halves of a 16-bit word, and the population count behind the parity
//! flag.

use vstd::prelude::*;

verus! {

/// Selects one byte of a 16-bit word.
#[derive(Clone, Copy, Debug, PartialEq, Eq)]
pub enum Half {
    /// Bits 0 to 7.
    Low,
    /// Bits 8 to 15.
    High,
}

impl Half {
    /// The half that `self` does not select.
    pub open spec fn other(self) -> Half {
        match self {
            Half::Low => Half::High,
            Half::High => Half::Low,
        }
    }
}

/// The byte of `word` that `half` selects.
pub open spec fn byte_of(word: u16, half: Half) -> u8 {
    match half {
        Half::Low => (word % 256) as u8,
        Half::High => (word / 256) as u8,
    }
}

/// `word` with the byte that `half` selects replaced by `byte`.
pub open spec fn with_byte(word: u16, half: Half, byte: u8) -> u16 {
    match half {
        Half::Low => ((word / 256) * 256 + byte) as u16,
        Half::High => (byte * 256 + word % 256) as u16,
    }
}

/// Number of one bits in the binary representation of `value`.
pub open spec fn bit_count(value: nat) -> nat
    decreases value,
{
    if value == 0 {
        0
    } else {
        value % 2 + bit_count(value / 2)
    }
}

/// A number has at most as many one bits as its value.
pub proof fn lemma_bit_count_bounded(value: nat)
    ensures
        bit_count(value) <= value,
    decreases value,
{
    if value != 0 {
        lemma_bit_count_bounded(value / 2);
    }
}

/// A word is made of its two halves, and replacing one half changes that half
/// and no other bit.
pub proof fn lemma_halves(word: u16, half: Half, byte: u8)
    ensures
        byte_of(with_byte(word, half, byte), half) == byte,
        byte_of(with_byte(word, half, byte), half.other()) == byte_of(word, half.other()),
        with_byte(word, half, byte_of(word, half)) == word,
        word == byte_of(word, Half::High) * 256 + byte_of(word, Half::Low),
{
}

/// Reads the byte of `word` that `half` selects.
pub fn select_byte(word: u16, half: Half) -> (byte: u8)
    ensures
        byte == byte_of(word, half),
{
    match half {
        Half::Low => {
            assert(word & 0x00ff == word % 256) by (bit_vector);
            (word & 0x00ff) as u8
        },
        Half::High => {
            assert(word >> 8 == word / 256) by (bit_vector);
            (word >> 8) as u8
        },
    }
}

/// Returns `word` with the byte that `half` selects replaced by `byte`; the
/// other byte is kept.
pub fn replace_byte(word: u16, half: Half, byte: u8) -> (replaced: u16)
    ensures
        replaced == with_byte(word, half, byte),
        byte_of(replaced, half) == byte,
        byte_of(replaced, half.other()) == byte_of(word, half.other()),
{
    let wide: u16 = byte as u16;
    match half {
        Half::Low => {
            assert((word & 0xff00) | wide == (word / 256) * 256 + wide) by (bit_vector)
                requires
                    wide < 256,
            ;
            (word & 0xff00) | wide
        },
        Half::High => {
            assert((wide << 8) | (word & 0x00ff) == wide * 256 + word % 256) by (bit_vector)
                requires
                    wide < 256,
            ;
            (wide << 8) | (word & 0x00ff)
        },
    }
}

/// Counts the one bits of `byte`.
pub fn count_ones(byte: u8) -> (total: u32)
    ensures
        total == bit_count(byte as nat),
{
    let mut rest: u8 = byte;
    let mut total: u32 = 0;
    while rest != 0
        invariant
            total + bit_count(rest as nat) == bit_count(byte as nat),
        decreases rest,
    {
        proof {
            lemma_bit_count_bounded(byte as nat);
        }
        total = total + (rest % 2) as u32;
        rest = rest / 2;
    }
    total
}

} // verus!
