//! The status-flag word: one bit per flag, at fixed positions.

use vstd::prelude::*;

verus! {

/// Set when the low byte of a result has an even number of one bits.
pub const PARITY_FLAG: u16 = 0x0004;

/// Set when a result is zero.
pub const ZERO_FLAG: u16 = 0x0040;

/// Set when the top bit of a result is one.
pub const SIGNED_FLAG: u16 = 0x0080;

/// Set when a result does not fit the width of the operation.
pub const OVERFLOW_FLAG: u16 = 0x0800;

/// All four flags that arithmetic derives.
pub const ARITHMETIC_FLAGS: u16 = 0x08c4;

/// Whether any bit of `mask` is set in `flags`.
pub open spec fn has_flag(flags: u16, mask: u16) -> bool {
    flags & mask != 0
}

/// `flags` with the bits of `mask` all set (`on`) or all cleared.
pub open spec fn with_flag(flags: u16, mask: u16, on: bool) -> u16 {
    if on {
        flags | mask
    } else {
        flags & !mask
    }
}

/// Writing a flag makes it read back as written, keeps every bit outside its
/// mask, and so keeps every other flag.
pub proof fn lemma_with_flag(flags: u16, mask: u16, on: bool, other: u16)
    requires
        mask != 0,
    ensures
        has_flag(with_flag(flags, mask, on), mask) == on,
        with_flag(flags, mask, on) & !mask == flags & !mask,
        other & mask == 0 ==> has_flag(with_flag(flags, mask, on), other) == has_flag(
            flags,
            other,
        ),
{
    assert(mask != 0 ==> (flags | mask) & mask != 0) by (bit_vector);
    assert((flags & !mask) & mask == 0) by (bit_vector);
    assert((flags | mask) & !mask == flags & !mask) by (bit_vector);
    assert((flags & !mask) & !mask == flags & !mask) by (bit_vector);
    assert(other & mask == 0 ==> (flags | mask) & other == flags & other) by (bit_vector);
    assert(other & mask == 0 ==> (flags & !mask) & other == flags & other) by (bit_vector);
}

/// Reads the flag that `mask` names.
pub fn test_flag(flags: u16, mask: u16) -> (set: bool)
    ensures
        set == has_flag(flags, mask),
{
    flags & mask > 0
}

/// Sets or clears the flag that `mask` names; every other bit is preserved.
pub fn set_flag(flags: u16, mask: u16, on: bool) -> (updated: u16)
    ensures
        updated == with_flag(flags, mask, on),
        updated & !mask == flags & !mask,
        mask != 0 ==> has_flag(updated, mask) == on,
{
    proof {
        assert(flags & ((0xffffu16 - mask) as u16) == flags & !mask) by (bit_vector);
        if mask != 0 {
            lemma_with_flag(flags, mask, on, mask);
        } else {
            assert(flags | 0 == flags && flags & !0u16 == flags) by (bit_vector);
        }
    }
    if on {
        flags | mask
    } else {
        flags & (u16::MAX - mask)
    }
}

} // verus!
