//! Where a branch lands.

use vstd::prelude::*;
use crate::flags::{ZERO_FLAG, PARITY_FLAG, OVERFLOW_FLAG};
use crate::instruction::{Fault, Operation};

verus! {

/// The instruction pointer after a branch by `displacement` from `pointer`.
/// A forward branch wraps around at 16 bits as the pointer itself does; a
/// backward branch to before address 0 is a fault.
pub open spec fn branch_target(pointer: u16, displacement: i32) -> Result<u16, Fault> {
    if displacement > 0 {
        Ok(((pointer + displacement) % 0x1_0000) as u16)
    } else if -displacement > pointer {
        Err(Fault::BranchUnderflow)
    } else {
        Ok((pointer + displacement) as u16)
    }
}

/// The flag that a conditional jump tests and the state in which it branches,
/// or `None` if `op` is no conditional jump.
pub open spec fn jump_condition(op: Operation) -> Option<(u16, bool)> {
    match op {
        Operation::Je => Some((ZERO_FLAG, true)),
        Operation::Jne => Some((ZERO_FLAG, false)),
        Operation::Jp => Some((PARITY_FLAG, true)),
        Operation::Jnp => Some((PARITY_FLAG, false)),
        Operation::Jb => Some((OVERFLOW_FLAG, true)),
        Operation::Jnb => Some((OVERFLOW_FLAG, false)),
        _ => None,
    }
}

/// The state of the zero flag in which a loop instruction branches, or `None`
/// if `op` is no loop instruction.
pub open spec fn loop_condition(op: Operation) -> Option<bool> {
    match op {
        Operation::Loopz => Some(true),
        Operation::Loopnz => Some(false),
        _ => None,
    }
}

/// Computes where a branch by `displacement` from `pointer` lands.
pub fn jump_target(pointer: u16, displacement: i32) -> (target: Result<u16, Fault>)
    ensures
        target == branch_target(pointer, displacement),
{
    let from: i64 = pointer as i64;
    let by: i64 = displacement as i64;
    if by > 0 {
        Ok(((from + by) % 0x1_0000) as u16)
    } else if -by > from {
        Err(Fault::BranchUnderflow)
    } else {
        Ok((from + by) as u16)
    }
}

} // verus!
