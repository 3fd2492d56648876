//! Helpers for frame and memory operands of the instruction representation.

use vstd::prelude::*;

pub use crate::ir::AsmInstructionEnum;

use crate::operand::MemoryOperand;
use crate::operand::Register;

verus! {

/// A plain data type of a stored value.
pub enum DataTyp {
    Int32,
    Int64,
    Custom(i64),
}

/// Returns the absolute memory operand of the given address.
pub fn adr(adress: i64) -> (r: MemoryOperand)
    ensures
        r == (MemoryOperand {
            base: Register::NoReg,
            index: Register::NoReg,
            scale: 1,
            displacement: adress,
            displ_size: 1,
            rip_relative: false,
        }),
{
    MemoryOperand::new(Register::NoReg, Register::NoReg, 1, adress, 1, false)
}

/// Returns the frame operand of argument `nr` with the given own and summed
/// earlier sizes.
pub fn arg(nr: i64, size: i64, prev_size: i64) -> (r: MemoryOperand)
    requires
        0 <= nr,
        0 <= size,
        0 <= prev_size,
        nr + size + prev_size + 4 <= i64::MAX,
    ensures
        r == (MemoryOperand {
            base: Register::RBP,
            index: Register::NoReg,
            scale: 1,
            displacement: (nr + size + prev_size + 4 - 1) as i64,
            displ_size: 1,
            rip_relative: false,
        }),
{
    stack(nr + size + prev_size + 4 - 1)
}

/// Returns the frame operand of a variable with the given summed earlier
/// sizes.
pub fn var(prev_size: i64) -> (r: MemoryOperand)
    requires
        0 <= prev_size,
        prev_size + 4 <= i64::MAX,
    ensures
        r == (MemoryOperand {
            base: Register::RBP,
            index: Register::NoReg,
            scale: 1,
            displacement: (0 - (prev_size + 4)) as i64,
            displ_size: 1,
            rip_relative: false,
        }),
{
    let displ = prev_size + 4;
    stack(0 - displ)
}

/// Returns the frame operand of stack position `pos` (`rbp + pos`).
pub fn stack(pos: i64) -> (r: MemoryOperand)
    ensures
        r == (MemoryOperand {
            base: Register::RBP,
            index: Register::NoReg,
            scale: 1,
            displacement: pos,
            displ_size: 1,
            rip_relative: false,
        }),
{
    MemoryOperand::new(Register::RBP, Register::NoReg, 1, pos, 1, false)
}

} // verus!
