//! The calling convention descriptor: which registers carry which arguments,
//! where stack arguments sit relative to the frame pointer, and which
//! container format the target wants.

use vstd::prelude::*;

use crate::operand::MemoryOperand;
use crate::operand::Register;

pub mod linux;
pub mod windows;

verus! {

/// The binary container format of a target.
#[derive(Clone, Copy, Debug, PartialEq, Eq, Structural)]
pub enum BinFormat {
    Elf,
    Coff,
    Macho,
}

/// The target calling convention.
#[derive(Debug)]
pub struct Abi {
    /// How many leading arguments travel in registers.
    pub reg_args: usize,
    /// The 64-bit argument registers, in argument order.
    pub regs_64: Vec<Register>,
    /// The 32-bit argument registers; entry `n` names the same logical slot as
    /// `regs_64[n]` at the narrower width.
    pub regs_32: Vec<Register>,
    /// The register that carries the return value.
    pub return_reg: Register,
    /// Frame-pointer displacement bias of stack passed arguments; accounts for
    /// the saved return address and frame pointer.
    pub stack_base: i64,
    /// The container format the target wants.
    pub bin: BinFormat,
}

/// A well formed calling convention names one 64-bit and one 32-bit register
/// for each register passed argument slot.
pub open spec fn spec_abi_wf(abi: Abi) -> bool {
    &&& abi.regs_64@.len() == abi.reg_args
    &&& abi.regs_32@.len() == abi.reg_args
}

/// The 64-bit register of argument slot `nr`, or none when out of range.
pub open spec fn spec_arg64(abi: Abi, nr: usize) -> Register {
    if abi.reg_args >= nr && nr < abi.regs_64@.len() {
        abi.regs_64@[nr as int]
    } else {
        Register::NoReg
    }
}

/// The 32-bit register of argument slot `nr`, or none when out of range.
pub open spec fn spec_arg32(abi: Abi, nr: usize) -> Register {
    if abi.reg_args >= nr && nr < abi.regs_32@.len() {
        abi.regs_32@[nr as int]
    } else {
        Register::NoReg
    }
}

/// The frame relative operand of stack position `pos`: positive positions are
/// biased by `stack_base`, negative ones are used as they are.
pub open spec fn spec_stack_operand(abi: Abi, pos: i64) -> MemoryOperand {
    MemoryOperand {
        base: Register::RBP,
        index: Register::NoReg,
        scale: 1,
        displacement: if pos > 0 {
            (pos + abi.stack_base) as i64
        } else {
            pos
        },
        displ_size: 1,
        rip_relative: false,
    }
}

/// The absolute memory operand of address `adr`.
pub open spec fn spec_mem_operand(adr: i64) -> MemoryOperand {
    MemoryOperand {
        base: Register::NoReg,
        index: Register::NoReg,
        scale: 1,
        displacement: adr,
        displ_size: 1,
        rip_relative: false,
    }
}

/// Component wise equality of two calling conventions.
pub open spec fn spec_abi_matches(a: Abi, b: Abi) -> bool {
    &&& a.reg_args == b.reg_args
    &&& a.regs_64@ == b.regs_64@
    &&& a.regs_32@ == b.regs_32@
    &&& a.return_reg == b.return_reg
    &&& a.stack_base == b.stack_base
    &&& a.bin == b.bin
}

impl Abi {
    /// Returns how many arguments are passed in registers.
    pub fn reg_args(&self) -> (r: usize)
        ensures
            r == self.reg_args,
    {
        self.reg_args
    }

    /// Returns the 64-bit register in which argument `nr` is stored, or
    /// [`Register::NoReg`] when the slot is not register passed.
    pub fn arg64(&self, nr: usize) -> (r: Register)
        ensures
            r == spec_arg64(*self, nr),
    {
        if self.reg_args >= nr {
            if nr < self.regs_64.len() {
                self.regs_64[nr]
            } else {
                Register::NoReg
            }
        } else {
            Register::NoReg
        }
    }

    /// Returns the 32-bit register in which argument `nr` is stored, or
    /// [`Register::NoReg`] when the slot is not register passed.
    pub fn arg32(&self, nr: usize) -> (r: Register)
        ensures
            r == spec_arg32(*self, nr),
    {
        if self.reg_args >= nr {
            if nr < self.regs_32.len() {
                self.regs_32[nr]
            } else {
                Register::NoReg
            }
        } else {
            Register::NoReg
        }
    }

    /// Returns the frame relative memory operand of stack position `pos`
    /// (`rbp + pos`, biased by `stack_base` for positive positions).
    pub fn stack(&self, pos: i64) -> (r: MemoryOperand)
        requires
            pos > 0 ==> pos + self.stack_base <= i64::MAX && i64::MIN <= pos + self.stack_base,
        ensures
            r == spec_stack_operand(*self, pos),
    {
        let displ: i64 = if pos > 0 {
            pos + self.stack_base
        } else {
            pos
        };
        MemoryOperand::new(Register::RBP, Register::NoReg, 1, displ, 1, false)
    }

    /// Returns the absolute memory operand of address `adr`.
    pub fn mem(&self, adr: i64) -> (r: MemoryOperand)
        ensures
            r == spec_mem_operand(adr),
    {
        MemoryOperand::new(Register::NoReg, Register::NoReg, 1, adr, 1, false)
    }

    /// Returns the container format of the target.
    pub fn binary_format(&self) -> (r: BinFormat)
        ensures
            r == self.bin,
    {
        self.bin
    }

    /// Returns the register in which the return value is stored.
    pub fn ret_reg(&self) -> (r: Register)
        ensures
            r == self.return_reg,
    {
        self.return_reg
    }
}

impl Clone for Abi {
    /// The copy agrees with the original in every component.
    fn clone(&self) -> (r: Self)
        ensures
            spec_abi_matches(r, *self),
    {
        let mut regs_64: Vec<Register> = Vec::new();
        let mut i: usize = 0;
        while i < self.regs_64.len()
            invariant
                i <= self.regs_64.len(),
                regs_64@ =~= self.regs_64@.subrange(0, i as int),
            decreases self.regs_64.len() - i,
        {
            regs_64.push(self.regs_64[i]);
            i += 1;
        }
        let mut regs_32: Vec<Register> = Vec::new();
        let mut j: usize = 0;
        while j < self.regs_32.len()
            invariant
                j <= self.regs_32.len(),
                regs_32@ =~= self.regs_32@.subrange(0, j as int),
            decreases self.regs_32.len() - j,
        {
            regs_32.push(self.regs_32[j]);
            j += 1;
        }
        proof {
            assert(regs_64@ =~= self.regs_64@);
            assert(regs_32@ =~= self.regs_32@);
        }
        Abi {
            reg_args: self.reg_args,
            regs_64,
            regs_32,
            return_reg: self.return_reg,
            stack_base: self.stack_base,
            bin: self.bin,
        }
    }
}

} // verus!
