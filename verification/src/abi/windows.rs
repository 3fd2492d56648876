//! The Windows x64 calling convention.

use vstd::prelude::*;

use crate::abi::Abi;
use crate::abi::BinFormat;
use crate::abi::spec_abi_wf;
use crate::operand::Register;

verus! {

/// Gives a type the Windows x64 calling convention constructor.
pub trait WindowsAbi {
    /// Returns a descriptor with the Windows calling convention values.
    fn windows() -> Self where Self: Sized;
}

impl WindowsAbi for Abi {
    fn windows() -> (r: Self)
        ensures
            r.reg_args == 4,
            r.regs_64@ =~= seq![Register::RCX, Register::RDX, Register::R8, Register::R9],
            r.regs_32@ =~= seq![Register::ECX, Register::EDX, Register::R8D, Register::R9D],
            r.return_reg == Register::RAX,
            r.stack_base == 8,
            r.bin == BinFormat::Coff,
            spec_abi_wf(r),
    {
        Abi {
            reg_args: 4,
            regs_64: vec![Register::RCX, Register::RDX, Register::R8, Register::R9],
            regs_32: vec![Register::ECX, Register::EDX, Register::R8D, Register::R9D],
            return_reg: Register::RAX,
            stack_base: 8,
            bin: BinFormat::Coff,
        }
    }
}

} // verus!
