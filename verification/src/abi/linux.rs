//! The System-V x86-64 calling convention.

use vstd::prelude::*;

use crate::abi::Abi;
use crate::abi::BinFormat;
use crate::abi::spec_abi_wf;
use crate::operand::Register;

verus! {

/// Gives a type the System-V Linux calling convention constructor.
pub trait LinuxAbi {
    /// Returns a descriptor with the Linux calling convention values.
    fn linux() -> Self where Self: Sized;
}

impl LinuxAbi for Abi {
    fn linux() -> (r: Self)
        ensures
            r.reg_args == 6,
            r.regs_64@ =~= seq![
                Register::RDI,
                Register::RSI,
                Register::RDX,
                Register::RCX,
                Register::R8,
                Register::R9,
            ],
            r.regs_32@ =~= seq![
                Register::EDI,
                Register::ESI,
                Register::EDX,
                Register::ECX,
                Register::R8D,
                Register::R9D,
            ],
            r.return_reg == Register::RAX,
            r.stack_base == 8,
            r.bin == BinFormat::Elf,
            spec_abi_wf(r),
    {
        let r = Abi {
            reg_args: 6,
            regs_64: vec![
                Register::RDI,
                Register::RSI,
                Register::RDX,
                Register::RCX,
                Register::R8,
                Register::R9,
            ],
            regs_32: vec![
                Register::EDI,
                Register::ESI,
                Register::EDX,
                Register::ECX,
                Register::R8D,
                Register::R9D,
            ],
            return_reg: Register::RAX,
            stack_base: 8,
            bin: BinFormat::Elf,
        };
        r
    }
}

} // verus!
