//! The operand model: register names with their width class, and frame or
//! absolute memory operands.

use vstd::prelude::*;

verus! {

/// A named register of the instruction representation.  Equality is by
/// architectural identity; the width is recovered with [`Register::size`].
#[derive(Clone, Copy, Debug, PartialEq, Eq, Structural)]
pub enum Register {
    NoReg,
    // 8 bit
    AL,
    CL,
    DL,
    BL,
    AH,
    CH,
    DH,
    BH,
    // 16 bit
    AX,
    CX,
    DX,
    BX,
    SP,
    BP,
    SI,
    DI,
    // 32 bit
    EAX,
    ECX,
    EDX,
    EBX,
    ESP,
    EBP,
    ESI,
    EDI,
    R8D,
    R9D,
    R10D,
    R11D,
    R12D,
    R13D,
    R14D,
    R15D,
    // 64 bit
    RAX,
    RCX,
    RDX,
    RBX,
    RSP,
    RBP,
    RSI,
    RDI,
    R8,
    R9,
    R10,
    R11,
    R12,
    R13,
    R14,
    R15,
    RIP,
}

/// The width of the register in bytes; 0 for [`Register::NoReg`].
pub open spec fn spec_reg_size(r: Register) -> usize {
    match r {
        Register::NoReg => 0,
        Register::AL | Register::CL | Register::DL | Register::BL | Register::AH | Register::CH
            | Register::DH | Register::BH => 1,
        Register::AX | Register::CX | Register::DX | Register::BX | Register::SP | Register::BP
            | Register::SI | Register::DI => 2,
        Register::EAX | Register::ECX | Register::EDX | Register::EBX | Register::ESP
            | Register::EBP | Register::ESI | Register::EDI | Register::R8D | Register::R9D
            | Register::R10D | Register::R11D | Register::R12D | Register::R13D | Register::R14D
            | Register::R15D => 4,
        _ => 8,
    }
}

/// The numeric identity of the register inside the encoder collaborator's
/// register table; the trusted encoding wrappers take registers in this form.
pub open spec fn spec_reg_id(r: Register) -> u8 {
    match r {
        Register::NoReg => 0,
        Register::AL => 1,
        Register::CL => 2,
        Register::DL => 3,
        Register::BL => 4,
        Register::AH => 5,
        Register::CH => 6,
        Register::DH => 7,
        Register::BH => 8,
        Register::AX => 21,
        Register::CX => 22,
        Register::DX => 23,
        Register::BX => 24,
        Register::SP => 25,
        Register::BP => 26,
        Register::SI => 27,
        Register::DI => 28,
        Register::EAX => 37,
        Register::ECX => 38,
        Register::EDX => 39,
        Register::EBX => 40,
        Register::ESP => 41,
        Register::EBP => 42,
        Register::ESI => 43,
        Register::EDI => 44,
        Register::R8D => 45,
        Register::R9D => 46,
        Register::R10D => 47,
        Register::R11D => 48,
        Register::R12D => 49,
        Register::R13D => 50,
        Register::R14D => 51,
        Register::R15D => 52,
        Register::RAX => 53,
        Register::RCX => 54,
        Register::RDX => 55,
        Register::RBX => 56,
        Register::RSP => 57,
        Register::RBP => 58,
        Register::RSI => 59,
        Register::RDI => 60,
        Register::R8 => 61,
        Register::R9 => 62,
        Register::R10 => 63,
        Register::R11 => 64,
        Register::R12 => 65,
        Register::R13 => 66,
        Register::R14 => 67,
        Register::R15 => 68,
        Register::RIP => 70,
    }
}

impl Register {
    /// The width of the register in bytes; 0 for [`Register::NoReg`].
    pub fn size(&self) -> (r: usize)
        ensures
            r == spec_reg_size(*self),
    {
        match self {
            Register::NoReg => 0,
            Register::AL | Register::CL | Register::DL | Register::BL | Register::AH
                | Register::CH | Register::DH | Register::BH => 1,
            Register::AX | Register::CX | Register::DX | Register::BX | Register::SP
                | Register::BP | Register::SI | Register::DI => 2,
            Register::EAX | Register::ECX | Register::EDX | Register::EBX | Register::ESP
                | Register::EBP | Register::ESI | Register::EDI | Register::R8D | Register::R9D
                | Register::R10D | Register::R11D | Register::R12D | Register::R13D
                | Register::R14D | Register::R15D => 4,
            _ => 8,
        }
    }

    /// The numeric identity of the register in the encoder collaborator's table.
    pub fn id(&self) -> (r: u8)
        ensures
            r == spec_reg_id(*self),
    {
        match self {
            Register::NoReg => 0,
            Register::AL => 1,
            Register::CL => 2,
            Register::DL => 3,
            Register::BL => 4,
            Register::AH => 5,
            Register::CH => 6,
            Register::DH => 7,
            Register::BH => 8,
            Register::AX => 21,
            Register::CX => 22,
            Register::DX => 23,
            Register::BX => 24,
            Register::SP => 25,
            Register::BP => 26,
            Register::SI => 27,
            Register::DI => 28,
            Register::EAX => 37,
            Register::ECX => 38,
            Register::EDX => 39,
            Register::EBX => 40,
            Register::ESP => 41,
            Register::EBP => 42,
            Register::ESI => 43,
            Register::EDI => 44,
            Register::R8D => 45,
            Register::R9D => 46,
            Register::R10D => 47,
            Register::R11D => 48,
            Register::R12D => 49,
            Register::R13D => 50,
            Register::R14D => 51,
            Register::R15D => 52,
            Register::RAX => 53,
            Register::RCX => 54,
            Register::RDX => 55,
            Register::RBX => 56,
            Register::RSP => 57,
            Register::RBP => 58,
            Register::RSI => 59,
            Register::RDI => 60,
            Register::R8 => 61,
            Register::R9 => 62,
            Register::R10 => 63,
            Register::R11 => 64,
            Register::R12 => 65,
            Register::R13 => 66,
            Register::R14 => 67,
            Register::R15 => 68,
            Register::RIP => 70,
        }
    }
}

/// A memory operand: base plus scaled index plus signed displacement, with an
/// optional instruction-pointer-relative addressing flag used for data labels.
#[derive(Clone, Copy, Debug, PartialEq, Eq, Structural)]
pub struct MemoryOperand {
    pub base: Register,
    pub index: Register,
    pub scale: u32,
    pub displacement: i64,
    pub displ_size: u32,
    pub rip_relative: bool,
}

impl MemoryOperand {
    /// Builds a memory operand from its parts.
    pub fn new(
        base: Register,
        index: Register,
        scale: u32,
        displacement: i64,
        displ_size: u32,
        rip_relative: bool,
    ) -> (r: MemoryOperand)
        ensures
            r == (MemoryOperand { base, index, scale, displacement, displ_size, rip_relative }),
    {
        MemoryOperand { base, index, scale, displacement, displ_size, rip_relative }
    }
}

} // verus!
