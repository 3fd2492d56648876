//! The abstract instruction representation: the closed set of operations the
//! builders produce and the resolver encodes.

use vstd::prelude::*;

pub mod encode;
pub mod ir_builder;
pub mod resolve;
pub mod safe;
pub mod typ;

pub use ir_builder::IrFunctionBuilder;
pub use ir_builder::IrBuilder;
pub use typ::Type;

use crate::operand::MemoryOperand;
use crate::operand::Register;

verus! {

/// One abstract instruction.  Instructions are pure data: they reference
/// registers, memory operands and symbol names, but own no machine state.
#[derive(Debug, PartialEq)]
pub enum AsmInstructionEnum {
    Ret,
    Nop,
    /// The landing pad marker placed at a function entry.
    Endbr64,
    MovVal(Register, i64),
    MovReg(Register, Register),
    /// Loads the address of the named data label.
    MovPtr(Register, String),
    Store(Register, MemoryOperand),
    Load(Register, MemoryOperand),
    Call(String),
    Jmp(String),
    Inc(Register),
    Dec(Register),
    IncMem(MemoryOperand),
    DecMem(MemoryOperand),
    AddVal(Register, i64),
    AddReg(Register, Register),
    AddMem(Register, MemoryOperand),
    SubVal(Register, i64),
    SubReg(Register, Register),
    SubMem(Register, MemoryOperand),
    MulVal(Register, i64),
    MulReg(Register, Register),
    MulMem(Register, MemoryOperand),
    DivVal(Register, i64),
    DivReg(Register, Register),
    DivMem(Register, MemoryOperand),
    Push(Register),
    PushVal(i64),
    /// Pushes the value stored at the named data label.
    PushLabel(String),
    /// Pushes the address of the named label.
    PushPtr(String),
    Pop(Register),
}

impl Clone for AsmInstructionEnum {
    fn clone(&self) -> (r: Self)
        ensures
            r == *self,
    {
        match self {
            AsmInstructionEnum::Ret => AsmInstructionEnum::Ret,
            AsmInstructionEnum::Nop => AsmInstructionEnum::Nop,
            AsmInstructionEnum::Endbr64 => AsmInstructionEnum::Endbr64,
            AsmInstructionEnum::MovVal(r0, v) => AsmInstructionEnum::MovVal(*r0, *v),
            AsmInstructionEnum::MovReg(r0, r1) => AsmInstructionEnum::MovReg(*r0, *r1),
            AsmInstructionEnum::MovPtr(r0, s) => AsmInstructionEnum::MovPtr(*r0, s.clone()),
            AsmInstructionEnum::Store(r0, m) => AsmInstructionEnum::Store(*r0, *m),
            AsmInstructionEnum::Load(r0, m) => AsmInstructionEnum::Load(*r0, *m),
            AsmInstructionEnum::Call(s) => AsmInstructionEnum::Call(s.clone()),
            AsmInstructionEnum::Jmp(s) => AsmInstructionEnum::Jmp(s.clone()),
            AsmInstructionEnum::Inc(r0) => AsmInstructionEnum::Inc(*r0),
            AsmInstructionEnum::Dec(r0) => AsmInstructionEnum::Dec(*r0),
            AsmInstructionEnum::IncMem(m) => AsmInstructionEnum::IncMem(*m),
            AsmInstructionEnum::DecMem(m) => AsmInstructionEnum::DecMem(*m),
            AsmInstructionEnum::AddVal(r0, v) => AsmInstructionEnum::AddVal(*r0, *v),
            AsmInstructionEnum::AddReg(r0, r1) => AsmInstructionEnum::AddReg(*r0, *r1),
            AsmInstructionEnum::AddMem(r0, m) => AsmInstructionEnum::AddMem(*r0, *m),
            AsmInstructionEnum::SubVal(r0, v) => AsmInstructionEnum::SubVal(*r0, *v),
            AsmInstructionEnum::SubReg(r0, r1) => AsmInstructionEnum::SubReg(*r0, *r1),
            AsmInstructionEnum::SubMem(r0, m) => AsmInstructionEnum::SubMem(*r0, *m),
            AsmInstructionEnum::MulVal(r0, v) => AsmInstructionEnum::MulVal(*r0, *v),
            AsmInstructionEnum::MulReg(r0, r1) => AsmInstructionEnum::MulReg(*r0, *r1),
            AsmInstructionEnum::MulMem(r0, m) => AsmInstructionEnum::MulMem(*r0, *m),
            AsmInstructionEnum::DivVal(r0, v) => AsmInstructionEnum::DivVal(*r0, *v),
            AsmInstructionEnum::DivReg(r0, r1) => AsmInstructionEnum::DivReg(*r0, *r1),
            AsmInstructionEnum::DivMem(r0, m) => AsmInstructionEnum::DivMem(*r0, *m),
            AsmInstructionEnum::Push(r0) => AsmInstructionEnum::Push(*r0),
            AsmInstructionEnum::PushVal(v) => AsmInstructionEnum::PushVal(*v),
            AsmInstructionEnum::PushLabel(s) => AsmInstructionEnum::PushLabel(s.clone()),
            AsmInstructionEnum::PushPtr(s) => AsmInstructionEnum::PushPtr(s.clone()),
            AsmInstructionEnum::Pop(r0) => AsmInstructionEnum::Pop(*r0),
        }
    }
}

/// Copies an instruction stream element by element.
pub fn clone_stream(code: &Vec<AsmInstructionEnum>) -> (r: Vec<AsmInstructionEnum>)
    ensures
        r@ == code@,
{
    let mut r: Vec<AsmInstructionEnum> = Vec::new();
    let mut i: usize = 0;
    while i < code.len()
        invariant
            i <= code.len(),
            r@ =~= code@.subrange(0, i as int),
        decreases code.len() - i,
    {
        r.push(code[i].clone());
        i += 1;
    }
    proof {
        assert(code@.subrange(0, code@.len() as int) =~= code@);
    }
    r
}

} // verus!
