//! Unconditional frame wrapping of a raw instruction stream.

use vstd::prelude::*;

use crate::ir::AsmInstructionEnum;
use crate::operand::Register;
use crate::opt::spec_epilogue;
use crate::opt::spec_prologue;

verus! {

/// The bytesafe form of a stream: the unmodified input bracketed by the frame
/// setup in front and the frame teardown (filler, frame pointer pop, return)
/// behind.
pub open spec fn spec_safe_code(s: Seq<AsmInstructionEnum>) -> Seq<AsmInstructionEnum> {
    spec_prologue() + s + spec_epilogue()
}

/// Wraps the stream in the frame setup and teardown unconditionally.
#[allow(non_snake_case)]
pub fn SafeCode(code: Vec<AsmInstructionEnum>) -> (r: Vec<AsmInstructionEnum>)
    ensures
        r@ == spec_safe_code(code@),
{
    let ghost input = code@;
    let mut r: Vec<AsmInstructionEnum> = Vec::new();
    r.push(AsmInstructionEnum::Endbr64);
    r.push(AsmInstructionEnum::Push(Register::RBP));
    r.push(AsmInstructionEnum::MovReg(Register::RBP, Register::RSP));
    let mut code = code;
    r.append(&mut code);
    r.push(AsmInstructionEnum::Nop);
    r.push(AsmInstructionEnum::Pop(Register::RBP));
    r.push(AsmInstructionEnum::Ret);
    proof {
        assert(r@ =~= spec_safe_code(input));
    }
    r
}

} // verus!
