use codegenlib::AsmInstructionEnum;
use codegenlib::Register;
use codegenlib::opt::Optimize;

fn body() -> Vec<AsmInstructionEnum> {
    vec![
        AsmInstructionEnum::MovVal(Register::RAX, 5),
        AsmInstructionEnum::AddVal(Register::RBX, 1),
        AsmInstructionEnum::AddVal(Register::RCX, -1),
        AsmInstructionEnum::AddVal(Register::RDX, 7),
        AsmInstructionEnum::Ret,
    ]
}

#[test]
fn canonicalize_wraps_frame() {
    let out = Optimize(body());
    // three instruction prologue in front
    assert_eq!(out[0], AsmInstructionEnum::Endbr64);
    assert_eq!(out[1], AsmInstructionEnum::Push(Register::RBP));
    assert_eq!(out[2], AsmInstructionEnum::MovReg(Register::RBP, Register::RSP));
    // teardown at the end
    let n = out.len();
    assert_eq!(out[n - 3], AsmInstructionEnum::Nop);
    assert_eq!(out[n - 2], AsmInstructionEnum::Pop(Register::RBP));
    assert_eq!(out[n - 1], AsmInstructionEnum::Ret);
}

#[test]
fn canonicalize_peephole_rewrites() {
    let out = Optimize(body());
    assert!(out.contains(&AsmInstructionEnum::Inc(Register::RBX)));
    assert!(out.contains(&AsmInstructionEnum::Dec(Register::RCX)));
    // an add of a different immediate stays
    assert!(out.contains(&AsmInstructionEnum::AddVal(Register::RDX, 7)));
    assert!(!out.contains(&AsmInstructionEnum::AddVal(Register::RBX, 1)));
}

#[test]
fn canonicalize_idempotent() {
    let once = Optimize(body());
    let twice = Optimize(once.clone());
    assert_eq!(once, twice);
}
