use codegenlib::AsmInstructionEnum;
use codegenlib::Register;
use codegenlib::ir::safe::SafeCode;
use codegenlib::x86::ops;
use codegenlib::x86::staticv::StaticValue;
use codegenlib::x86::mem::AdressManager;
use codegenlib::x86::var::{VarDataType, Variabel};

#[test]
fn safe_code_wraps_unconditionally() {
    let body = vec![AsmInstructionEnum::MovVal(Register::RAX, 1)];
    let out = SafeCode(body);
    assert_eq!(out.len(), 7);
    assert_eq!(out[0], AsmInstructionEnum::Endbr64);
    assert_eq!(out[1], AsmInstructionEnum::Push(Register::RBP));
    assert_eq!(out[2], AsmInstructionEnum::MovReg(Register::RBP, Register::RSP));
    assert_eq!(out[3], AsmInstructionEnum::MovVal(Register::RAX, 1));
    assert_eq!(out[4], AsmInstructionEnum::Nop);
    assert_eq!(out[5], AsmInstructionEnum::Pop(Register::RBP));
    assert_eq!(out[6], AsmInstructionEnum::Ret);
}

#[test]
fn operand_helpers() {
    let m = ops::adr(0x40);
    assert_eq!(m.base, Register::NoReg);
    assert_eq!(m.displacement, 0x40);
    let m = ops::stack(-12);
    assert_eq!(m.base, Register::RBP);
    assert_eq!(m.displacement, -12);
    let m = ops::var(8);
    assert_eq!(m.displacement, -12);
    let m = ops::arg(1, 8, 0);
    assert_eq!(m.displacement, 12);
}

#[test]
fn static_values() {
    let mut v = StaticValue::new("table", true);
    assert_eq!(v.name, "table");
    assert!(v.global);
    v.set(vec![1, 2]);
    assert_eq!(v.value, vec![1, 2]);
    v.add(vec![3]);
    assert_eq!(v.value, vec![1, 2, 3]);
    v.clear();
    assert!(v.value.is_empty());
}

#[test]
fn variables() {
    let mut adr = AdressManager::new((0, 0));
    adr.reg_var(&String::from("v"), 8);
    let v = Variabel::new(VarDataType::U64, &String::from("v"), &adr);
    assert_eq!(v.size, 8);
    assert_eq!(v.adr(), 0);
    let missing = Variabel::new(VarDataType::Custom(3), &String::from("w"), &adr);
    assert_eq!(missing.size, 3);
    assert_eq!(missing.adr(), u64::MAX);
    let mut v2 = v.clone();
    v2.init();
    assert_eq!(v2.size, 8);
    assert!(!v2.initalized);
}
