use codegenlib::CodeGenLibError;
use codegenlib::REGISTER;
use codegenlib::arch::AsmCall;
use codegenlib::arch::x64::X64;
use codegenlib::x86::function::Function;
use codegenlib::x86::mem::AdressManager;

#[test]
fn materialization_requires_no_references() {
    let mut adr = AdressManager::new((0, 0));
    let mut func = Function::new("add", &mut adr);
    func.ret_int(5);
    func.call("somewhere_else");
    // a pending call keeps the function from materializing
    assert!(matches!(func.jit_bytes(), Err(CodeGenLibError::JitFunctionsNoExtern)));

    let mut adr = AdressManager::new((0, 0));
    let mut func = Function::new("add", &mut adr);
    func.ret_int(5);
    let bytes = func.jit_bytes().unwrap();
    // the landing pad marker is cleared before the buffer becomes callable
    assert_eq!(
        bytes,
        vec![0x00, 0x00, 0x00, 0xfa, 0x55, 0x48, 0x89, 0xe5, 0xb8, 0x05, 0x00, 0x00, 0x00, 0x90,
            0x5d, 0xc3],
    );
}

#[test]
fn wide_carry_immediate_splits() {
    // an immediate above 32 bits embeds only the part left after the biased
    // form; both halves reassemble to the original value
    let value: u64 = 0x1_0000_0001;
    let bytes = AsmCall::adc_64(REGISTER::RAX, value);
    assert_eq!(bytes, vec![0x48, 0x11, 0x14, 0x25, 0x02, 0x00, 0x00, 0x00]);
    let low: u64 = 0x02;
    assert_eq!(low + 0xffffffff, value);
    // a narrow immediate uses the direct form
    let bytes = AsmCall::adc_64(REGISTER::RAX, 7);
    assert_eq!(bytes, vec![0x48, 0x11, 0x05, 0x07, 0x00, 0x00, 0x00]);
}
