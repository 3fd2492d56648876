use codegenlib::REGISTER;
use codegenlib::x86::function::Function;
use codegenlib::x86::mem::AdressManager;

#[test]
fn function_ret_codegen() {
    let mut adr = AdressManager::new((0, 0));
    let mut func = Function::new("test", &mut adr);
    func.asm_ret();

    let expected_gen: Vec<u8> = vec![
        0xf3, 0x0f, 0x1e, 0xfa, // endbr64
        0x55, // push rbp
        0x48, 0x89, 0xe5, // mov rbp, rsp
        0x90, // nop
        0x5d, // pop rbp
        0xc3, // ret
    ];

    assert_eq!(expected_gen, func.get_gen());
}

#[test]
fn function_mov_widths() {
    let mut adr = AdressManager::new((0, 0));
    let mut func = Function::new("movs", &mut adr);
    func.asm_mov(REGISTER::EAX, 5);
    let last = func.gen.last().unwrap().clone();
    assert_eq!(last, vec![0xb8, 0x05, 0x00, 0x00, 0x00]);
    func.asm_mov(REGISTER::AX, 7);
    let last = func.gen.last().unwrap().clone();
    assert_eq!(last, vec![0x66, 0xb8, 0x07, 0x00]);
    func.asm_mov(REGISTER::AL, 9);
    let last = func.gen.last().unwrap().clone();
    assert_eq!(last, vec![0xb0, 0x09]);
    func.asm_mov(REGISTER::RAX, 5);
    let last = func.gen.last().unwrap().clone();
    assert_eq!(last, vec![0x48, 0xa3, 5, 0, 0, 0, 0, 0, 0, 0]);
}

#[test]
fn function_call_records_reference() {
    let mut adr = AdressManager::new((0, 0));
    let mut func = Function::new("caller", &mut adr);
    func.call("callee");
    assert_eq!(func.esymbols.len(), 1);
    assert_eq!(func.esymbols[0].start, "caller");
    assert_eq!(func.esymbols[0].dest, "callee");
    assert_eq!(func.esymbols[0].at, 3);
    assert_eq!(func.gen.last().unwrap().clone(), vec![0xe8, 0, 0, 0, 0]);
}

#[test]
fn address_manager_bookkeeping() {
    let mut adr = AdressManager::new((0, 0));
    assert_eq!(adr.reg_var(&String::from("a"), 4), 0);
    assert_eq!(adr.reg_var(&String::from("b"), 8), 4);
    assert_eq!(adr.reg_var(&String::from("a"), 2), -1);
    assert_eq!(adr.get_adr(&String::from("b")), 4);
    assert_eq!(adr.get_size(&String::from("b")), 8);
    assert_eq!(adr.get_adr(&String::from("missing")), -1);
    let entry = adr.get_entry(&String::from("missing"));
    assert_eq!(entry.size, 0);
}
