use codegenlib::REGISTER;
use codegenlib::arch::AsmCall;
use codegenlib::arch::def::Arch;
use codegenlib::arch::ext::Extension;
use codegenlib::arch::ext::all;
use codegenlib::arch::I8086::I8086;
use codegenlib::arch::I80386::I80386;
use codegenlib::arch::shared::IShared;
use codegenlib::arch::x64::X64;

#[test]
fn amd64_extension_list() {
    let exts = all(Arch::AMD64(vec![]));
    assert_eq!(exts.len(), 11);
    assert_eq!(exts[0], Extension::I8086);
    assert_eq!(exts[6], Extension::X64);
    assert_eq!(exts[10], Extension::MONITOR);
}

#[test]
fn shared_tables() {
    assert_eq!(AsmCall::inc(REGISTER::RAX), vec![0x48, 0xff, 0xc0]);
    assert_eq!(AsmCall::dec(REGISTER::EAX), vec![0xff, 0xc8]);
    assert_eq!(AsmCall::mov_reg(REGISTER::RBP, REGISTER::RSP), vec![0x48, 0x89, 0xe5]);
    assert_eq!(AsmCall::push(REGISTER::RBP), vec![0x55]);
    assert_eq!(AsmCall::pop(REGISTER::RBP), vec![0x5d]);
    assert_eq!(AsmCall::jmp(0x11223344), vec![0xe9, 0x44, 0x33, 0x22, 0x11]);
    assert_eq!(AsmCall::call(0x11223344), vec![0xe8, 0x44, 0x33, 0x22, 0x11]);
    assert_eq!(AsmCall::call_reg(REGISTER::RAX), vec![0xff, 0xd0]);
    assert_eq!(AsmCall::jmp_reg(REGISTER::RAX), vec![0xff, 0xe0]);
    assert_eq!(AsmCall::endbr64(), vec![0xf3, 0x0f, 0x1e, 0xfa]);
    assert_eq!(AsmCall::adc_reg(REGISTER::RAX, REGISTER::RBX), vec![0x48, 0x11, 0xd8]);
    assert_eq!(AsmCall::adc_reg(REGISTER::RBP, REGISTER::RAX), vec![0x48, 0x11, 0xc5]);
    assert_eq!(AsmCall::adc_reg(REGISTER::EAX, REGISTER::EBX), vec![0x11, 0xd8]);
    assert_eq!(AsmCall::adc_reg(REGISTER::AL, REGISTER::AH), vec![0x10, 0xe0]);
    assert_eq!(AsmCall::inc(REGISTER::RSP), vec![0x48, 0xff, 0xc4]);
    assert_eq!(AsmCall::pop(REGISTER::RBX), vec![0x5b]);
    assert_eq!(AsmCall::pop(REGISTER::RCX), vec![0x59]);
    assert_eq!(AsmCall::mov_reg(REGISTER::BH, REGISTER::AH), vec![0x88, 0xe7]);
    assert_eq!(AsmCall::to_memory(0x10, REGISTER::EAX), vec![0xa3, 0x10, 0, 0, 0]);
    assert_eq!(AsmCall::from_memory(0x10, REGISTER::EAX), vec![0xa1, 0x10, 0, 0, 0]);
    // a register the table lacks yields the placeholder byte
    assert_eq!(AsmCall::push(REGISTER::AL), vec![0x00]);
}

#[test]
fn generation_tables() {
    assert_eq!(AsmCall::nop(), vec![0x90]);
    assert_eq!(AsmCall::ret(), vec![0xc3]);
    assert_eq!(AsmCall::interrupt(3), vec![0xcd, 3]);
    assert_eq!(AsmCall::cli(), vec![0xfa]);
    assert_eq!(AsmCall::sti(), vec![0xfb]);
    assert_eq!(AsmCall::std_flag(), vec![0xfd]);
    assert_eq!(AsmCall::cld(), vec![0xfc]);
    assert_eq!(AsmCall::stc(), vec![0xf9]);
    assert_eq!(AsmCall::clc(), vec![0xf8]);
    assert_eq!(AsmCall::cbw(), vec![0x66, 0x98]);
    assert_eq!(AsmCall::mov_8(REGISTER::AL, 7), vec![0xb0, 7]);
    assert_eq!(AsmCall::mov_16(REGISTER::AX, 0x0102), vec![0x66, 0xb8, 2, 1]);
    assert_eq!(AsmCall::mov_32(REGISTER::EAX, 0x01020304), vec![0xb8, 4, 3, 2, 1]);
    assert_eq!(AsmCall::mov_64(REGISTER::RAX, 5), vec![0x48, 0xa3, 5, 0, 0, 0, 0, 0, 0, 0]);
    assert_eq!(AsmCall::adc_8(REGISTER::AL, 7), vec![0x14, 0xff, 7]);
    assert_eq!(AsmCall::adc_16(REGISTER::AX, 0x0102), vec![0x66, 0x15, 2, 1]);
    assert_eq!(AsmCall::adc_32(REGISTER::EAX, 0x01020304), vec![0x15, 4, 3, 2, 1]);
}
