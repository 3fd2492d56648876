use codegenlib::Register;
use codegenlib::abi::Abi;
use codegenlib::abi::BinFormat;
use codegenlib::abi::linux::LinuxAbi;
use codegenlib::abi::windows::WindowsAbi;

#[test]
fn windows() {
    // test return regs
    assert_eq!(Abi::windows().arg64(0), Register::RCX);
    assert_eq!(Abi::windows().arg64(1), Register::RDX);
    assert_eq!(Abi::windows().arg64(2), Register::R8);
    assert_eq!(Abi::windows().arg64(3), Register::R9);

    // test return regs len
    assert_eq!(Abi::windows().reg_args, 4);
}

#[test]
fn linux() {
    // test return regs
    assert_eq!(Abi::linux().arg64(0), Register::RDI);
    assert_eq!(Abi::linux().arg64(1), Register::RSI);
    assert_eq!(Abi::linux().arg64(2), Register::RDX);
    assert_eq!(Abi::linux().arg64(3), Register::RCX);
    assert_eq!(Abi::linux().arg64(4), Register::R8);
    assert_eq!(Abi::linux().arg64(5), Register::R9);

    // test return regs len
    assert_eq!(Abi::linux().reg_args, 6);
}

#[test]
fn stack_and_memory_operands() {
    let abi = Abi::linux();
    let pos = abi.stack(16);
    assert_eq!(pos.base, Register::RBP);
    assert_eq!(pos.displacement, 24);
    let neg = abi.stack(-8);
    assert_eq!(neg.displacement, -8);
    let mem = abi.mem(0x1000);
    assert_eq!(mem.base, Register::NoReg);
    assert_eq!(mem.displacement, 0x1000);
    assert_eq!(abi.binary_format(), BinFormat::Elf);
    assert_eq!(Abi::windows().binary_format(), BinFormat::Coff);
    assert_eq!(abi.ret_reg(), Register::RAX);
}
