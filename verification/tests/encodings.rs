use codegenlib::AsmInstructionEnum as I;
use codegenlib::Register as R;
use codegenlib::abi::Abi;
use codegenlib::abi::linux::LinuxAbi;
use codegenlib::resolve;

fn enc(i: I) -> Vec<u8> {
    resolve(&vec![], &vec![], &vec![i]).0
}

#[test]
fn move_immediate_widths() {
    assert_eq!(enc(I::MovVal(R::RAX, 5)), vec![0x48, 0xb8, 5, 0, 0, 0, 0, 0, 0, 0]);
    assert_eq!(enc(I::MovVal(R::EAX, 5)), vec![0xb8, 5, 0, 0, 0]);
    assert_eq!(enc(I::MovVal(R::AX, 5)), vec![0x66, 0xb8, 5, 0]);
    assert_eq!(enc(I::MovVal(R::AL, 5)), vec![0xb0, 5]);
    // no form exists for the empty register: the single no-operation fallback
    assert_eq!(enc(I::MovVal(R::NoReg, 5)), enc(I::DivVal(R::RAX, 1)));
}

#[test]
fn register_and_memory_moves() {
    let abi = Abi::linux();
    assert_eq!(enc(I::MovReg(R::RAX, R::RBX)), vec![0x48, 0x8b, 0xc3]);
    assert_eq!(enc(I::Load(R::RAX, abi.stack(-8))), vec![0x48, 0x8b, 0x45, 0xf8]);
    assert_eq!(enc(I::Store(R::RAX, abi.stack(-8))), vec![0x48, 0x89, 0x45, 0xf8]);
    assert_eq!(enc(I::Pop(R::RBX)), vec![0x5b]);
    assert_eq!(enc(I::Push(R::AX)), vec![0x66, 0x50]);
}

#[test]
fn arithmetic_forms() {
    let abi = Abi::linux();
    assert_eq!(enc(I::Dec(R::RAX)), vec![0x48, 0xff, 0xc8]);
    assert_eq!(enc(I::IncMem(abi.stack(-8))), vec![0xfe, 0x45, 0xf8]);
    assert_eq!(enc(I::DecMem(abi.stack(-8))), vec![0xfe, 0x4d, 0xf8]);
    assert_eq!(enc(I::AddVal(R::RAX, 100)), vec![0x48, 0x81, 0xc0, 100, 0, 0, 0]);
    assert_eq!(enc(I::AddReg(R::RAX, R::RBX)), vec![0x48, 0x03, 0xc3]);
    assert_eq!(enc(I::AddMem(R::RAX, abi.stack(-8))), vec![0x48, 0x03, 0x45, 0xf8]);
    assert_eq!(enc(I::SubVal(R::RAX, 100)), vec![0x48, 0x81, 0xe8, 100, 0, 0, 0]);
    assert_eq!(enc(I::SubReg(R::RAX, R::RBX)), vec![0x48, 0x2b, 0xc3]);
    // the multiply-immediate form carries three operands, which the resolver's
    // two operand construction cannot fill: it degrades to the no-op fallback
    assert_eq!(enc(I::MulVal(R::RAX, 3)), enc(I::DivVal(R::RAX, 1)));
    assert_eq!(enc(I::MulReg(R::RAX, R::RBX)), vec![0x48, 0x0f, 0xaf, 0xc3]);
}

#[test]
fn push_forms() {
    assert_eq!(enc(I::PushVal(5)), vec![0x68, 5, 0, 0, 0]);
    // a wide immediate splits into two pushes, low half first
    assert_eq!(
        enc(I::PushVal(0x1_0000_0002)),
        vec![0x68, 2, 0, 0, 0, 0x68, 1, 0, 0, 0],
    );
    assert_eq!(enc(I::PushPtr(String::from("p"))), vec![0x68, 0, 0, 0, 0]);
    assert_eq!(
        enc(I::PushLabel(String::from("l"))),
        vec![0xff, 0x34, 0x25, 0, 0, 0, 0],
    );
}

#[test]
fn address_load_form() {
    // the relocation at offset 2 overwrites the displacement field, which
    // still holds the encoder's own bias here
    let bytes = enc(I::MovPtr(R::RDI, String::from("msg")));
    assert_eq!(bytes.len(), 7);
    assert_eq!(&bytes[0..3], &[0x48, 0x8d, 0x3d]);
}
