use codegenlib::Type;
use codegenlib::to_bytes_16;
use codegenlib::to_bytes_32;
use codegenlib::to_bytes_64;
use codegenlib::ASMCall;
use codegenlib::REGISTER;

#[test]
fn type_queries() {
    assert!(Type::U64(1).in_reg());
    assert!(Type::Str(vec![]).in_reg());
    assert!(Type::Ptr(Box::new(Type::U64(0))).in_reg());
    assert!(!Type::Bytes(vec![]).in_reg());
    assert!(!Type::Unlim(vec![]).in_reg());
    assert!(!Type::InVar(String::new()).in_reg());

    assert_eq!(Type::U64(1).size(), 8);
    assert_eq!(Type::U32(1).size(), 4);
    assert_eq!(Type::I64(1).size(), 8);
    assert_eq!(Type::I32(1).size(), 4);
    assert_eq!(Type::Str(vec![1, 2]).size(), 8);
    assert_eq!(Type::Bytes(vec![1, 2, 3]).size(), 2);
    assert_eq!(Type::Bytes(vec![]).size(), 0);
    assert_eq!(Type::Unlim(vec![]).size(), 0);
}

#[test]
fn type_bytes_are_big_endian() {
    assert_eq!(Type::U32(0x01020304).bytes(), vec![1, 2, 3, 4]);
    assert_eq!(
        Type::U64(0x0102030405060708).bytes(),
        vec![1, 2, 3, 4, 5, 6, 7, 8],
    );
    assert_eq!(Type::Str(vec![9, 8]).bytes(), vec![9, 8]);
    assert_eq!(Type::Ptr(Box::new(Type::U32(0x01020304))).bytes(), vec![1, 2, 3, 4]);
    assert_eq!(Type::Unlim(vec![]).bytes(), Vec::<u8>::new());
    assert_eq!(Type::InVar(String::from("v")).bytes(), Vec::<u8>::new());
}

#[test]
fn type_kinds() {
    assert!(Type::U64(1).same_kind(&Type::U64(9)));
    assert!(!Type::U64(1).same_kind(&Type::U32(1)));
    assert!(Type::Str(vec![1]).same_kind(&Type::Str(vec![])));
    let e = Type::Ptr(Box::new(Type::Str(vec![]))).empty();
    assert!(e.same_kind(&Type::Ptr(Box::new(Type::U64(0)))));
}

#[test]
fn little_endian_splits() {
    assert_eq!(to_bytes_16(0x0102), (0x02, 0x01));
    assert_eq!(to_bytes_32(0x01020304), (0x04, 0x03, 0x02, 0x01));
    assert_eq!(
        to_bytes_64(0x0102030405060708),
        (8, 7, 6, 5, 4, 3, 2, 1),
    );
}

#[test]
fn emitter_moves() {
    let mut e = ASMCall::new();
    e.mov_32(REGISTER::EAX, 0x11223344);
    assert_eq!(e.generated, vec![0xb8, 0x44, 0x33, 0x22, 0x11]);
    e.mov_16(REGISTER::BX, 0x1122);
    assert_eq!(e.generated, vec![0x66, 0xbb, 0x22, 0x11]);
    e.mov_8(REGISTER::CL, 3);
    assert_eq!(e.generated, vec![0xb1, 0x03]);
    // an unknown register leaves the buffer unchanged
    e.mov_16(REGISTER::CX, 1);
    assert_eq!(e.generated, vec![0xb1, 0x03]);
}
