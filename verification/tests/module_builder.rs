use codegenlib::AsmInstructionEnum;
use codegenlib::Builder;
use codegenlib::IrBuilder;
use codegenlib::IrFunctionBuilder;
use codegenlib::Type;
use codegenlib::abi::Abi;
use codegenlib::abi::BinFormat;
use codegenlib::abi::linux::LinuxAbi;
use codegenlib::ir::resolve::Decl;
use codegenlib::ir::resolve::Scope;

#[test]
fn define_canonicalizes() {
    let mut b = Builder::new();
    b.define("f", true, vec![AsmInstructionEnum::Ret]).unwrap();
    assert_eq!(b.funcs.len(), 1);
    assert_eq!(b.funcs[0].0, "f");
    assert!(b.funcs[0].1.0);
    let code = &b.funcs[0].1.1;
    assert_eq!(code[0], AsmInstructionEnum::Endbr64);
    assert_eq!(code[code.len() - 1], AsmInstructionEnum::Ret);
    assert_eq!(b.func_names, vec![String::from("f")]);
}

#[test]
fn sync_keeps_own_definitions() {
    let mut a = Builder::new();
    a.define_label("shared", false, vec![1]);
    let mut b = Builder::new();
    b.define_label("shared", false, vec![2]);
    b.define_label("extra", true, vec![3]);
    a.sync(&b);
    // the own definition wins; the missing one is carried over
    assert_eq!(a.labels.len(), 2);
    assert_eq!(a.labels[0], (String::from("shared"), (false, vec![1])));
    assert_eq!(a.labels[1], (String::from("extra"), (true, vec![3])));
}

#[test]
fn assemble_prefixes_labels() {
    let mut b = Builder::new();
    b.define_label("msg", false, vec![72, 105]);
    b.define(
        "main",
        true,
        vec![
            AsmInstructionEnum::MovPtr(codegenlib::Register::RDI, String::from("msg")),
            AsmInstructionEnum::Call(String::from("puts")),
        ],
    )
    .unwrap();
    let m = b.assemble();
    assert_eq!(m.funcs.len(), 1);
    assert_eq!(m.funcs[0].0, "main");
    assert!(m.funcs[0].1);
    assert!(!m.funcs[0].2.is_empty());
    assert_eq!(m.labels.len(), 1);
    assert_eq!(m.labels[0].0, ".Lmsg");
    assert_eq!(m.labels[0].2, vec![72, 105]);
    // the local label target is prefixed, the import is not
    assert_eq!(m.links.len(), 2);
    assert_eq!(m.links[0].from, "main");
    assert_eq!(m.links[0].to, ".Lmsg");
    assert_eq!(m.links[1].to, "puts");
    // the declarations carry the unknown call target as a function import;
    // the locally defined label is not imported
    assert!(m.decls.iter().any(|d| d.0 == "puts" && d.1 == Decl::Function(Scope::Import)));
    assert!(!m.decls.iter().any(|d| d.0 == "msg"));
}

#[test]
fn ir_builder_assembles_unit() {
    let mut unit = IrBuilder::new(Abi::linux());
    let mut func = IrFunctionBuilder::new("add", &mut unit.build, &unit.abi.clone());
    func.args(vec![("x", Type::U64(0)), ("y", Type::U64(0))]);
    func.vars(vec![("z", Type::U64(0))]);
    func.build_add("x", "y", "z").unwrap();
    func.build_return_var("z").unwrap();
    func.set_public();
    unit.add(func);
    let (module, bin) = unit.assemble();
    assert_eq!(bin, BinFormat::Elf);
    assert_eq!(module.funcs.len(), 1);
    assert_eq!(module.funcs[0].0, "add");
    assert!(module.funcs[0].1);
    assert!(!module.funcs[0].2.is_empty());
    assert!(module.links.is_empty());
}
