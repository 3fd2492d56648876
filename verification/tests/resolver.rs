use codegenlib::AsmInstructionEnum;
use codegenlib::Register;
use codegenlib::ir::resolve::Decl;
use codegenlib::ir::resolve::Scope;
use codegenlib::resolve;

#[test]
fn resolve_fixed_encodings() {
    let code = vec![AsmInstructionEnum::Ret];
    let (bytes, links, decls) = resolve(&vec![], &vec![], &code);
    assert_eq!(bytes, vec![0xc3]);
    assert!(links.is_empty());
    assert!(decls.is_empty());

    let code = vec![AsmInstructionEnum::Push(Register::RAX)];
    let (bytes, _, _) = resolve(&vec![], &vec![], &code);
    assert_eq!(bytes, vec![0x50]);

    let code = vec![AsmInstructionEnum::Inc(Register::RAX)];
    let (bytes, _, _) = resolve(&vec![], &vec![], &code);
    assert_eq!(bytes, vec![0x48, 0xff, 0xc0]);
}

#[test]
fn resolve_relocation_coverage() {
    let funcs = vec![String::from("me")];
    let code = vec![
        AsmInstructionEnum::Call(String::from("you")),
        AsmInstructionEnum::Call(String::from("me")),
        AsmInstructionEnum::Jmp(String::from("you")),
    ];
    let (bytes, links, decls) = resolve(&funcs, &vec![], &code);
    // every symbol referencing instruction leaves exactly one relocation
    assert_eq!(links.len(), 3);
    assert_eq!(links[0].to, "you");
    assert_eq!(links[0].at, 1);
    assert_eq!(links[1].to, "me");
    assert_eq!(links[1].at, 6);
    assert_eq!(links[2].to, "you");
    assert_eq!(links[2].at, 11);
    // the unknown target is declared exactly once, as a function import
    assert_eq!(decls.len(), 1);
    assert_eq!(decls[0].0, "you");
    assert_eq!(decls[0].1, Decl::Function(Scope::Import));
    // the displacement fields still hold zero
    assert_eq!(bytes[0], 0xe8);
    assert_eq!(&bytes[1..5], &[0, 0, 0, 0]);
    assert_eq!(bytes[10], 0xe9);
    assert_eq!(&bytes[11..15], &[0, 0, 0, 0]);
}

#[test]
fn resolve_label_references() {
    let labels = vec![String::from("msg")];
    let code = vec![
        AsmInstructionEnum::MovPtr(Register::RDI, String::from("msg")),
        AsmInstructionEnum::PushLabel(String::from("other")),
    ];
    let (_, links, decls) = resolve(&vec![], &labels, &code);
    assert_eq!(links.len(), 2);
    assert_eq!(links[0].to, "msg");
    assert_eq!(links[0].at, 2);
    assert_eq!(links[1].to, "other");
    // the locally defined label produces no import; the unknown one imports data
    assert_eq!(decls.len(), 1);
    assert_eq!(decls[0].0, "other");
    assert_eq!(decls[0].1, Decl::Data(Scope::Import));

    let code = vec![AsmInstructionEnum::PushLabel(String::from("msg"))];
    let (_, links, decls) = resolve(&vec![], &labels, &code);
    assert_eq!(links.len(), 1);
    assert!(decls.is_empty());
}

#[test]
fn peephole_forms_encode() {
    // both the rewritten and the plain form have a concrete encoding
    let add = vec![AsmInstructionEnum::AddVal(Register::RAX, 1)];
    let inc = vec![AsmInstructionEnum::Inc(Register::RAX)];
    let (add_bytes, _, _) = resolve(&vec![], &vec![], &add);
    let (inc_bytes, _, _) = resolve(&vec![], &vec![], &inc);
    assert!(!add_bytes.is_empty());
    assert!(!inc_bytes.is_empty());
    assert_eq!(inc_bytes, vec![0x48, 0xff, 0xc0]);
}

#[test]
fn unsupported_widths_degrade_to_nop() {
    let code = vec![AsmInstructionEnum::DivVal(Register::RAX, 3)];
    let (bytes, links, decls) = resolve(&vec![], &vec![], &code);
    assert!(!bytes.is_empty());
    assert!(links.is_empty());
    assert!(decls.is_empty());
}
