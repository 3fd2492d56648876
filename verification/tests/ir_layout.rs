use codegenlib::AsmInstructionEnum;
use codegenlib::Builder;
use codegenlib::IrFunctionBuilder;
use codegenlib::Register;
use codegenlib::Type;
use codegenlib::abi::Abi;
use codegenlib::abi::linux::LinuxAbi;
use codegenlib::error::CodeGenLibError;

#[test]
fn two_wide_args_both_in_registers() {
    let mut builder = Builder::new();
    let mut func = IrFunctionBuilder::new("sum", &mut builder, &Abi::linux());
    func.args(vec![("x", Type::U64(0)), ("y", Type::U64(0))]);
    func.vars(vec![]);
    // both arguments landed in the first two argument registers
    assert_eq!(func.args[0].0.2, Some(Register::RDI));
    assert_eq!(func.args[1].0.2, Some(Register::RSI));
    // spilled to -8 and -16, with an 8-byte bias
    assert_eq!(func.vars[0], (String::from("x"), -8));
    assert_eq!(func.vars[1], (String::from("y"), -16));
    assert_eq!(func.generated.len(), 2);
    assert!(matches!(&func.generated[0],
        AsmInstructionEnum::Store(Register::RDI, m) if m.displacement == -8));
    assert!(matches!(&func.generated[1],
        AsmInstructionEnum::Store(Register::RSI, m) if m.displacement == -16));
}

#[test]
fn layout_is_deterministic() {
    let build = |n: &str| {
        let mut builder = Builder::new();
        let mut func = IrFunctionBuilder::new(n, &mut builder, &Abi::linux());
        func.args(vec![
            ("a", Type::U64(0)),
            ("b", Type::Bytes(vec![1, 2, 3])),
            ("c", Type::U32(0)),
        ]);
        func.vars(vec![("t", Type::U64(0))]);
        func
    };
    let f1 = build("f");
    let f2 = build("f");
    assert_eq!(f1.args, f2.args);
    assert_eq!(f1.vars, f2.vars);
    assert_eq!(f1.generated, f2.generated);
}

#[test]
fn stack_passed_argument_keeps_caller_slot() {
    let mut builder = Builder::new();
    let mut func = IrFunctionBuilder::new("f", &mut builder, &Abi::linux());
    // a byte blob is not register eligible
    func.args(vec![("x", Type::U64(0)), ("blob", Type::Bytes(vec![0; 9]))]);
    func.vars(vec![("local", Type::U32(0))]);
    // the blob keeps a positive displacement: its pre-layout summed size
    assert_eq!(func.vars[1], (String::from("blob"), 8));
    // the local takes the next negative slot after all arguments
    assert_eq!(func.vars[2], (String::from("local"), -24));
}

#[test]
fn variadic_parameter_consumes_no_register() {
    let mut builder = Builder::new();
    let mut func = IrFunctionBuilder::new("main", &mut builder, &Abi::linux());
    func.efuncs(vec![("printf", vec![Type::Unlim(vec![])])]);
    let r = func.build_call("printf", vec![
        Type::Str(b"hi %d %d".to_vec()),
        Type::U64(1),
        Type::U64(2),
    ]);
    assert!(r.is_ok());
    // all three arguments travel in registers: no push of any kind, and the
    // variadic marker consumes no slot in any scan
    assert_eq!(func.generated.len(), 4);
    assert!(matches!(&func.generated[0],
        AsmInstructionEnum::MovPtr(Register::RDI, l) if l == "main.printf.1"));
    assert_eq!(func.generated[1], AsmInstructionEnum::MovVal(Register::RDI, 1));
    assert_eq!(func.generated[2], AsmInstructionEnum::MovVal(Register::RDI, 2));
    assert!(matches!(&func.generated[3],
        AsmInstructionEnum::Call(t) if t == "printf"));
    // the literal was promoted to a deterministically named private label
    assert_eq!(func.builder.labels.len(), 1);
    assert_eq!(func.builder.labels[0].0, "main.printf.1");
    assert_eq!(func.builder.labels[0].1, (false, b"hi %d %d".to_vec()));
}

#[test]
fn build_add_emits_load_add_store() {
    let mut builder = Builder::new();
    let mut func = IrFunctionBuilder::new("add", &mut builder, &Abi::linux());
    func.args(vec![("x", Type::U64(0)), ("y", Type::U64(0))]);
    func.vars(vec![("z", Type::U64(0))]);
    func.build_add("x", "y", "z").unwrap();
    func.build_return_var("z").unwrap();
    let n = func.generated.len();
    assert_eq!(n, 7);
    assert!(matches!(&func.generated[2],
        AsmInstructionEnum::Load(Register::RAX, m) if m.displacement == -8));
    assert!(matches!(&func.generated[3],
        AsmInstructionEnum::AddMem(Register::RAX, m) if m.displacement == -16));
    assert!(matches!(&func.generated[4],
        AsmInstructionEnum::Store(Register::RAX, m) if m.displacement == -24));
    assert!(matches!(&func.generated[5],
        AsmInstructionEnum::Load(Register::RAX, m) if m.displacement == -24));
    assert_eq!(func.generated[6], AsmInstructionEnum::Ret);
}

#[test]
fn unknown_names_are_refused() {
    let mut builder = Builder::new();
    let mut func = IrFunctionBuilder::new("f", &mut builder, &Abi::linux());
    func.vars(vec![("a", Type::U64(0))]);
    let r = func.build_add("a", "missing", "a");
    assert!(matches!(r, Err(CodeGenLibError::VarNotExist(n)) if n == "missing"));
    let r = func.build_return_var("nope");
    assert!(matches!(r, Err(CodeGenLibError::VarNotExist(n)) if n == "nope"));
    let r = func.build_call("ghost", vec![Type::U64(1)]);
    assert!(matches!(r, Err(CodeGenLibError::FuncNotExist(n)) if n == "ghost"));
}

#[test]
fn error_messages() {
    let e = CodeGenLibError::VarNotExist(String::from("x"));
    assert_eq!(e.msg(), "var x doesn't exits");
    let e = CodeGenLibError::FuncNotExist(String::from("f"));
    assert_eq!(e.msg(), "func f doesn't exits");
}
