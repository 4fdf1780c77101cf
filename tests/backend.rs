use evallvm::{
    finish_flush, parse_program, plan_flush, BuilderFault, EvaLLVM, EvaLLVMError, FnSig, Instr,
    IrType, Program,
};

fn main_sig() -> FnSig {
    FnSig::new(vec![], IrType::I32)
}

fn entry_instrs(eva: &EvaLLVM) -> &Vec<Instr> {
    let m = eva.module();
    &m.functions[0].blocks[0].instrs
}

#[test]
fn new_builder_is_empty() {
    let eva = EvaLLVM::new();
    assert_eq!(eva.module().name, "evallvm");
    assert!(eva.module().functions.is_empty());
    assert!(eva.cursor().is_none());
    assert!(eva.current_function().is_none());
}

#[test]
fn compile_literal_returns_it() {
    let mut eva = EvaLLVM::new();
    assert!(eva.compile("42").is_ok());
    let m = eva.module();
    assert_eq!(m.functions.len(), 1);
    let f = &m.functions[0];
    assert_eq!(f.name, "main");
    assert_eq!(f.sig, main_sig());
    assert_eq!(f.blocks.len(), 1);
    assert_eq!(f.blocks[0].label, "entry");
    assert_eq!(f.blocks[0].instrs, vec![Instr::Return { value: 42 }]);
    assert_eq!(eva.current_function(), Some(0));
    assert!(eva.verify(0).is_ok());
}

#[test]
fn compile_empty_program_returns_zero() {
    let mut eva = EvaLLVM::new();
    assert!(eva.compile("").is_ok());
    assert_eq!(entry_instrs(&eva), &vec![Instr::Return { value: 0 }]);
    assert!(eva.verify(0).is_ok());
}

#[test]
fn compile_blank_program_returns_zero() {
    let mut eva = EvaLLVM::new();
    assert!(eva.compile(" \t\r\n ").is_ok());
    assert_eq!(entry_instrs(&eva), &vec![Instr::Return { value: 0 }]);
}

#[test]
fn compile_trims_whitespace_around_literal() {
    let mut eva = EvaLLVM::new();
    assert!(eva.compile("  7\n").is_ok());
    assert_eq!(entry_instrs(&eva), &vec![Instr::Return { value: 7 }]);
}

#[test]
fn compile_other_program_emits_greeting() {
    let mut eva = EvaLLVM::new();
    assert!(eva.compile("(print \"hi\")").is_ok());
    assert_eq!(
        entry_instrs(&eva),
        &vec![
            Instr::GlobalStringPtr {
                name: "hello_world".to_string(),
                text: "Hello, world!\n".to_string()
            },
            Instr::Return { value: 0 },
        ]
    );
    assert!(eva.verify(0).is_ok());
}

#[test]
fn parse_program_shapes() {
    assert_eq!(parse_program(""), Program::Empty);
    assert_eq!(parse_program("   "), Program::Empty);
    assert_eq!(parse_program("42"), Program::Literal(42));
    assert_eq!(parse_program("0"), Program::Literal(0));
    assert_eq!(parse_program("007"), Program::Literal(7));
    assert_eq!(parse_program("2147483647"), Program::Literal(2147483647));
    assert_eq!(parse_program("2147483648"), Program::Opaque);
    assert_eq!(parse_program("99999999999999999999999"), Program::Opaque);
    assert_eq!(parse_program("-5"), Program::Opaque);
    assert_eq!(parse_program("4 2"), Program::Opaque);
    assert_eq!(parse_program("x"), Program::Opaque);
}

#[test]
fn get_or_create_is_idempotent() {
    let mut eva = EvaLLVM::new();
    let a = eva.create_function_proto("main", main_sig());
    let b = eva.create_function_proto("main", main_sig());
    assert_eq!(a.ok(), Some(0));
    assert_eq!(b.ok(), Some(0));
    assert_eq!(eva.module().functions.len(), 1);
    assert!(eva.module().functions[0].blocks.is_empty());
}

#[test]
fn get_or_create_distinct_names() {
    let mut eva = EvaLLVM::new();
    assert_eq!(eva.create_function_proto("a", main_sig()).ok(), Some(0));
    assert_eq!(eva.create_function_proto("b", main_sig()).ok(), Some(1));
    assert_eq!(eva.create_function_proto("a", main_sig()).ok(), Some(0));
    assert_eq!(eva.module().functions.len(), 2);
}

#[test]
fn signature_conflict_is_a_function_error() {
    let mut eva = EvaLLVM::new();
    assert!(eva.create_function_proto("f", main_sig()).is_ok());
    let r = eva.create_function_proto("f", FnSig::new(vec![IrType::I32], IrType::I32));
    match r {
        Err(EvaLLVMError::FunctionError { message, func_name }) => {
            assert_eq!(message, "Function signature conflicts with the existing declaration");
            assert_eq!(func_name, "f");
        }
        _ => panic!("expected a function error"),
    }
    assert_eq!(eva.module().functions.len(), 1);
}

#[test]
fn unterminated_main_fails_compile() {
    let mut eva = EvaLLVM::new();
    assert_eq!(eva.create_function("main", main_sig()).ok(), Some(0));
    assert!(eva.verify(0).is_err());
    let r = eva.compile("42");
    match r {
        Err(EvaLLVMError::FunctionError { message, func_name }) => {
            assert_eq!(message, "Function verification failed");
            assert_eq!(func_name, "main");
        }
        _ => panic!("expected a verification failure"),
    }
    assert_eq!(eva.module().functions[0].blocks.len(), 1);
    assert!(eva.module().functions[0].blocks[0].instrs.is_empty());
}

#[test]
fn create_function_seeds_entry_and_cursor() {
    let mut eva = EvaLLVM::new();
    let f = eva.create_function("g", FnSig::new(vec![IrType::Ptr], IrType::I32)).ok();
    assert_eq!(f, Some(0));
    let c = eva.cursor().unwrap();
    assert_eq!((c.func, c.block), (0, 0));
    assert_eq!(eva.module().functions[0].blocks[0].label, "entry");
}

#[test]
fn compile_twice_adds_second_entry_block() {
    let mut eva = EvaLLVM::new();
    assert!(eva.compile("1").is_ok());
    assert!(eva.compile("2").is_ok());
    let f = &eva.module().functions[0];
    assert_eq!(eva.module().functions.len(), 1);
    assert_eq!(f.blocks.len(), 2);
    assert_eq!(f.blocks[1].instrs, vec![Instr::Return { value: 2 }]);
    assert!(eva.verify(0).is_ok());
}

#[test]
fn return_without_cursor_is_builder_error() {
    let mut eva = EvaLLVM::new();
    match eva.build_return(0) {
        Err(EvaLLVMError::BuilderError(BuilderFault::UnsetPosition)) => {}
        _ => panic!("expected an unset position"),
    }
}

#[test]
fn double_return_is_builder_error() {
    let mut eva = EvaLLVM::new();
    assert!(eva.create_function("f", main_sig()).is_ok());
    assert!(eva.build_return(1).is_ok());
    match eva.build_return(2) {
        Err(EvaLLVMError::BuilderError(BuilderFault::BlockTerminated)) => {}
        _ => panic!("expected a terminated block"),
    }
    assert_eq!(eva.module().functions[0].blocks[0].instrs, vec![Instr::Return { value: 1 }]);
}

#[test]
fn basic_block_and_positioning() {
    let mut eva = EvaLLVM::new();
    assert!(eva.create_function("f", main_sig()).is_ok());
    assert!(eva.build_return(0).is_ok());
    let b = eva.create_basic_block(0, "next");
    assert_eq!(b, 1);
    assert!(eva.verify(0).is_err());
    eva.position_at_end(0, b);
    assert!(eva.build_global_string_ptr("s", "g").is_ok());
    assert!(eva.verify(0).is_err());
    assert!(eva.build_return(3).is_ok());
    assert!(eva.verify(0).is_ok());
}

#[test]
fn extern_printf_is_a_declaration() {
    let mut eva = EvaLLVM::new();
    assert_eq!(eva.setup_extern_functions().ok(), Some(0));
    let f = &eva.module().functions[0];
    assert_eq!(f.name, "printf");
    assert!(f.external);
    assert!(f.blocks.is_empty());
    assert!(eva.verify(0).is_ok());
}

#[test]
fn exec_plans_out_artifacts() {
    let mut eva = EvaLLVM::new();
    let plan = eva.exec("42").ok().unwrap();
    assert_eq!(plan.binary_path, "out.bc");
    assert_eq!(plan.text_path, "out.ll");
    assert_eq!(entry_instrs(&eva), &vec![Instr::Return { value: 42 }]);
}

#[test]
fn exec_after_failed_compile_plans_nothing() {
    let mut eva = EvaLLVM::new();
    assert!(eva.create_function("main", main_sig()).is_ok());
    assert!(eva.exec("42").is_err());
}

#[test]
fn exec_is_deterministic() {
    let mut a = EvaLLVM::new();
    let mut b = EvaLLVM::new();
    assert!(a.exec("42").is_ok());
    assert!(b.exec("42").is_ok());
    assert_eq!(a.module(), b.module());
}

#[test]
fn plan_flush_appends_extensions() {
    let p = plan_flush("build/prog");
    assert_eq!(p.binary_path, "build/prog.bc");
    assert_eq!(p.text_path, "build/prog.ll");
}

#[test]
fn flush_binary_failure_reported_first() {
    let p = plan_flush("out");
    match finish_flush(&p, false, Ok(())) {
        Err(EvaLLVMError::BitcodeWriteError { file }) => assert_eq!(file, "out.bc"),
        _ => panic!("expected a bitcode write error"),
    }
    match finish_flush(&p, false, Err("denied".to_string())) {
        Err(EvaLLVMError::BitcodeWriteError { file }) => assert_eq!(file, "out.bc"),
        _ => panic!("expected a bitcode write error"),
    }
}

#[test]
fn flush_text_failure_and_success() {
    let p = plan_flush("out");
    match finish_flush(&p, true, Err("denied".to_string())) {
        Err(EvaLLVMError::IRWriteError { file, message }) => {
            assert_eq!(file, "out.ll");
            assert_eq!(message, "denied");
        }
        _ => panic!("expected an IR write error"),
    }
    assert!(finish_flush(&p, true, Ok(())).is_ok());
}

#[test]
fn error_messages() {
    let e = EvaLLVMError::BitcodeWriteError { file: "out.bc".to_string() };
    assert_eq!(e.message(), "Failed to write bitcode file 'out.bc'");
    let e = EvaLLVMError::IRWriteError { file: "out.ll".to_string(), message: "no".to_string() };
    assert_eq!(e.message(), "Failed to write LLVM IR file 'out.ll': no");
    let e = EvaLLVMError::FunctionError {
        message: "Function verification failed".to_string(),
        func_name: "main".to_string(),
    };
    assert_eq!(e.message(), "Function verification failed: main");
    let e = EvaLLVMError::BuilderError(BuilderFault::UnsetPosition);
    assert_eq!(e.message(), "Builder error: builder position is not set");
}

#[test]
fn signatures_compare_by_params_and_return() {
    let a = FnSig::new(vec![IrType::I32, IrType::Ptr], IrType::I32);
    let b = FnSig::new(vec![IrType::I32, IrType::Ptr], IrType::I32);
    let c = FnSig::new(vec![IrType::I32], IrType::I32);
    let d = FnSig::new(vec![IrType::I32, IrType::Ptr], IrType::Ptr);
    assert!(a.same_as(&b));
    assert!(!a.same_as(&c));
    assert!(!a.same_as(&d));
}
