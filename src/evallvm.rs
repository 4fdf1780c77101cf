use vstd::prelude::*;
use vstd::string::StringSliceAdditionalSpecFns;
use crate::error::{
    res_view, sig_conflict, sig_conflict_msg, verify_failed, verify_failed_msg, BuilderFault,
    ErrorModel, EvaLLVMError, Result,
};
use crate::ir::{
    block_terminated, declaration, function_verified, index_of, lemma_index_of, lemma_push_fresh,
    lemma_update_same_name, names_unique, with_block, with_instr, BlockModel, FnSig,
    FunctionModel, Instr, InstrModel, IrType, Module, ModuleModel, SigModel,
};
use crate::program::{classify, parse_program, Program};

verus! {

/// The insertion cursor: new instructions go to the end of block `block` of
/// function `func`.
#[derive(Clone, Copy, PartialEq, Eq, Structural, Debug)]
pub struct Cursor {
    pub func: usize,
    pub block: usize,
}

/// The abstract state of a builder.
pub ghost struct EvaState {
    pub module: ModuleModel,
    pub cursor: Option<Cursor>,
    /// The function whose body is being built.
    pub function: Option<usize>,
}

/// The builder: one module, one insertion cursor, one current function.
pub struct EvaLLVM {
    module: Module,
    cursor: Option<Cursor>,
    function: Option<usize>,
}

impl View for EvaLLVM {
    type V = EvaState;

    closed spec fn view(&self) -> EvaState {
        EvaState { module: self.module@, cursor: self.cursor, function: self.function }
    }
}

/// Function names are unique, and the cursor and the current function point
/// into the module.
pub open spec fn state_wf(s: EvaState) -> bool {
    let fs = s.module.functions;
    &&& names_unique(fs)
    &&& match s.cursor {
        Some(c) => c.func < fs.len() && c.block < fs[c.func as int].blocks.len(),
        None => true,
    }
    &&& match s.function {
        Some(f) => f < fs.len(),
        None => true,
    }
}

/// `s` with its function table replaced by `fs`.
pub open spec fn with_functions(s: EvaState, fs: Seq<FunctionModel>) -> EvaState {
    EvaState { module: ModuleModel { functions: fs, ..s.module }, ..s }
}

/// Get-or-create of a function: the table after the request and its outcome.
/// An existing function of that name is returned if its signature matches
/// and it passes verification; a new name is declared.
pub open spec fn declare(fs: Seq<FunctionModel>, name: Seq<char>, sig: SigModel) -> (
    Seq<FunctionModel>,
    std::result::Result<usize, ErrorModel>,
) {
    match index_of(fs, name) {
        Some(i) => (
            fs,
            if fs[i].sig != sig {
                Err(ErrorModel::Function { message: sig_conflict_msg(), func_name: name })
            } else if !function_verified(fs[i]) {
                Err(ErrorModel::Function { message: verify_failed_msg(), func_name: name })
            } else {
                Ok(i as usize)
            },
        ),
        None => (fs.push(declaration(name, sig)), Ok(fs.len() as usize)),
    }
}

/// Get-or-create followed by seeding an entry block and placing the cursor
/// at its end.
pub open spec fn create(s: EvaState, name: Seq<char>, sig: SigModel) -> (
    EvaState,
    std::result::Result<usize, ErrorModel>,
) {
    let d = declare(s.module.functions, name, sig);
    match d.1 {
        Ok(i) => (
            EvaState {
                cursor: Some(Cursor { func: i, block: d.0[i as int].blocks.len() as usize }),
                ..with_functions(s, with_block(d.0, i as int, "entry"@))
            },
            Ok(i),
        ),
        Err(e) => (with_functions(s, d.0), Err(e)),
    }
}

/// The block ends in a terminator already.
pub open spec fn ends_terminated(b: BlockModel) -> bool {
    b.instrs.len() > 0 && b.instrs.last() is Return
}

/// Emission of `i` at the cursor.
pub open spec fn emit(s: EvaState, i: InstrModel) -> (EvaState, std::result::Result<(), ErrorModel>) {
    match s.cursor {
        None => (s, Err(ErrorModel::Builder(BuilderFault::UnsetPosition))),
        Some(c) => if ends_terminated(s.module.functions[c.func as int].blocks[c.block as int]) {
            (s, Err(ErrorModel::Builder(BuilderFault::BlockTerminated)))
        } else {
            (
                with_functions(
                    s,
                    with_instr(s.module.functions, c.func as int, c.block as int, i),
                ),
                Ok(()),
            )
        },
    }
}

/// The signature of the entry function: no parameters, a 32-bit result.
pub open spec fn main_sig() -> SigModel {
    SigModel { params: Seq::empty(), ret: IrType::I32 }
}

/// The global string that the greeting program materializes.
pub open spec fn greeting() -> InstrModel {
    InstrModel::GlobalStringPtr { name: "hello_world"@, text: "Hello, world!\n"@ }
}

/// The value that the entry function returns for a program.
pub open spec fn result_value(p: Program) -> i32 {
    match p {
        Program::Literal(n) => n,
        _ => 0,
    }
}

/// The instructions of the entry block for a program.
pub open spec fn lowered(p: Program) -> Seq<InstrModel> {
    match p {
        Program::Opaque => seq![greeting(), InstrModel::Return { value: 0 }],
        _ => seq![InstrModel::Return { value: result_value(p) }],
    }
}

/// Compilation of the program whose UTF-8 encoding is `prog`: get-or-create
/// `main`; on success `main` gains an entry block holding the lowered body
/// and its return, and becomes the current function. On failure nothing
/// changes.
pub open spec fn compile_spec(s: EvaState, prog: Seq<u8>) -> (
    EvaState,
    std::result::Result<(), ErrorModel>,
) {
    let d = declare(s.module.functions, "main"@, main_sig());
    match d.1 {
        Ok(i) => {
            let f = d.0[i as int];
            let entry = BlockModel { label: "entry"@, instrs: lowered(classify(prog)) };
            (
                EvaState {
                    module: ModuleModel {
                        functions: d.0.update(
                            i as int,
                            FunctionModel { blocks: f.blocks.push(entry), ..f },
                        ),
                        ..s.module
                    },
                    cursor: Some(Cursor { func: i, block: f.blocks.len() as usize }),
                    function: Some(i),
                },
                Ok(()),
            )
        },
        Err(e) => (s, Err(e)),
    }
}

/// Where the two artifacts of one flush go.
pub struct FlushPlan {
    /// `<base>.bc`, the binary encoding.
    pub binary_path: String,
    /// `<base>.ll`, the textual encoding.
    pub text_path: String,
}

/// The paths of the artifacts for base name `file`.
pub fn plan_flush(file: &str) -> (r: FlushPlan)
    ensures
        r.binary_path@ == file@ + ".bc"@,
        r.text_path@ == file@ + ".ll"@,
{
    let mut binary_path = String::from_str(file);
    binary_path.append(".bc");
    let mut text_path = String::from_str(file);
    text_path.append(".ll");
    FlushPlan { binary_path, text_path }
}

/// The outcome of a flush once both writes have been attempted: the first
/// failure, binary before text, or success.
pub fn finish_flush(plan: &FlushPlan, binary_written: bool, text_written: std::result::Result<
    (),
    String,
>) -> (r: Result<()>)
    ensures
        !binary_written ==> res_view(r) == Err::<(), _>(
            ErrorModel::BitcodeWrite { file: plan.binary_path@ },
        ),
        binary_written ==> match text_written {
            Ok(()) => r is Ok,
            Err(m) => res_view(r) == Err::<(), _>(
                ErrorModel::IRWrite { file: plan.text_path@, message: m@ },
            ),
        },
{
    if !binary_written {
        return Err(EvaLLVMError::BitcodeWriteError { file: plan.binary_path.clone() });
    }
    match text_written {
        Ok(()) => Ok(()),
        Err(m) => Err(EvaLLVMError::IRWriteError { file: plan.text_path.clone(), message: m }),
    }
}

impl EvaLLVM {
    pub open spec fn wf(&self) -> bool {
        state_wf(self@)
    }

    /// A builder over an empty module named "evallvm", with no cursor and no
    /// current function.
    pub fn new() -> (r: EvaLLVM)
        ensures
            r.wf(),
            r@ == (EvaState {
                module: ModuleModel { name: "evallvm"@, functions: Seq::empty() },
                cursor: None,
                function: None,
            }),
    {
        EvaLLVM { module: Module::new("evallvm"), cursor: None, function: None }
    }

    /// The module built so far.
    pub fn module(&self) -> (r: &Module)
        ensures
            r@ == self@.module,
    {
        &self.module
    }

    /// The insertion cursor.
    pub fn cursor(&self) -> (r: Option<Cursor>)
        ensures
            r == self@.cursor,
    {
        self.cursor
    }

    /// The function whose body is being built.
    pub fn current_function(&self) -> (r: Option<usize>)
        ensures
            r == self@.function,
    {
        self.function
    }

    /// Structural verification of function `f`.
    pub fn verify(&self, f: usize) -> (r: Result<()>)
        requires
            f < self@.module.functions.len(),
        ensures
            res_view(r) == if function_verified(self@.module.functions[f as int]) {
                Ok(())
            } else {
                Err(
                    ErrorModel::Function {
                        message: verify_failed_msg(),
                        func_name: self@.module.functions[f as int].name,
                    },
                )
            },
    {
        if self.module.verify_function(f) {
            Ok(())
        } else {
            Err(verify_failed(self.module.functions[f].name.as_str()))
        }
    }

    /// Returns the function named `fn_name`, declaring it with `fn_type` if
    /// the name is new, and verifies it.
    pub fn create_function_proto(&mut self, fn_name: &str, fn_type: FnSig) -> (r: Result<usize>)
        requires
            old(self).wf(),
        ensures
            final(self).wf(),
            final(self)@ == with_functions(
                old(self)@,
                declare(old(self)@.module.functions, fn_name@, fn_type@).0,
            ),
            res_view(r) == declare(old(self)@.module.functions, fn_name@, fn_type@).1,
    {
        let ghost fs = old(self)@.module.functions;
        let ghost sig = fn_type@;
        let idx = match self.module.get_function(fn_name) {
            Some(i) => {
                proof {
                    lemma_index_of(fs, fn_name@, i as int);
                }
                if !self.module.functions[i].sig.same_as(&fn_type) {
                    return Err(sig_conflict(fn_name));
                }
                i
            },
            None => {
                let i = self.module.add_function(fn_name, fn_type);
                proof {
                    lemma_push_fresh(fs, declaration(fn_name@, sig));
                }
                i
            },
        };
        match self.verify(idx) {
            Ok(()) => Ok(idx),
            Err(_) => Err(verify_failed(fn_name)),
        }
    }

    /// Returns the function named `fn_name` as `create_function_proto` does,
    /// then gives it a new entry block and places the cursor at its end.
    pub fn create_function(&mut self, fn_name: &str, fn_type: FnSig) -> (r: Result<usize>)
        requires
            old(self).wf(),
        ensures
            final(self).wf(),
            final(self)@ == create(old(self)@, fn_name@, fn_type@).0,
            res_view(r) == create(old(self)@, fn_name@, fn_type@).1,
    {
        let fn_val = self.create_function_proto(fn_name, fn_type)?;
        self.create_function_block(fn_val)?;
        Ok(fn_val)
    }

    /// Declares the external `printf`, taking nothing and returning a 32-bit
    /// integer, and gives it external linkage.
    pub fn setup_extern_functions(&mut self) -> (r: Result<usize>)
        requires
            old(self).wf(),
        ensures
            final(self).wf(),
            ({
                let d = declare(old(self)@.module.functions, "printf"@, main_sig());
                match d.1 {
                    Ok(i) => res_view(r) == Ok::<usize, ErrorModel>(i) && final(self)@
                        == with_functions(
                        old(self)@,
                        d.0.update(i as int, FunctionModel { external: true, ..d.0[i as int] }),
                    ),
                    Err(e) => res_view(r) == Err::<usize, ErrorModel>(e) && final(self)@
                        == old(self)@,
                }
            }),
    {
        let fn_type = FnSig::new(Vec::new(), IrType::I32);
        assert(fn_type@.params =~= main_sig().params);
        let fn_val = self.create_function_proto("printf", fn_type)?;
        self.module.set_external(fn_val);
        Ok(fn_val)
    }

    /// Appends an empty block labelled `block_name` to function `parent`.
    pub fn create_basic_block(&mut self, parent: usize, block_name: &str) -> (r: usize)
        requires
            old(self).wf(),
            parent < old(self)@.module.functions.len(),
        ensures
            final(self).wf(),
            final(self)@ == with_functions(
                old(self)@,
                with_block(old(self)@.module.functions, parent as int, block_name@),
            ),
            r == old(self)@.module.functions[parent as int].blocks.len(),
    {
        let r = self.module.append_block(parent, block_name);
        proof {
            let ofs = old(self)@.module.functions;
            lemma_update_same_name(ofs, parent as int, self@.module.functions[parent as int]);
        }
        r
    }

    /// Places the cursor at the end of block `block` of function `func`.
    pub fn position_at_end(&mut self, func: usize, block: usize)
        requires
            old(self).wf(),
            func < old(self)@.module.functions.len(),
            block < old(self)@.module.functions[func as int].blocks.len(),
        ensures
            final(self).wf(),
            final(self)@ == (EvaState { cursor: Some(Cursor { func, block }), ..old(self)@ }),
    {
        self.cursor = Some(Cursor { func, block });
    }

    /// Appends the entry block to function `parent` and places the cursor at
    /// its end.
    pub fn create_function_block(&mut self, parent: usize) -> (r: Result<()>)
        requires
            old(self).wf(),
            parent < old(self)@.module.functions.len(),
        ensures
            final(self).wf(),
            r is Ok,
            final(self)@ == (EvaState {
                cursor: Some(
                    Cursor {
                        func: parent,
                        block: old(self)@.module.functions[parent as int].blocks.len() as usize,
                    },
                ),
                ..with_functions(
                    old(self)@,
                    with_block(old(self)@.module.functions, parent as int, "entry"@),
                )
            }),
    {
        let block = self.create_basic_block(parent, "entry");
        self.position_at_end(parent, block);
        Ok(())
    }

    /// Appends `instr` at the cursor, unless there is no cursor or its block
    /// is already terminated.
    pub fn emit(&mut self, instr: Instr) -> (r: Result<()>)
        requires
            old(self).wf(),
        ensures
            final(self).wf(),
            final(self)@ == emit(old(self)@, instr@).0,
            res_view(r) == emit(old(self)@, instr@).1,
    {
        let c = match self.cursor {
            None => {
                return Err(EvaLLVMError::BuilderError(BuilderFault::UnsetPosition));
            },
            Some(c) => c,
        };
        let ghost bm = self@.module.functions[c.func as int].blocks[c.block as int];
        let blk = &self.module.functions[c.func].blocks[c.block];
        assert(self.module.functions@[c.func as int]@.blocks[c.block as int] == blk@);
        let n = blk.instrs.len();
        if n > 0 && blk.instrs[n - 1].is_terminator() {
            return Err(EvaLLVMError::BuilderError(BuilderFault::BlockTerminated));
        }
        assert(!ends_terminated(bm));
        self.module.append_instr(c.func, c.block, instr);
        proof {
            let ofs = old(self)@.module.functions;
            lemma_update_same_name(ofs, c.func as int, self@.module.functions[c.func as int]);
        }
        Ok(())
    }

    /// Emits a return of the 32-bit constant `value` at the cursor.
    pub fn build_return(&mut self, value: i32) -> (r: Result<()>)
        requires
            old(self).wf(),
        ensures
            final(self).wf(),
            final(self)@ == emit(old(self)@, InstrModel::Return { value }).0,
            res_view(r) == emit(old(self)@, InstrModel::Return { value }).1,
    {
        self.emit(Instr::Return { value })
    }

    /// Emits, at the cursor, a global string constant `text` named `name`.
    pub fn build_global_string_ptr(&mut self, text: &str, name: &str) -> (r: Result<()>)
        requires
            old(self).wf(),
        ensures
            final(self).wf(),
            final(self)@ == emit(
                old(self)@,
                InstrModel::GlobalStringPtr { name: name@, text: text@ },
            ).0,
            res_view(r) == emit(
                old(self)@,
                InstrModel::GlobalStringPtr { name: name@, text: text@ },
            ).1,
    {
        self.emit(
            Instr::GlobalStringPtr { name: String::from_str(name), text: String::from_str(text) },
        )
    }

    /// Lowers the body of `program` at the cursor and returns the value the
    /// entry function is to return.
    fn gen(&mut self, program: &str) -> (r: Result<i32>)
        requires
            old(self).wf(),
            old(self)@.cursor is Some,
            !ends_terminated(
                old(self)@.module.functions[old(self)@.cursor->0.func as int].blocks[old(
                    self,
                )@.cursor->0.block as int],
            ),
        ensures
            final(self).wf(),
            res_view(r) == Ok::<i32, ErrorModel>(result_value(classify(program.spec_bytes()))),
            classify(program.spec_bytes()) is Opaque ==> final(self)@ == emit(
                old(self)@,
                greeting(),
            ).0,
            !(classify(program.spec_bytes()) is Opaque) ==> final(self)@ == old(self)@,
    {
        match parse_program(program) {
            Program::Literal(n) => Ok(n),
            Program::Empty => Ok(0),
            Program::Opaque => {
                self.build_global_string_ptr("Hello, world!\n", "hello_world")?;
                Ok(0)
            },
        }
    }

    /// Compiles `program` into the entry function `main`: gets or creates
    /// `main` (no parameters, 32-bit result), seeds its entry block, lowers
    /// the program there, terminates the block with a return, and verifies
    /// `main`.
    pub fn compile(&mut self, program: &str) -> (r: Result<()>)
        requires
            old(self).wf(),
        ensures
            final(self).wf(),
            final(self)@ == compile_spec(old(self)@, program.spec_bytes()).0,
            res_view(r) == compile_spec(old(self)@, program.spec_bytes()).1,
    {
        let ghost s0 = self@;
        let ghost prog = program.spec_bytes();
        let ghost d = declare(s0.module.functions, "main"@, main_sig());
        let fn_type = FnSig::new(Vec::new(), IrType::I32);
        assert(fn_type@ == main_sig()) by {
            assert(fn_type@.params =~= main_sig().params);
        }
        let fn_main = self.create_function("main", fn_type)?;
        // The length of the function table fits in `usize`, so the position
        // that get-or-create reports is exact.
        let n_fns = self.module.functions.len();
        assert(n_fns as int == s0.module.functions.len() || n_fns as int
            == s0.module.functions.len() + 1);
        let ghost i = fn_main as int;
        let ghost f0 = d.0[i];
        let ghost nb = f0.blocks.len() as int;
        proof {
            assert(create(s0, "main"@, main_sig()).1 == Ok::<usize, ErrorModel>(fn_main));
            assert(d.1 == Ok::<usize, ErrorModel>(fn_main));
            if index_of(s0.module.functions, "main"@) is None {
                assert(d.0[i] == declaration("main"@, main_sig()));
            }
            assert(function_verified(f0));
            assert(self@.module.functions[i].blocks == f0.blocks.push(
                BlockModel { label: "entry"@, instrs: Seq::empty() },
            ));
        }
        let nblocks = self.module.functions[fn_main].blocks.len();
        assert(nblocks as int == nb + 1);
        self.function = Some(fn_main);
        let ghost s1 = self@;
        assert(s1.cursor == Some(Cursor { func: fn_main, block: nb as usize }));
        assert(s1.module.functions[i].blocks[nb].instrs.len() == 0);
        let result = self.gen(program)?;
        let ghost s2 = self@;
        let ghost body = if classify(prog) is Opaque {
            seq![greeting()]
        } else {
            Seq::<InstrModel>::empty()
        };
        proof {
            assert(s2.module.functions[i].blocks[nb].instrs =~= body);
            assert(s2.module.functions[i].blocks =~= f0.blocks.push(
                BlockModel { label: "entry"@, instrs: body },
            ));
            assert(!ends_terminated(s2.module.functions[i].blocks[nb]));
            assert(s2.cursor == s1.cursor);
        }
        self.build_return(result)?;
        let ghost s3 = self@;
        let ghost entry = BlockModel { label: "entry"@, instrs: lowered(classify(prog)) };
        proof {
            assert(s3.module.functions[i].blocks[nb].instrs =~= entry.instrs);
            assert(s3.module.functions[i].blocks =~= f0.blocks.push(entry));
            assert(s3.module.functions =~= d.0.update(
                i,
                FunctionModel { blocks: f0.blocks.push(entry), ..f0 },
            ));
            let fm = s3.module.functions[i];
            assert forall|k: int| 0 <= k < fm.blocks.len() implies block_terminated(
                #[trigger] fm.blocks[k],
            ) by {
                if k < nb {
                    assert(fm.blocks[k] == f0.blocks[k]);
                }
            }
        }
        self.verify(fn_main)?;
        Ok(())
    }

    /// Compiles `program` and, on success, returns where the artifacts of
    /// base name "out" are to be written; nothing is to be written when
    /// compilation fails.
    pub fn exec(&mut self, program: &str) -> (r: Result<FlushPlan>)
        requires
            old(self).wf(),
        ensures
            final(self).wf(),
            final(self)@ == compile_spec(old(self)@, program.spec_bytes()).0,
            match r {
                Ok(p) => compile_spec(old(self)@, program.spec_bytes()).1 is Ok
                    && p.binary_path@ == "out.bc"@ && p.text_path@ == "out.ll"@,
                Err(e) => compile_spec(old(self)@, program.spec_bytes()).1 == Err::<(), ErrorModel>(
                    e@,
                ),
            },
    {
        self.compile(program)?;
        let p = plan_flush("out");
        proof {
            reveal_strlit("out");
            reveal_strlit(".bc");
            reveal_strlit(".ll");
            reveal_strlit("out.bc");
            reveal_strlit("out.ll");
            assert(p.binary_path@ =~= "out.bc"@);
            assert(p.text_path@ =~= "out.ll"@);
        }
        Ok(p)
    }
}

/// Get-or-create is idempotent: a second request with the same name and
/// signature returns the same function and changes nothing.
pub proof fn lemma_declare_idempotent(fs: Seq<FunctionModel>, name: Seq<char>, sig: SigModel)
    requires
        names_unique(fs),
        declare(fs, name, sig).1 is Ok,
    ensures
        declare(declare(fs, name, sig).0, name, sig) == declare(fs, name, sig),
{
    if index_of(fs, name) is None {
        let nfs = fs.push(declaration(name, sig));
        lemma_push_fresh(fs, declaration(name, sig));
        lemma_index_of(nfs, name, fs.len() as int);
        assert(function_verified(nfs[fs.len() as int]));
    }
}

/// Compilation either succeeds, leaving exactly one function named "main",
/// current, verified, and ending in a block that returns, with names still
/// unique; or fails with a function error and leaves the state unchanged.
pub proof fn lemma_compile_outcome(s: EvaState, prog: Seq<u8>)
    requires
        state_wf(s),
        s.module.functions.len() < usize::MAX,
    ensures
        ({
            let (t, r) = compile_spec(s, prog);
            let fs = t.module.functions;
            names_unique(fs) && match r {
                Ok(()) => {
                    let m = index_of(fs, "main"@);
                    &&& m is Some
                    &&& forall|j: int| 0 <= j < fs.len() && #[trigger] fs[j].name == "main"@ ==> j == m->0
                    &&& t.function == Some(m->0 as usize)
                    &&& function_verified(fs[m->0])
                    &&& fs[m->0].blocks.len() > 0
                    &&& ends_terminated(fs[m->0].blocks.last())
                },
                Err(e) => t == s && e is Function,
            }
        }),
{
    let fs0 = s.module.functions;
    let d = declare(fs0, "main"@, main_sig());
    if index_of(fs0, "main"@) is None {
        lemma_push_fresh(fs0, declaration("main"@, main_sig()));
        lemma_index_of(d.0, "main"@, fs0.len() as int);
    }
    if let Ok(i) = d.1 {
        let i = i as int;
        assert(i == index_of(d.0, "main"@)->0);
        let f0 = d.0[i];
        assert(function_verified(f0));
        let entry = BlockModel { label: "entry"@, instrs: lowered(classify(prog)) };
        let f1 = FunctionModel { blocks: f0.blocks.push(entry), ..f0 };
        let fs = d.0.update(i, f1);
        lemma_update_same_name(d.0, i, f1);
        lemma_index_of(fs, "main"@, i);
        assert(block_terminated(entry));
        assert forall|k: int| 0 <= k < f1.blocks.len() implies block_terminated(
            #[trigger] f1.blocks[k],
        ) by {
            if k < f0.blocks.len() {
                assert(f1.blocks[k] == f0.blocks[k]);
            }
        }
    }
}

/// A "main" that already exists with the entry signature but does not pass
/// verification (a block without its terminator) makes compilation fail
/// with a verification error, changing nothing.
pub proof fn lemma_unterminated_main_rejected(s: EvaState, prog: Seq<u8>, i: int)
    requires
        names_unique(s.module.functions),
        0 <= i < s.module.functions.len(),
        s.module.functions[i].name == "main"@,
        s.module.functions[i].sig == main_sig(),
        !function_verified(s.module.functions[i]),
    ensures
        compile_spec(s, prog) == (
            s,
            Err::<(), ErrorModel>(
                ErrorModel::Function { message: verify_failed_msg(), func_name: "main"@ },
            ),
        ),
{
    lemma_index_of(s.module.functions, "main"@, i);
}

} // verus!
