use vstd::prelude::*;

verus! {

/// The value types of the IR.
#[derive(Clone, Copy, PartialEq, Eq, Structural, Debug)]
pub enum IrType {
    I32,
    Ptr,
}

/// A function signature: ordered parameter types and a return type.
#[derive(Debug, PartialEq, Eq)]
pub struct FnSig {
    pub params: Vec<IrType>,
    pub ret: IrType,
}

pub ghost struct SigModel {
    pub params: Seq<IrType>,
    pub ret: IrType,
}

impl View for FnSig {
    type V = SigModel;

    open spec fn view(&self) -> SigModel {
        SigModel { params: self.params@, ret: self.ret }
    }
}

impl FnSig {
    pub fn new(params: Vec<IrType>, ret: IrType) -> (r: FnSig)
        ensures
            r@ == (SigModel { params: params@, ret }),
    {
        FnSig { params, ret }
    }

    /// Whether two signatures agree in parameters and return type.
    pub fn same_as(&self, other: &FnSig) -> (r: bool)
        ensures
            r == (self@ == other@),
    {
        if self.ret != other.ret || self.params.len() != other.params.len() {
            return false;
        }
        let mut i: usize = 0;
        while i < self.params.len()
            invariant
                self.params@.len() == other.params@.len(),
                i <= self.params@.len(),
                forall|k: int| 0 <= k < i ==> self.params@[k] == other.params@[k],
            decreases self.params@.len() - i,
        {
            if self.params[i] != other.params[i] {
                return false;
            }
            i = i + 1;
        }
        assert(self.params@ =~= other.params@);
        true
    }
}

/// An instruction.
#[derive(Debug, PartialEq, Eq)]
pub enum Instr {
    /// Materializes a global string constant `text` under `name` and yields
    /// a pointer to it.
    GlobalStringPtr { name: String, text: String },
    /// Returns the 32-bit integer constant `value`; a terminator.
    Return { value: i32 },
}

pub ghost enum InstrModel {
    GlobalStringPtr { name: Seq<char>, text: Seq<char> },
    Return { value: i32 },
}

impl View for Instr {
    type V = InstrModel;

    open spec fn view(&self) -> InstrModel {
        match self {
            Instr::GlobalStringPtr { name, text } => InstrModel::GlobalStringPtr {
                name: name@,
                text: text@,
            },
            Instr::Return { value } => InstrModel::Return { value: *value },
        }
    }
}

impl Instr {
    pub fn is_terminator(&self) -> (r: bool)
        ensures
            r == self@ is Return,
    {
        match self {
            Instr::Return { .. } => true,
            _ => false,
        }
    }
}

/// A labelled, ordered sequence of instructions.
#[derive(Debug, PartialEq, Eq)]
pub struct Block {
    pub label: String,
    pub instrs: Vec<Instr>,
}

pub ghost struct BlockModel {
    pub label: Seq<char>,
    pub instrs: Seq<InstrModel>,
}

impl View for Block {
    type V = BlockModel;

    open spec fn view(&self) -> BlockModel {
        BlockModel { label: self.label@, instrs: self.instrs@.map_values(|i: Instr| i@) }
    }
}

/// A named, typed function with its blocks; the first block is its entry.
#[derive(Debug, PartialEq, Eq)]
pub struct Function {
    pub name: String,
    pub sig: FnSig,
    /// Whether the function has external linkage.
    pub external: bool,
    pub blocks: Vec<Block>,
}

pub ghost struct FunctionModel {
    pub name: Seq<char>,
    pub sig: SigModel,
    pub external: bool,
    pub blocks: Seq<BlockModel>,
}

impl View for Function {
    type V = FunctionModel;

    open spec fn view(&self) -> FunctionModel {
        FunctionModel {
            name: self.name@,
            sig: self.sig@,
            external: self.external,
            blocks: self.blocks@.map_values(|b: Block| b@),
        }
    }
}

/// The container of all functions built during one run.
#[derive(Debug, PartialEq, Eq)]
pub struct Module {
    pub name: String,
    pub functions: Vec<Function>,
}

pub ghost struct ModuleModel {
    pub name: Seq<char>,
    pub functions: Seq<FunctionModel>,
}

impl View for Module {
    type V = ModuleModel;

    open spec fn view(&self) -> ModuleModel {
        ModuleModel { name: self.name@, functions: self.functions@.map_values(|f: Function| f@) }
    }
}

/// A block is terminated when it is non-empty, its last instruction is a
/// terminator, and no earlier instruction is one.
pub open spec fn block_terminated(b: BlockModel) -> bool {
    &&& b.instrs.len() > 0
    &&& b.instrs.last() is Return
    &&& forall|k: int| 0 <= k < b.instrs.len() - 1 ==> !(#[trigger] b.instrs[k] is Return)
}

/// A function passes verification when every one of its blocks is
/// terminated (a function without blocks is a declaration).
pub open spec fn function_verified(f: FunctionModel) -> bool {
    forall|i: int| 0 <= i < f.blocks.len() ==> block_terminated(#[trigger] f.blocks[i])
}

/// No two functions share a name.
pub open spec fn names_unique(fs: Seq<FunctionModel>) -> bool {
    forall|i: int, j: int|
        0 <= i < fs.len() && 0 <= j < fs.len() && i != j ==> #[trigger] fs[i].name != #[trigger] fs[j].name
}

/// Some function of `fs` is named `name`.
pub open spec fn has_name(fs: Seq<FunctionModel>, name: Seq<char>) -> bool {
    exists|i: int| 0 <= i < fs.len() && #[trigger] fs[i].name == name
}

/// The position of the function named `name`, where there is one.
pub open spec fn index_of(fs: Seq<FunctionModel>, name: Seq<char>) -> Option<int> {
    if has_name(fs, name) {
        Some(choose|i: int| 0 <= i < fs.len() && #[trigger] fs[i].name == name)
    } else {
        None
    }
}

/// A fresh declaration: no blocks, default linkage.
pub open spec fn declaration(name: Seq<char>, sig: SigModel) -> FunctionModel {
    FunctionModel { name, sig, external: false, blocks: Seq::empty() }
}

/// `fs` with a new empty block labelled `label` appended to function `f`.
pub open spec fn with_block(fs: Seq<FunctionModel>, f: int, label: Seq<char>) -> Seq<FunctionModel> {
    fs.update(
        f,
        FunctionModel {
            blocks: fs[f].blocks.push(BlockModel { label, instrs: Seq::empty() }),
            ..fs[f]
        },
    )
}

/// `fs` with instruction `i` appended to block `b` of function `f`.
pub open spec fn with_instr(fs: Seq<FunctionModel>, f: int, b: int, i: InstrModel) -> Seq<
    FunctionModel,
> {
    fs.update(
        f,
        FunctionModel {
            blocks: fs[f].blocks.update(
                b,
                BlockModel { instrs: fs[f].blocks[b].instrs.push(i), ..fs[f].blocks[b] },
            ),
            ..fs[f]
        },
    )
}

/// Whether `i` is a position of the function that `index_of` picks.
pub proof fn lemma_index_of(fs: Seq<FunctionModel>, name: Seq<char>, i: int)
    requires
        names_unique(fs),
        0 <= i < fs.len(),
        fs[i].name == name,
    ensures
        index_of(fs, name) == Some(i),
{
    assert(has_name(fs, name));
}

impl Module {
    /// An empty module named `name`.
    pub fn new(name: &str) -> (r: Module)
        ensures
            r@ == (ModuleModel { name: name@, functions: Seq::empty() }),
    {
        let r = Module { name: String::from_str(name), functions: Vec::new() };
        assert(r@.functions =~= Seq::<FunctionModel>::empty());
        r
    }

    /// The position of the function named `name`, if any.
    pub fn get_function(&self, name: &str) -> (r: Option<usize>)
        ensures
            match r {
                Some(i) => i < self@.functions.len() && self@.functions[i as int].name == name@,
                None => !has_name(self@.functions, name@),
            },
    {
        let key = String::from_str(name);
        let mut i: usize = 0;
        while i < self.functions.len()
            invariant
                key@ == name@,
                i <= self.functions@.len(),
                forall|k: int| 0 <= k < i ==> #[trigger] self@.functions[k].name != name@,
            decreases self.functions@.len() - i,
        {
            assert(self@.functions[i as int] == self.functions@[i as int]@);
            if self.functions[i].name == key {
                return Some(i);
            }
            i = i + 1;
        }
        None
    }

    /// Appends a declaration of `name` with signature `sig`; `name` must be new.
    pub fn add_function(&mut self, name: &str, sig: FnSig) -> (r: usize)
        requires
            !has_name(old(self)@.functions, name@),
        ensures
            final(self)@ == (ModuleModel {
                functions: old(self)@.functions.push(declaration(name@, sig@)),
                ..old(self)@
            }),
            r == old(self)@.functions.len(),
    {
        let f = Function { name: String::from_str(name), sig, external: false, blocks: Vec::new() };
        assert(f@.blocks =~= Seq::<BlockModel>::empty());
        self.functions.push(f);
        assert(self@.functions =~= old(self)@.functions.push(declaration(name@, f@.sig)));
        self.functions.len() - 1
    }

    /// Whether every block of function `f` is terminated.
    pub fn verify_function(&self, f: usize) -> (r: bool)
        requires
            f < self@.functions.len(),
        ensures
            r == function_verified(self@.functions[f as int]),
    {
        let func = &self.functions[f];
        let ghost fm = self@.functions[f as int];
        assert(fm == func@);
        let mut i: usize = 0;
        while i < func.blocks.len()
            invariant
                fm == func@,
                fm == self@.functions[f as int],
                fm.blocks.len() == func.blocks@.len(),
                i <= func.blocks@.len(),
                forall|k: int| 0 <= k < i ==> block_terminated(#[trigger] fm.blocks[k]),
            decreases func.blocks@.len() - i,
        {
            let b = &func.blocks[i];
            let ghost bm = fm.blocks[i as int];
            assert(bm == b@);
            assert(bm.instrs.len() == b.instrs@.len());
            let n = b.instrs.len();
            if n == 0 {
                assert(!block_terminated(fm.blocks[i as int]));
                return false;
            }
            let mut k: usize = 0;
            while k < n - 1
                invariant
                    bm == b@,
                    bm == fm.blocks[i as int],
                    fm == self@.functions[f as int],
                    i < fm.blocks.len(),
                    n == b.instrs@.len(),
                    n == bm.instrs.len(),
                    n > 0,
                    k <= n - 1,
                    forall|j: int| 0 <= j < k ==> !(#[trigger] bm.instrs[j] is Return),
                decreases n - 1 - k,
            {
                assert(bm.instrs[k as int] == b.instrs@[k as int]@);
                if b.instrs[k].is_terminator() {
                    assert(!block_terminated(fm.blocks[i as int]));
                    return false;
                }
                k = k + 1;
            }
            assert(bm.instrs[n - 1] == b.instrs@[n - 1]@);
            if !b.instrs[n - 1].is_terminator() {
                assert(!block_terminated(fm.blocks[i as int]));
                return false;
            }
            assert(block_terminated(bm));
            i = i + 1;
        }
        true
    }

    /// Appends an empty block labelled `label` to function `f`; returns its
    /// position.
    pub fn append_block(&mut self, f: usize, label: &str) -> (r: usize)
        requires
            f < old(self)@.functions.len(),
        ensures
            final(self)@ == (ModuleModel {
                functions: with_block(old(self)@.functions, f as int, label@),
                ..old(self)@
            }),
            r == old(self)@.functions[f as int].blocks.len(),
    {
        let mut func = self.functions.remove(f);
        let b = Block { label: String::from_str(label), instrs: Vec::new() };
        assert(b@.instrs =~= Seq::<InstrModel>::empty());
        let r = func.blocks.len();
        func.blocks.push(b);
        let ghost fv = func@;
        self.functions.insert(f, func);
        assert(fv.blocks =~= old(self)@.functions[f as int].blocks.push(b@));
        assert(self@.functions =~= with_block(old(self)@.functions, f as int, label@));
        r
    }

    /// Appends `i` to block `b` of function `f`.
    pub fn append_instr(&mut self, f: usize, b: usize, i: Instr)
        requires
            f < old(self)@.functions.len(),
            b < old(self)@.functions[f as int].blocks.len(),
        ensures
            final(self)@ == (ModuleModel {
                functions: with_instr(old(self)@.functions, f as int, b as int, i@),
                ..old(self)@
            }),
    {
        let ghost iv = i@;
        let mut func = self.functions.remove(f);
        let mut blk = func.blocks.remove(b);
        blk.instrs.push(i);
        let ghost bv = blk@;
        assert(bv.instrs =~= old(self)@.functions[f as int].blocks[b as int].instrs.push(iv));
        func.blocks.insert(b, blk);
        let ghost fv = func@;
        assert(fv.blocks =~= old(self)@.functions[f as int].blocks.update(b as int, bv));
        self.functions.insert(f, func);
        assert(self@.functions =~= with_instr(old(self)@.functions, f as int, b as int, iv));
    }

    /// Gives function `f` external linkage.
    pub fn set_external(&mut self, f: usize)
        requires
            f < old(self)@.functions.len(),
        ensures
            final(self)@ == (ModuleModel {
                functions: old(self)@.functions.update(
                    f as int,
                    FunctionModel { external: true, ..old(self)@.functions[f as int] },
                ),
                ..old(self)@
            }),
    {
        let mut func = self.functions.remove(f);
        func.external = true;
        let ghost fv = func@;
        self.functions.insert(f, func);
        assert(self@.functions =~= old(self)@.functions.update(f as int, fv));
    }
}

/// Appending a function under a fresh name keeps names unique.
pub proof fn lemma_push_fresh(fs: Seq<FunctionModel>, f: FunctionModel)
    requires
        names_unique(fs),
        !has_name(fs, f.name),
    ensures
        names_unique(fs.push(f)),
{
    let nfs = fs.push(f);
    assert forall|a: int, b: int|
        0 <= a < nfs.len() && 0 <= b < nfs.len() && a != b implies #[trigger] nfs[a].name
        != #[trigger] nfs[b].name by {
        if a < fs.len() && b < fs.len() {
            assert(fs[a] == nfs[a] && fs[b] == nfs[b]);
        } else if a < fs.len() {
            assert(fs[a] == nfs[a]);
        } else {
            assert(fs[b] == nfs[b]);
        }
    }
}

/// Replacing a function by one of the same name keeps names unique.
pub proof fn lemma_update_same_name(fs: Seq<FunctionModel>, i: int, f: FunctionModel)
    requires
        names_unique(fs),
        0 <= i < fs.len(),
        f.name == fs[i].name,
    ensures
        names_unique(fs.update(i, f)),
{
    let nfs = fs.update(i, f);
    assert forall|a: int, b: int|
        0 <= a < nfs.len() && 0 <= b < nfs.len() && a != b implies #[trigger] nfs[a].name
        != #[trigger] nfs[b].name by {
        assert(nfs[a].name == fs[a].name && nfs[b].name == fs[b].name);
    }
}

} // verus!
