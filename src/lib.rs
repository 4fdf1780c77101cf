//! Code-generation backend of a small compiler: an arena model of an IR
//! module (functions, blocks, instructions), a builder facade with an
//! insertion cursor, the lowering of a minimal program grammar, and the
//! planning of the two output artifacts.
pub mod error;
pub mod evallvm;
pub mod ir;
pub mod program;

pub use error::{BuilderFault, EvaLLVMError, Result};
pub use evallvm::{finish_flush, plan_flush, Cursor, EvaLLVM, FlushPlan};
pub use ir::{Block, FnSig, Function, Instr, IrType, Module};
pub use program::{parse_program, Program};
