use vstd::prelude::*;

verus! {

/// What went wrong inside the instruction-emission primitive.
#[derive(Clone, Copy, PartialEq, Eq, Structural, Debug)]
pub enum BuilderFault {
    /// No insertion cursor has been positioned yet.
    UnsetPosition,
    /// The block under the cursor already ends in a terminator.
    BlockTerminated,
}

/// The failures of the backend.
#[derive(Debug)]
pub enum EvaLLVMError {
    /// The binary artifact could not be written.
    BitcodeWriteError { file: String },
    /// The textual artifact could not be written; `message` holds the cause.
    IRWriteError { file: String, message: String },
    /// A function failed structural verification or conflicts with an
    /// existing declaration.
    FunctionError { message: String, func_name: String },
    /// The instruction-emission primitive was misused.
    BuilderError(BuilderFault),
}

pub type Result<T> = std::result::Result<T, EvaLLVMError>;

/// Mathematical counterpart of [`EvaLLVMError`].
pub ghost enum ErrorModel {
    BitcodeWrite { file: Seq<char> },
    IRWrite { file: Seq<char>, message: Seq<char> },
    Function { message: Seq<char>, func_name: Seq<char> },
    Builder(BuilderFault),
}

impl View for EvaLLVMError {
    type V = ErrorModel;

    open spec fn view(&self) -> ErrorModel {
        match self {
            EvaLLVMError::BitcodeWriteError { file } => ErrorModel::BitcodeWrite { file: file@ },
            EvaLLVMError::IRWriteError { file, message } => ErrorModel::IRWrite {
                file: file@,
                message: message@,
            },
            EvaLLVMError::FunctionError { message, func_name } => ErrorModel::Function {
                message: message@,
                func_name: func_name@,
            },
            EvaLLVMError::BuilderError(f) => ErrorModel::Builder(*f),
        }
    }
}

/// The view of a result of the backend: its error replaced by the model.
pub open spec fn res_view<T>(r: Result<T>) -> std::result::Result<T, ErrorModel> {
    match r {
        Ok(v) => Ok(v),
        Err(e) => Err(e@),
    }
}

/// Message of the error reported when a function fails verification.
pub open spec fn verify_failed_msg() -> Seq<char> {
    "Function verification failed"@
}

/// Message of the error reported when a name is requested again with
/// another signature.
pub open spec fn sig_conflict_msg() -> Seq<char> {
    "Function signature conflicts with the existing declaration"@
}

/// Builds the error reported when function `name` fails verification.
pub fn verify_failed(name: &str) -> (e: EvaLLVMError)
    ensures
        e@ == (ErrorModel::Function { message: verify_failed_msg(), func_name: name@ }),
{
    EvaLLVMError::FunctionError {
        message: String::from_str("Function verification failed"),
        func_name: String::from_str(name),
    }
}

/// Builds the error reported when `name` is requested with a signature that
/// differs from the one it was declared with.
pub fn sig_conflict(name: &str) -> (e: EvaLLVMError)
    ensures
        e@ == (ErrorModel::Function { message: sig_conflict_msg(), func_name: name@ }),
{
    EvaLLVMError::FunctionError {
        message: String::from_str("Function signature conflicts with the existing declaration"),
        func_name: String::from_str(name),
    }
}

/// The one-line rendering of an error.
pub open spec fn message_text(e: ErrorModel) -> Seq<char> {
    match e {
        ErrorModel::BitcodeWrite { file } => "Failed to write bitcode file '"@ + file + "'"@,
        ErrorModel::IRWrite { file, message } => "Failed to write LLVM IR file '"@ + file + "': "@
            + message,
        ErrorModel::Function { message, func_name } => message + ": "@ + func_name,
        ErrorModel::Builder(BuilderFault::UnsetPosition) =>
            "Builder error: builder position is not set"@,
        ErrorModel::Builder(BuilderFault::BlockTerminated) =>
            "Builder error: block is already terminated"@,
    }
}

impl EvaLLVMError {
    /// A one-line rendering of the error, for diagnostics.
    pub fn message(&self) -> (r: String)
        ensures
            r@ == message_text(self@),
    {
        match self {
            EvaLLVMError::BitcodeWriteError { file } => {
                let mut s = String::from_str("Failed to write bitcode file '");
                s.append(file.as_str());
                s.append("'");
                s
            },
            EvaLLVMError::IRWriteError { file, message } => {
                let mut s = String::from_str("Failed to write LLVM IR file '");
                s.append(file.as_str());
                s.append("': ");
                s.append(message.as_str());
                s
            },
            EvaLLVMError::FunctionError { message, func_name } => {
                let mut s = String::from_str(message.as_str());
                s.append(": ");
                s.append(func_name.as_str());
                s
            },
            EvaLLVMError::BuilderError(f) => {
                match f {
                    BuilderFault::UnsetPosition => String::from_str(
                        "Builder error: builder position is not set",
                    ),
                    BuilderFault::BlockTerminated => String::from_str(
                        "Builder error: block is already terminated",
                    ),
                }
            },
        }
    }
}

} // verus!
