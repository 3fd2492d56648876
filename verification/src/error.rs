//! The error values that building and materialization can return.

use vstd::prelude::*;
use vstd::string::StringExecFns;

verus! {

/// An error raised by a builder or by the just-in-time materializer.
#[derive(Debug, Clone)]
pub enum CodeGenLibError {
    /// A name was used that the current function's variable table lacks.
    VarNotExist(String),
    /// A name was used that the current module's function table lacks.
    FuncNotExist(String),
    /// Materialization was asked of a function that still carries unresolved
    /// references to outside symbols.
    JitFunctionsNoExtern,
}

/// The text of an error message.
pub open spec fn spec_error_msg(e: CodeGenLibError) -> Seq<char> {
    match e {
        CodeGenLibError::VarNotExist(x) => "var "@ + x@ + " doesn't exits"@,
        CodeGenLibError::FuncNotExist(x) => "func "@ + x@ + " doesn't exits"@,
        CodeGenLibError::JitFunctionsNoExtern => "function still has unresolved references"@,
    }
}

impl CodeGenLibError {
    /// A human readable description of the error.
    pub fn msg(&self) -> (r: String)
        ensures
            r@ == spec_error_msg(*self),
    {
        match self {
            CodeGenLibError::VarNotExist(x) => {
                let mut s = String::from_str("var ");
                s.append(x.as_str());
                s.append(" doesn't exits");
                s
            },
            CodeGenLibError::FuncNotExist(x) => {
                let mut s = String::from_str("func ");
                s.append(x.as_str());
                s.append(" doesn't exits");
                s
            },
            CodeGenLibError::JitFunctionsNoExtern => {
                String::from_str("function still has unresolved references")
            },
        }
    }
}

} // verus!
