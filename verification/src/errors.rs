//! The ways in which building a dispatcher can fail.

use vstd::prelude::*;
use vstd::string::*;

verus! {

/// Why no dispatcher could be built. Every failure aborts the whole
/// contract: no partial table is ever produced.
#[derive(Clone, Copy, Debug, PartialEq, Eq, Hash, Structural)]
pub enum CompileError {
    /// An exposed name belongs to a definition that is not a function.
    NonCallableDefinitionUsed,
    /// An exposed name has no definition at all.
    UnresolvedFunctionName,
    /// Two exposed functions share one selector.
    DuplicateSelector,
    /// A parameter or return type is not a well-formed fixed-size type, or
    /// the parameters together are wider than a machine word can count.
    UnsupportedType,
}

impl CompileError {
    /// The text of [`CompileError::message`].
    pub open spec fn spec_message(self) -> Seq<char> {
        match self {
            CompileError::NonCallableDefinitionUsed => "Cannot create case from definition"@,
            CompileError::UnresolvedFunctionName => "No definition for name"@,
            CompileError::DuplicateSelector => "Duplicate selector"@,
            CompileError::UnsupportedType => "Unsupported type"@,
        }
    }

    /// A short description for the person who reads the compiler's output.
    pub fn message(&self) -> (text: String)
        ensures
            text@ == self.spec_message(),
    {
        match self {
            CompileError::NonCallableDefinitionUsed => String::from_str(
                "Cannot create case from definition",
            ),
            CompileError::UnresolvedFunctionName => String::from_str("No definition for name"),
            CompileError::DuplicateSelector => String::from_str("Duplicate selector"),
            CompileError::UnsupportedType => String::from_str("Unsupported type"),
        }
    }
}

} // verus!
