use vstd::prelude::*;

verus! {

/// Failures that the runtime surfaces to scripts as catchable errors.
#[derive(Debug, Clone, Copy, PartialEq, Eq, Structural)]
pub enum Error {
    /// A value could not be coerced as required (null or undefined to an object, ...).
    TypeError,
    /// A class object carries no class definition: an internal inconsistency.
    MissingClassDefinition,
    /// A qualified name was not found in an application domain chain.
    ReferenceError,
    /// A qualified name string is structurally invalid (empty local name).
    InvalidName,
}

/// The message that accompanies each error.
pub open spec fn error_message(e: Error) -> Seq<char> {
    match e {
        Error::TypeError => "TypeError: value cannot be coerced"@,
        Error::MissingClassDefinition => "InternalError: this object does not have a class"@,
        Error::ReferenceError => "ReferenceError: name is not defined"@,
        Error::InvalidName => "ArgumentError: invalid qualified name"@,
    }
}

impl Error {
    /// A description of this error for the script that catches it.
    pub fn message(&self) -> (r: &'static str)
        ensures
            r@ == error_message(*self),
    {
        match self {
            Error::TypeError => "TypeError: value cannot be coerced",
            Error::MissingClassDefinition => "InternalError: this object does not have a class",
            Error::ReferenceError => "ReferenceError: name is not defined",
            Error::InvalidName => "ArgumentError: invalid qualified name",
        }
    }
}

} // verus!
