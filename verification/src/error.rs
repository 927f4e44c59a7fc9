//! The errors of the library.

use vstd::prelude::*;
use vstd::string::StringExecFns;

verus! {

/// The shape a caller may ask an argument value to have.
#[derive(Clone, Copy, Debug, PartialEq, Eq, Structural)]
pub enum ValueKind {
    Float,
    Text,
    Bool,
    List,
}

impl ValueKind {
    /// How the shape is called in messages.
    pub open spec fn spec_name(self) -> Seq<char> {
        match self {
            ValueKind::Float => "float"@,
            ValueKind::Text => "string"@,
            ValueKind::Bool => "bool"@,
            ValueKind::List => "[...]"@,
        }
    }

    pub fn name(self) -> (r: &'static str)
        ensures
            r@ == self.spec_name(),
    {
        match self {
            ValueKind::Float => "float",
            ValueKind::Text => "string",
            ValueKind::Bool => "bool",
            ValueKind::List => "[...]",
        }
    }
}

/// Why a lookup or an invocation was refused. Every failure is handed back
/// to the caller as a value; nothing in this crate aborts.
#[derive(Debug, PartialEq, Eq)]
pub enum Error {
    /// The argument bag is absent or has no entry under this name.
    ArgumentMissing(String),
    /// The entry under this name does not have the requested shape.
    TypeMismatch(String, ValueKind),
    /// The qualified name holds no `::`.
    MalformedQualifiedName(String),
    /// No module is registered under this name.
    ModuleNotFound(String),
    /// The module (first) has no function under this name (second).
    FunctionNotFound(String, String),
    /// The text is not an epoch the calendar library can read.
    EpochParseError(String),
}

/// An [`Error`] with every string taken as a sequence of characters.
pub enum ErrorView {
    ArgumentMissing(Seq<char>),
    TypeMismatch(Seq<char>, ValueKind),
    MalformedQualifiedName(Seq<char>),
    ModuleNotFound(Seq<char>),
    FunctionNotFound(Seq<char>, Seq<char>),
    EpochParseError(Seq<char>),
}

impl View for Error {
    type V = ErrorView;

    open spec fn view(&self) -> ErrorView {
        match *self {
            Error::ArgumentMissing(name) => ErrorView::ArgumentMissing(name@),
            Error::TypeMismatch(name, kind) => ErrorView::TypeMismatch(name@, kind),
            Error::MalformedQualifiedName(name) => ErrorView::MalformedQualifiedName(name@),
            Error::ModuleNotFound(module) => ErrorView::ModuleNotFound(module@),
            Error::FunctionNotFound(module, name) => ErrorView::FunctionNotFound(module@, name@),
            Error::EpochParseError(text) => ErrorView::EpochParseError(text@),
        }
    }
}

/// The outcome of a call with its error, if any, taken by its view.
pub open spec fn outcome<T>(r: Result<T, Error>) -> Result<T, ErrorView> {
    match r {
        Ok(value) => Ok(value),
        Err(e) => Err(e@),
    }
}

impl ErrorView {
    /// The error in words.
    pub open spec fn message(self) -> Seq<char> {
        match self {
            ErrorView::ArgumentMissing(name) => "Argument "@ + name + " not found"@,
            ErrorView::TypeMismatch(name, kind) => "Expected "@ + name + " to be of type: "@
                + kind.spec_name(),
            ErrorView::MalformedQualifiedName(name) => "Function name '"@ + name
                + "' does not contain a module name"@,
            ErrorView::ModuleNotFound(module) => "Module '"@ + module
                + "' not found in the standard library"@,
            ErrorView::FunctionNotFound(module, name) => "Function '"@ + name
                + "' not found in module '"@ + module + "'"@,
            ErrorView::EpochParseError(text) => "Epoch '"@ + text + "' could not be read"@,
        }
    }
}

impl Error {
    /// The error in words, for a reader.
    pub fn message(&self) -> (r: String)
        ensures
            r@ == self@.message(),
    {
        match self {
            Error::ArgumentMissing(name) => String::from_str("Argument ").concat(
                name.as_str(),
            ).concat(" not found"),
            Error::TypeMismatch(name, kind) => String::from_str("Expected ").concat(
                name.as_str(),
            ).concat(" to be of type: ").concat(kind.name()),
            Error::MalformedQualifiedName(name) => String::from_str("Function name '").concat(
                name.as_str(),
            ).concat("' does not contain a module name"),
            Error::ModuleNotFound(module) => String::from_str("Module '").concat(
                module.as_str(),
            ).concat("' not found in the standard library"),
            Error::FunctionNotFound(module, name) => String::from_str("Function '").concat(
                name.as_str(),
            ).concat("' not found in module '").concat(module.as_str()).concat("'"),
            Error::EpochParseError(text) => String::from_str("Epoch '").concat(
                text.as_str(),
            ).concat("' could not be read"),
        }
    }
}

} // verus!
