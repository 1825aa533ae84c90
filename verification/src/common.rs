//! Vocabulary shared by the facades: exception classes and callback arguments.
use vstd::prelude::*;

verus! {

/// The exception class a binding raises: the package's own `ItofinError`, or
/// one of Python's built-in `ValueError`, `TypeError` and `IndexError`.
#[derive(Debug, Clone, Copy, PartialEq, Eq)]
pub enum ErrorKind {
    Itofin,
    Value,
    Type,
    Index,
}

/// A Python callback argument as the facade found it.
#[derive(Debug, Clone, Copy, PartialEq, Eq)]
pub enum CallbackArg {
    Absent,
    Callable,
    NotCallable,
}

} // verus!
