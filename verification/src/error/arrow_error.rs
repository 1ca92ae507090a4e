//! The kinds of failure that arrow's kernels report.

use arrow::error::ArrowError as ArrowErr;
use vstd::prelude::*;

verus! {

/// `arrow::error::ArrowError`, as the kernels return it. Opaque here: it is
/// turned into the library's own `ArrowError` before anything reads it.
#[verifier::external_type_specification]
#[verifier::external_body]
pub struct ExArrowErr(ArrowErr);

/// Whether an error of arrow's is its `DivideByZero`.
pub uninterp spec fn is_divide_by_zero(error: ArrowErr) -> bool;

/// A failure reported by an arrow kernel, with arrow's message where it gives
/// one.
#[derive(Debug)]
pub enum ArrowError {
    MemoryError { inner: String },
    ParseError { inner: String },
    ComputeError { inner: String },
    DivideByZero,
    ArithmeticOverflow { inner: String },
    CastError { inner: String },
    CsvError { inner: String },
    JsonError { inner: String },
    IoError { inner: String },
    InvalidArgumentError { inner: String },
    Other { inner: String },
}

impl ArrowError {
    /// Tells arrow's variants apart and keeps each one's message. A variant
    /// that has no counterpart here becomes `Other`, with arrow's rendering of
    /// it. Of the result it is claimed only that arrow's `DivideByZero`, and
    /// nothing else, becomes `DivideByZero`.
    #[verifier::external_body]
    pub fn from_arrow(error: ArrowErr) -> (e: ArrowError)
        ensures
            (e is DivideByZero) == is_divide_by_zero(error),
    {
        match error {
            ArrowErr::MemoryError(inner) => ArrowError::MemoryError { inner },
            ArrowErr::ParseError(inner) => ArrowError::ParseError { inner },
            ArrowErr::ComputeError(inner) => ArrowError::ComputeError { inner },
            ArrowErr::DivideByZero => ArrowError::DivideByZero,
            ArrowErr::ArithmeticOverflow(inner) => ArrowError::ArithmeticOverflow { inner },
            ArrowErr::CastError(inner) => ArrowError::CastError { inner },
            ArrowErr::CsvError(inner) => ArrowError::CsvError { inner },
            ArrowErr::JsonError(inner) => ArrowError::JsonError { inner },
            ArrowErr::IoError(inner, _) => ArrowError::IoError { inner },
            ArrowErr::InvalidArgumentError(inner) => ArrowError::InvalidArgumentError { inner },
            other => ArrowError::Other { inner: other.to_string() },
        }
    }
}

} // verus!
