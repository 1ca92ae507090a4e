//! The library's error type.

pub mod arrow_error;

use crate::column::Column;
use crate::schema::DataType;
use vstd::prelude::*;
use vstd::std_specs::convert::FromSpecImpl;

verus! {

/// `std::io::Error`, carried through unread.
#[verifier::external_type_specification]
#[verifier::external_body]
pub struct ExIoError(std::io::Error);

/// Every way in which an operation of the library can fail.
#[derive(Debug)]
#[allow(inconsistent_fields)]
pub enum Error {
    /// An arrow kernel failed.
    Arrow { source: arrow_error::ArrowError },
    Io { source: std::io::Error },
    FromIntError { source: std::num::TryFromIntError },
    /// A position beyond the last column or row.
    IndexOutOfBounds { index: usize, len: usize },
    /// A name that no column carries.
    IndexDoesNotExist { index: Column },
    WrongType,
    /// A stored type that the operation has no case for.
    UnknownDataType { data_type: DataType },
    InvalidDowncast,
    /// An operator applied to operand types it is not defined on.
    InvalidOperation { op: String, lhs: DataType, rhs: DataType },
    FromStrError { value: String, description: Option<&'static str> },
    /// A byte slice whose length is not the width of the type to decode.
    InvalidByteLength { len: usize, expected: usize },
    /// A byte slice that does not start at a multiple of the type's alignment.
    InvalidByteAlignment,
    InvalidByteSliceLength { len: usize },
    /// As many descriptors as columns are needed to make a view.
    ColumnCountMismatch { fields: usize, columns: usize },
    /// The columns of a view have one length.
    RowCountMismatch { column: usize, rows: usize, expected: usize },
    SelectError { source: crate::query::select::Error },
    FilterError { source: crate::query::filter::Error },
    ComparisonError { source: crate::ops::cmp::Error },
}

impl From<arrow_error::ArrowError> for Error {
    fn from(source: arrow_error::ArrowError) -> (e: Error) {
        Error::Arrow { source }
    }
}

impl FromSpecImpl<arrow_error::ArrowError> for Error {
    open spec fn obeys_from_spec() -> bool {
        true
    }

    open spec fn from_spec(source: arrow_error::ArrowError) -> Error {
        Error::Arrow { source }
    }
}

impl From<std::io::Error> for Error {
    fn from(source: std::io::Error) -> (e: Error) {
        Error::Io { source }
    }
}

impl FromSpecImpl<std::io::Error> for Error {
    open spec fn obeys_from_spec() -> bool {
        true
    }

    open spec fn from_spec(source: std::io::Error) -> Error {
        Error::Io { source }
    }
}

impl From<std::num::TryFromIntError> for Error {
    fn from(source: std::num::TryFromIntError) -> (e: Error) {
        Error::FromIntError { source }
    }
}

impl FromSpecImpl<std::num::TryFromIntError> for Error {
    open spec fn obeys_from_spec() -> bool {
        true
    }

    open spec fn from_spec(source: std::num::TryFromIntError) -> Error {
        Error::FromIntError { source }
    }
}

impl From<crate::query::select::Error> for Error {
    fn from(source: crate::query::select::Error) -> (e: Error) {
        Error::SelectError { source }
    }
}

impl FromSpecImpl<crate::query::select::Error> for Error {
    open spec fn obeys_from_spec() -> bool {
        true
    }

    open spec fn from_spec(source: crate::query::select::Error) -> Error {
        Error::SelectError { source }
    }
}

impl From<crate::query::filter::Error> for Error {
    fn from(source: crate::query::filter::Error) -> (e: Error) {
        Error::FilterError { source }
    }
}

impl FromSpecImpl<crate::query::filter::Error> for Error {
    open spec fn obeys_from_spec() -> bool {
        true
    }

    open spec fn from_spec(source: crate::query::filter::Error) -> Error {
        Error::FilterError { source }
    }
}

impl From<crate::ops::cmp::Error> for Error {
    fn from(source: crate::ops::cmp::Error) -> (e: Error) {
        Error::ComparisonError { source }
    }
}

impl FromSpecImpl<crate::ops::cmp::Error> for Error {
    open spec fn obeys_from_spec() -> bool {
        true
    }

    open spec fn from_spec(source: crate::ops::cmp::Error) -> Error {
        Error::ComparisonError { source }
    }
}

} // verus!
