//! Query-execution core of an in-process columnar data frame: named, typed
//! columns of equal length, projections over them and row filters.

pub mod array;
pub mod column;
pub mod data;
pub mod dataframe;
pub mod datatype;
pub mod error;
pub mod ops;
pub mod query;
pub mod schema;
pub mod utils;
pub mod view;

pub use array::Array;
pub use dataframe::DataFrame;
pub use error::Error;
pub use schema::{DataType, Field};
pub use view::View;
