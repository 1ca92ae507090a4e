//! Operators: comparison and arithmetic over columns.

pub mod cmp;
pub mod math;
pub mod sort;

use crate::datatype::ScalarValue;
use crate::schema::DataType;
use std::sync::Arc;
use vstd::prelude::*;

verus! {

/// An expression over the columns of a view.
pub enum Expr<'a> {
    Column(usize),
    Literal(ScalarValue<'a>),
    Comparison(Arc<Expr<'a>>, Op, Arc<Expr<'a>>),
    IsNull(Arc<Expr<'a>>),
    IsNotNull(Arc<Expr<'a>>),
    Function(&'a str, &'a [Expr<'a>], DataType),
}

/// A comparison operator of the expression language.
#[derive(Clone, Copy, Debug, PartialEq, Eq, Structural)]
pub enum Op {
    Eq,
    NotEq,
    Gt,
    GtEq,
    Lt,
    LtEq,
}

} // verus!
