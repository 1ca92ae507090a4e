//! Arithmetic over two columns of one numeric type, row by row.

use crate::array::Array;
use crate::error::arrow_error::{is_divide_by_zero, ArrowError};
use crate::ops::cmp::float_is_nan;
use crate::error::Error;
use crate::query::select::Arithmetic;
use crate::schema::DataType;
use arrow::compute::kernels::numeric;
use arrow::error::ArrowError as ArrowErr;
use vstd::prelude::*;

verus! {

/// The quotient of `a` by `b`, rounded towards zero; `b` is not 0.
pub open spec fn truncated_quotient(a: int, b: int) -> int {
    if a >= 0 && b > 0 {
        a / b
    } else if a >= 0 {
        -(a / (-b))
    } else if b > 0 {
        -((-a) / b)
    } else {
        (-a) / (-b)
    }
}

/// What the operator makes of two integers.
pub open spec fn arith_value(op: Arithmetic, a: int, b: int) -> int {
    match op {
        Arithmetic::Add => a + b,
        Arithmetic::Sub => a - b,
        Arithmetic::Mul => a * b,
        Arithmetic::Div => truncated_quotient(a, b),
    }
}

/// Whether the operator has a result on two values of the integer type `t`:
/// no division by zero, and a result that `t` holds.
pub open spec fn arith_defined_at(op: Arithmetic, t: DataType, a: int, b: int) -> bool {
    !(op is Div && b == 0) && t.holds(arith_value(op, a, b))
}

/// Whether the operator has a result on every row at which both columns hold
/// a value.
pub open spec fn arith_defined(
    op: Arithmetic,
    t: DataType,
    lhs: Seq<Option<int>>,
    rhs: Seq<Option<int>>,
) -> bool {
    forall|i: int|
        0 <= i < lhs.len() && lhs[i] is Some && rhs[i] is Some ==> arith_defined_at(
            op,
            t,
            (#[trigger] lhs[i]).unwrap(),
            rhs[i].unwrap(),
        )
}

/// The cells of the column that the operator makes of two integer columns:
/// null where either operand is null, else the operator's result.
pub open spec fn arith_cells(op: Arithmetic, lhs: Seq<Option<int>>, rhs: Seq<Option<int>>) -> Seq<
    Option<int>,
> {
    Seq::new(
        lhs.len(),
        |i: int|
            match (lhs[i], rhs[i]) {
                (Some(a), Some(b)) => Some(arith_value(op, a, b)),
                _ => None,
            },
    )
}

/// The sum of two floats of type `t`, all three as bit patterns, as
/// `arrow::compute::kernels::numeric::add` computes it: the IEEE-754 sum.
/// Where the sum is a NaN, this is some NaN.
pub uninterp spec fn float_sum(t: DataType, a: int, b: int) -> int;

/// The difference of two floats of type `t`, all three as bit patterns, as
/// `arrow::compute::kernels::numeric::sub` computes it: the IEEE-754
/// difference. Where the difference is a NaN, this is some NaN.
pub uninterp spec fn float_difference(t: DataType, a: int, b: int) -> int;

/// The product of two floats of type `t`, all three as bit patterns, as
/// `arrow::compute::kernels::numeric::mul` computes it: the IEEE-754 product.
/// Where the product is a NaN, this is some NaN.
pub uninterp spec fn float_product(t: DataType, a: int, b: int) -> int;

/// The quotient of two floats of type `t`, all three as bit patterns, as
/// `arrow::compute::kernels::numeric::div` computes it: the IEEE-754
/// quotient. Where the quotient is a NaN, this is some NaN.
pub uninterp spec fn float_quotient(t: DataType, a: int, b: int) -> int;

/// What the operator makes of two floats of type `t`, as bit patterns.
pub open spec fn float_value(op: Arithmetic, t: DataType, a: int, b: int) -> int {
    match op {
        Arithmetic::Add => float_sum(t, a, b),
        Arithmetic::Sub => float_difference(t, a, b),
        Arithmetic::Mul => float_product(t, a, b),
        Arithmetic::Div => float_quotient(t, a, b),
    }
}

/// Whether the bit pattern `v` is the float `w`: the same pattern, or, where
/// `w` is a NaN, any NaN, since which NaN an operation gives differs from
/// machine to machine.
pub open spec fn same_float(t: DataType, v: int, w: int) -> bool {
    if float_is_nan(t, w) {
        float_is_nan(t, v)
    } else {
        v == w
    }
}

/// Whether `out` holds the cells that the operator makes of two float columns
/// of type `t`: null where either operand is null, else the operator's result.
pub open spec fn float_cells(
    op: Arithmetic,
    t: DataType,
    out: Seq<Option<int>>,
    lhs: Seq<Option<int>>,
    rhs: Seq<Option<int>>,
) -> bool {
    &&& out.len() == lhs.len()
    &&& forall|i: int|
        0 <= i < out.len() ==> match (lhs[i], rhs[i]) {
            (Some(a), Some(b)) => (#[trigger] out[i]) matches Some(v) && same_float(
                t,
                v,
                float_value(op, t, a, b),
            ),
            _ => out[i] is None,
        }
}

/// `float_cells`, with the operator's result on two floats given as `value`.
pub open spec fn float_cells_by(
    value: spec_fn(int, int) -> int,
    t: DataType,
    out: Seq<Option<int>>,
    lhs: Seq<Option<int>>,
    rhs: Seq<Option<int>>,
) -> bool {
    &&& out.len() == lhs.len()
    &&& forall|i: int|
        0 <= i < out.len() ==> match (lhs[i], rhs[i]) {
            (Some(a), Some(b)) => (#[trigger] out[i]) matches Some(v) && same_float(
                t,
                v,
                value(a, b),
            ),
            _ => out[i] is None,
        }
}

/// Whether the first row on which the operator has no result is one with a
/// zero divisor.
pub open spec fn zero_fails_first(
    op: Arithmetic,
    t: DataType,
    lhs: Seq<Option<int>>,
    rhs: Seq<Option<int>>,
) -> bool {
    exists|i: int|
        0 <= i < lhs.len() && op is Div && lhs[i] is Some && #[trigger] rhs[i] == Some(0int)
            && forall|j: int|
            0 <= j < i && lhs[j] is Some && rhs[j] is Some ==> arith_defined_at(
                op,
                t,
                (#[trigger] lhs[j]).unwrap(),
                rhs[j].unwrap(),
            )
}

/// Two columns of one numeric type: what the arithmetic kernels are called on.
pub open spec fn operands(lhs: Array, rhs: Array) -> bool {
    lhs.dtype() == rhs.dtype() && lhs.dtype().is_numeric()
}

/// What arrow's checked arithmetic kernels return on two columns of one
/// numeric type.
///
/// Operands of two lengths are an error. On integers the kernel succeeds
/// exactly if the operator has a result on every row where both operands hold
/// a value, and the result is the column of `arith_cells`; else it fails with
/// what fails first in row order, a division by zero or an overflow. On floats
/// it always succeeds, with a null where either operand is null and else the
/// float that `value` gives.
pub open spec fn kernel_outcome(
    op: Arithmetic,
    value: spec_fn(int, int) -> int,
    lhs: Array,
    rhs: Array,
    r: Result<Array, ArrowErr>,
) -> bool {
    let t = lhs.dtype();
    if lhs.rows() != rhs.rows() {
        r is Err
    } else if t.is_integer() {
        match r {
            Ok(out) => arith_defined(op, t, lhs.cells(), rhs.cells()) && out.dtype() == t
                && out.cells() == arith_cells(op, lhs.cells(), rhs.cells()),
            Err(e) => !arith_defined(op, t, lhs.cells(), rhs.cells()) && (is_divide_by_zero(e)
                <==> zero_fails_first(op, t, lhs.cells(), rhs.cells())),
        }
    } else {
        match r {
            Ok(out) => out.dtype() == t && float_cells_by(
                value,
                t,
                out.cells(),
                lhs.cells(),
                rhs.cells(),
            ),
            Err(_) => false,
        }
    }
}

/// `arrow::compute::kernels::numeric::add`: `lhs + rhs`, an error on overflow
/// (see `kernel_outcome`).
#[verifier::external_body]
fn kernel_add(lhs: &Array, rhs: &Array) -> (r: Result<Array, ArrowErr>)
    requires
        operands(*lhs, *rhs),
    ensures
        kernel_outcome(
            Arithmetic::Add,
            |a: int, b: int| float_sum(lhs.dtype(), a, b),
            *lhs,
            *rhs,
            r,
        ),
{
    numeric::add(&lhs.data, &rhs.data).map(|data| Array { data })
}

/// `arrow::compute::kernels::numeric::sub`: `lhs - rhs`, an error on overflow
/// (see `kernel_outcome`).
#[verifier::external_body]
fn kernel_sub(lhs: &Array, rhs: &Array) -> (r: Result<Array, ArrowErr>)
    requires
        operands(*lhs, *rhs),
    ensures
        kernel_outcome(
            Arithmetic::Sub,
            |a: int, b: int| float_difference(lhs.dtype(), a, b),
            *lhs,
            *rhs,
            r,
        ),
{
    numeric::sub(&lhs.data, &rhs.data).map(|data| Array { data })
}

/// `arrow::compute::kernels::numeric::mul`: `lhs * rhs`, an error on overflow
/// (see `kernel_outcome`).
#[verifier::external_body]
fn kernel_mul(lhs: &Array, rhs: &Array) -> (r: Result<Array, ArrowErr>)
    requires
        operands(*lhs, *rhs),
    ensures
        kernel_outcome(
            Arithmetic::Mul,
            |a: int, b: int| float_product(lhs.dtype(), a, b),
            *lhs,
            *rhs,
            r,
        ),
{
    numeric::mul(&lhs.data, &rhs.data).map(|data| Array { data })
}

/// `arrow::compute::kernels::numeric::div`: `lhs / rhs`, on integers rounded
/// towards zero, an error on overflow and on division by zero (see
/// `kernel_outcome`).
#[verifier::external_body]
fn kernel_div(lhs: &Array, rhs: &Array) -> (r: Result<Array, ArrowErr>)
    requires
        operands(*lhs, *rhs),
    ensures
        kernel_outcome(
            Arithmetic::Div,
            |a: int, b: int| float_quotient(lhs.dtype(), a, b),
            *lhs,
            *rhs,
            r,
        ),
{
    numeric::div(&lhs.data, &rhs.data).map(|data| Array { data })
}

/// Whether `e` is the error with which arrow's kernel fails on two columns of
/// the numeric type `t`: the `Arrow` error, which on integer columns of one
/// length is `DivideByZero` exactly if a zero divisor is what fails first.
pub open spec fn kernel_failure(
    op: Arithmetic,
    t: DataType,
    lhs: Seq<Option<int>>,
    rhs: Seq<Option<int>>,
    e: Error,
) -> bool {
    e matches Error::Arrow { source } && (t.is_integer() && lhs.len() == rhs.len() ==> (
    source is DivideByZero <==> zero_fails_first(op, t, lhs, rhs)))
}

/// What an arithmetic operation of the library returns on two columns.
///
/// Operands of two types, or of a type that is not numeric, are refused with
/// `InvalidOperation`, which names the operation and both types. Where arrow's
/// kernel fails (operands of two lengths; on integers an overflow or a division
/// by zero) the result is the `Arrow` error of `kernel_failure`. Otherwise the
/// result is a column of the operands' type: on integers that of `arith_cells`,
/// on floats that of `float_cells`.
pub open spec fn arithmetic_outcome(
    op: Arithmetic,
    name: Seq<char>,
    lhs: Array,
    rhs: Array,
    r: Result<Array, Error>,
) -> bool {
    let t = lhs.dtype();
    if lhs.dtype() != rhs.dtype() || !t.is_numeric() {
        r matches Err(Error::InvalidOperation { op: n, lhs: a, rhs: b }) && n@ == name && a
            == lhs.dtype() && b == rhs.dtype()
    } else if lhs.rows() != rhs.rows() || (t.is_integer() && !arith_defined(
        op,
        t,
        lhs.cells(),
        rhs.cells(),
    )) {
        r matches Err(e) && kernel_failure(op, t, lhs.cells(), rhs.cells(), e)
    } else if t.is_integer() {
        r matches Ok(out) && out.dtype() == t && out.cells() == arith_cells(
            op,
            lhs.cells(),
            rhs.cells(),
        )
    } else {
        r matches Ok(out) && out.dtype() == t && float_cells(
            op,
            t,
            out.cells(),
            lhs.cells(),
            rhs.cells(),
        )
    }
}

/// The name under which an operator's failure is reported.
pub open spec fn operation_name(op: Arithmetic) -> Seq<char> {
    match op {
        Arithmetic::Add => "add"@,
        Arithmetic::Sub => "subtract"@,
        Arithmetic::Mul => "multiply"@,
        Arithmetic::Div => "divide"@,
    }
}

/// Refuses operands that are not of one numeric type.
fn check_operands(lhs: &Array, rhs: &Array, name: &str) -> (r: Result<(), Error>)
    ensures
        lhs.dtype() == rhs.dtype() && lhs.dtype().is_numeric() ==> r is Ok,
        lhs.dtype() != rhs.dtype() || !lhs.dtype().is_numeric() ==> (r matches Err(
            Error::InvalidOperation { op: n, lhs: a, rhs: b },
        ) && n@ == name@ && a == lhs.dtype() && b == rhs.dtype()),
{
    let lhs_type = lhs.data_type();
    let rhs_type = rhs.data_type();
    if lhs_type == rhs_type && lhs_type.is_numeric_type() {
        Ok(())
    } else {
        Err(Error::InvalidOperation { op: name.to_owned(), lhs: lhs_type, rhs: rhs_type })
    }
}

/// Turns a kernel's result into the library's.
fn reported(r: Result<Array, ArrowErr>) -> (out: Result<Array, Error>)
    ensures
        match r {
            Ok(a) => out == Ok::<Array, Error>(a),
            Err(e) => out matches Err(Error::Arrow { source }) && (source is DivideByZero
                <==> is_divide_by_zero(e)),
        },
{
    match r {
        Ok(a) => Ok(a),
        Err(source) => Err(Error::Arrow { source: ArrowError::from_arrow(source) }),
    }
}

/// Adds two columns row by row (see `arithmetic_outcome`).
pub fn add(lhs: &Array, rhs: &Array) -> (r: Result<Array, Error>)
    ensures
        arithmetic_outcome(Arithmetic::Add, "add"@, *lhs, *rhs, r),
{
    match check_operands(lhs, rhs, "add") {
        Ok(_) => reported(kernel_add(lhs, rhs)),
        Err(e) => Err(e),
    }
}

/// Subtracts the right column from the left one row by row (see
/// `arithmetic_outcome`).
pub fn subtract(lhs: &Array, rhs: &Array) -> (r: Result<Array, Error>)
    ensures
        arithmetic_outcome(Arithmetic::Sub, "subtract"@, *lhs, *rhs, r),
{
    match check_operands(lhs, rhs, "subtract") {
        Ok(_) => reported(kernel_sub(lhs, rhs)),
        Err(e) => Err(e),
    }
}

/// Divides the left column by the right one row by row (see
/// `arithmetic_outcome`).
pub fn divide(lhs: &Array, rhs: &Array) -> (r: Result<Array, Error>)
    ensures
        arithmetic_outcome(Arithmetic::Div, "divide"@, *lhs, *rhs, r),
{
    match check_operands(lhs, rhs, "divide") {
        Ok(_) => reported(kernel_div(lhs, rhs)),
        Err(e) => Err(e),
    }
}

/// Multiplies two columns row by row (see `arithmetic_outcome`).
pub fn multiply(lhs: &Array, rhs: &Array) -> (r: Result<Array, Error>)
    ensures
        arithmetic_outcome(Arithmetic::Mul, "multiply"@, *lhs, *rhs, r),
{
    match check_operands(lhs, rhs, "multiply") {
        Ok(_) => reported(kernel_mul(lhs, rhs)),
        Err(e) => Err(e),
    }
}

} // verus!
