//! Row filtering: a predicate over columns is turned into a mask, and the
//! mask is applied to every column of the view.

use crate::array::{array_cells, array_type, bool_cell, Array};
use crate::column::Column;
use crate::datatype::ScalarValue;
use crate::error::arrow_error::ArrowError;
use crate::ops::cmp::{cmp_arrays, cmp_bool_arrays, compare_cells, CmpOp};
use crate::schema::DataType;
use crate::utils::{first_where, lemma_first_where};
use crate::view::View;
use arrow::array::AsArray;
use arrow::compute::kernels::boolean;
use arrow::error::ArrowError as ArrowErr;
use std::sync::Arc;
use vstd::prelude::*;
use vstd::view::View as _;

verus! {

/// Why a predicate was refused.
#[derive(Debug)]
#[allow(inconsistent_fields)]
pub enum Error {
    /// The predicate refers to a column that the view does not have.
    InvalidColumn { column: Column },
    /// The operator is not defined on operands of these two types.
    InvalidComparison { lhs: DataType, rhs: DataType, op: CmpOp },
    /// The scalar has no type to compare by.
    InvalidScalarType,
    /// Null is compared with `Eq` and `NotEq` only.
    InvalidNullComparison { op: CmpOp },
}

/// A predicate over the rows of a view.
#[derive(Debug)]
pub enum Filter<'a> {
    /// A comparison of two columns, row by row.
    Columns(Column, CmpOp, Column),
    /// A comparison of every row of a column with one value. With `Null` as
    /// the value, `Eq` asks whether the row is null and `NotEq` whether it is
    /// not.
    Scalar(Column, CmpOp, ScalarValue<'a>),
    And(Box<Filter<'a>>, Box<Filter<'a>>),
    Or(Box<Filter<'a>>, Box<Filter<'a>>),
}

/// Whether a mask cell is true.
pub open spec fn is_true(cell: Option<int>) -> bool {
    cell == Some(1int)
}

/// The cells that a mask keeps of a column of the same length: those at the
/// rows where the mask is true, in their order.
pub open spec fn keep_cells(values: Seq<Option<int>>, mask: Seq<Option<int>>) -> Seq<Option<int>>
    decreases values.len(),
{
    if values.len() == 0 {
        Seq::empty()
    } else {
        let rest = keep_cells(values.drop_last(), mask.drop_last());
        if is_true(mask.last()) {
            rest.push(values.last())
        } else {
            rest
        }
    }
}

/// The number of true cells of a mask.
pub open spec fn count_true(mask: Seq<Option<int>>) -> nat
    decreases mask.len(),
{
    if mask.len() == 0 {
        0
    } else if is_true(mask.last()) {
        count_true(mask.drop_last()) + 1
    } else {
        count_true(mask.drop_last())
    }
}

/// Row by row, the conjunction of two masks; null where either is null.
pub open spec fn and_cells(lhs: Seq<Option<int>>, rhs: Seq<Option<int>>) -> Seq<Option<int>> {
    Seq::new(
        lhs.len(),
        |i: int|
            match (lhs[i], rhs[i]) {
                (Some(a), Some(b)) => Some(bool_cell(a == 1 && b == 1)),
                _ => None,
            },
    )
}

/// Row by row, the disjunction of two masks; null where either is null.
pub open spec fn or_cells(lhs: Seq<Option<int>>, rhs: Seq<Option<int>>) -> Seq<Option<int>> {
    Seq::new(
        lhs.len(),
        |i: int|
            match (lhs[i], rhs[i]) {
                (Some(a), Some(b)) => Some(bool_cell(a == 1 || b == 1)),
                _ => None,
            },
    )
}

/// Row by row, the negation of a mask; null where it is null.
pub open spec fn not_cells(mask: Seq<Option<int>>) -> Seq<Option<int>> {
    Seq::new(
        mask.len(),
        |i: int|
            match mask[i] {
                Some(a) => Some(bool_cell(a != 1)),
                None => None,
            },
    )
}

/// The mask of the null rows of a column. It has no null itself.
pub open spec fn null_cells(values: Seq<Option<int>>) -> Seq<Option<int>> {
    Seq::new(values.len(), |i: int| Some(bool_cell(values[i] is None)))
}

/// The mask of comparing every row of a column of type `t` with the value
/// `scalar`: null at a null row, else whether `op` holds of the row's value
/// and the scalar.
pub open spec fn scalar_cells(op: CmpOp, t: DataType, values: Seq<Option<int>>, scalar: int) -> Seq<
    Option<int>,
> {
    Seq::new(
        values.len(),
        |i: int|
            match values[i] {
                Some(a) => Some(bool_cell(op.holds_on(t, a, scalar))),
                None => None,
            },
    )
}

/// `arrow::compute::kernels::boolean::and` on two boolean columns (it panics
/// on others): an error on two lengths, else the conjunction row by row, null
/// where either side is null.
#[verifier::external_body]
fn kernel_and(lhs: &Array, rhs: &Array) -> (r: Result<Array, ArrowErr>)
    requires
        lhs.dtype() is Boolean,
        rhs.dtype() is Boolean,
    ensures
        lhs.rows() == rhs.rows() ==> match r {
            Ok(mask) => array_type(mask) == DataType::Boolean && array_cells(mask) == and_cells(
                lhs.cells(),
                rhs.cells(),
            ),
            Err(_) => false,
        },
{
    boolean::and(lhs.data.as_boolean(), rhs.data.as_boolean()).map(
        |mask| Array { data: Arc::new(mask) },
    )
}

/// `arrow::compute::kernels::boolean::or` on two boolean columns (it panics on
/// others): an error on two lengths, else the disjunction row by row, null
/// where either side is null.
#[verifier::external_body]
fn kernel_or(lhs: &Array, rhs: &Array) -> (r: Result<Array, ArrowErr>)
    requires
        lhs.dtype() is Boolean,
        rhs.dtype() is Boolean,
    ensures
        lhs.rows() == rhs.rows() ==> match r {
            Ok(mask) => array_type(mask) == DataType::Boolean && array_cells(mask) == or_cells(
                lhs.cells(),
                rhs.cells(),
            ),
            Err(_) => false,
        },
{
    boolean::or(lhs.data.as_boolean(), rhs.data.as_boolean()).map(
        |mask| Array { data: Arc::new(mask) },
    )
}

/// `arrow::compute::kernels::boolean::not` on a boolean column (it panics on
/// others): the negation row by row, null where the column is null. It does
/// not fail.
#[verifier::external_body]
fn kernel_not(mask: &Array) -> (r: Result<Array, ArrowErr>)
    requires
        mask.dtype() is Boolean,
    ensures
        match r {
            Ok(out) => array_type(out) == DataType::Boolean && array_cells(out) == not_cells(
                mask.cells(),
            ),
            Err(_) => false,
        },
{
    boolean::not(mask.data.as_boolean()).map(|out| Array { data: Arc::new(out) })
}

/// `arrow::compute::filter` with a boolean column as the mask (it panics on
/// another): on a primitive column as long as the mask it succeeds with a
/// column of the same type that holds the cells at the rows where the mask is
/// true; a null in the mask counts as false.
#[verifier::external_body]
fn kernel_filter(values: &Array, mask: &Array) -> (r: Result<Array, ArrowErr>)
    requires
        mask.dtype() is Boolean,
    ensures
        values.dtype().is_primitive() && values.rows() == mask.rows() ==> match r {
            Ok(kept) => array_type(kept) == values.dtype() && array_cells(kept) == keep_cells(
                values.cells(),
                mask.cells(),
            ),
            Err(_) => false,
        },
{
    arrow::compute::filter(&values.data, mask.data.as_boolean()).map(|data| Array { data })
}

/// The mask of a comparison of two columns, or why there is none.
///
/// Both references must resolve, the left one first. Both columns must be of
/// one type: a numeric one, or boolean with `Eq` or `NotEq`.
pub open spec fn columns_mask(view: View, lhs: Column, op: CmpOp, rhs: Column) -> Result<
    Seq<Option<int>>,
    crate::error::Error,
> {
    if view.resolve(lhs) is None {
        Err(crate::error::Error::FilterError { source: Error::InvalidColumn { column: lhs } })
    } else if view.resolve(rhs) is None {
        Err(crate::error::Error::FilterError { source: Error::InvalidColumn { column: rhs } })
    } else {
        let a = view.spec_columns()[view.resolve(lhs).unwrap() as int];
        let b = view.spec_columns()[view.resolve(rhs).unwrap() as int];
        if a.dtype() == b.dtype() && (a.dtype().is_numeric() || (a.dtype() is Boolean && (op is Eq
            || op is NotEq))) {
            Ok(compare_cells(op, a.dtype(), a.cells(), b.cells()))
        } else {
            Err(
                crate::error::Error::FilterError {
                    source: Error::InvalidComparison { lhs: a.dtype(), rhs: b.dtype(), op },
                },
            )
        }
    }
}

/// The mask of a comparison of a column with a scalar, or why there is none.
///
/// A scalar without a type, other than null, is refused first; then the
/// reference must resolve. Null takes `Eq`, for the mask of the null rows, and
/// `NotEq`, for its negation. Any other scalar must be of the column's type,
/// and that a primitive one.
pub open spec fn scalar_mask(view: View, column: Column, op: CmpOp, value: ScalarValue) -> Result<
    Seq<Option<int>>,
    crate::error::Error,
> {
    if !(value is Null) && value.spec_data_type() is None {
        Err(crate::error::Error::FilterError { source: Error::InvalidScalarType })
    } else if view.resolve(column) is None {
        Err(crate::error::Error::FilterError { source: Error::InvalidColumn { column } })
    } else {
        let a = view.spec_columns()[view.resolve(column).unwrap() as int];
        if value is Null {
            if op is Eq {
                Ok(null_cells(a.cells()))
            } else if op is NotEq {
                Ok(not_cells(null_cells(a.cells())))
            } else {
                Err(
                    crate::error::Error::FilterError {
                        source: Error::InvalidNullComparison { op },
                    },
                )
            }
        } else {
            let t = value.spec_data_type().unwrap();
            if a.dtype() == t && t.is_primitive() {
                Ok(scalar_cells(op, t, a.cells(), value.cell().unwrap()))
            } else {
                Err(
                    crate::error::Error::FilterError {
                        source: Error::InvalidComparison { lhs: a.dtype(), rhs: t, op },
                    },
                )
            }
        }
    }
}

/// The mask of a predicate on a view, or why there is none. Of two operands
/// the left one is evaluated first, and its error is the one reported.
pub open spec fn mask_of(view: View, f: Filter) -> Result<Seq<Option<int>>, crate::error::Error>
    decreases f,
{
    match f {
        Filter::And(lhs, rhs) => match mask_of(view, *lhs) {
            Err(e) => Err(e),
            Ok(a) => match mask_of(view, *rhs) {
                Err(e) => Err(e),
                Ok(b) => Ok(and_cells(a, b)),
            },
        },
        Filter::Or(lhs, rhs) => match mask_of(view, *lhs) {
            Err(e) => Err(e),
            Ok(a) => match mask_of(view, *rhs) {
                Err(e) => Err(e),
                Ok(b) => Ok(or_cells(a, b)),
            },
        },
        Filter::Columns(lhs, op, rhs) => columns_mask(view, lhs, op, rhs),
        Filter::Scalar(column, op, value) => scalar_mask(view, column, op, value),
    }
}

/// Whether the column at a position is neither boolean nor numeric, so that
/// no mask can be applied to it.
pub open spec fn unsupported(columns: Seq<Array>) -> spec_fn(int) -> bool {
    |i: int| !columns[i].dtype().is_primitive()
}

/// The first column that a mask cannot be applied to, or the number of
/// columns.
pub open spec fn first_unsupported(columns: Seq<Array>) -> int {
    first_where(columns.len() as int, unsupported(columns))
}

/// `out` is `view` with the mask applied: the same descriptors, and of every
/// column the cells that the mask keeps.
pub open spec fn filtered(view: View, mask: Seq<Option<int>>, out: View) -> bool {
    &&& out.wf()
    &&& out.spec_fields() == view.spec_fields()
    &&& out.spec_columns().len() == view.spec_columns().len()
    &&& forall|i: int|
        #![trigger out.spec_columns()[i]]
        0 <= i < view.spec_columns().len() ==> {
            &&& out.spec_columns()[i].dtype() == view.spec_columns()[i].dtype()
            &&& out.spec_columns()[i].cells() == keep_cells(view.spec_columns()[i].cells(), mask)
        }
}

/// What filtering gives.
///
/// Without a mask the result is the predicate's error. With one, a column
/// that is neither boolean nor numeric makes the result `UnknownDataType`
/// with the type of the first such column. Otherwise the result is the view
/// with the mask applied to every column.
pub open spec fn filter_outcome(
    view: View,
    f: Filter,
    r: Result<View, crate::error::Error>,
) -> bool {
    match mask_of(view, f) {
        Err(e) => r == Err::<View, crate::error::Error>(e),
        Ok(mask) => if first_unsupported(view.spec_columns()) < view.spec_columns().len() {
            r == Err::<View, crate::error::Error>(
                crate::error::Error::UnknownDataType {
                    data_type: view.spec_columns()[first_unsupported(view.spec_columns())].dtype(),
                },
            )
        } else {
            r matches Ok(out) && filtered(view, mask, out)
        },
    }
}

/// A mask keeps as many cells as it has true cells.
pub proof fn lemma_keep_len(values: Seq<Option<int>>, mask: Seq<Option<int>>)
    requires
        values.len() == mask.len(),
    ensures
        keep_cells(values, mask).len() == count_true(mask),
        count_true(mask) <= mask.len(),
    decreases values.len(),
{
    if values.len() > 0 {
        lemma_keep_len(values.drop_last(), mask.drop_last());
    }
}

/// A mask whose cells are all true keeps every cell.
pub proof fn lemma_keep_all(values: Seq<Option<int>>, mask: Seq<Option<int>>)
    requires
        values.len() == mask.len(),
        forall|i: int| 0 <= i < mask.len() ==> is_true(#[trigger] mask[i]),
    ensures
        keep_cells(values, mask) == values,
    decreases values.len(),
{
    if values.len() > 0 {
        let front = values.drop_last();
        let mask_front = mask.drop_last();
        assert forall|i: int| 0 <= i < mask_front.len() implies is_true(
            #[trigger] mask_front[i],
        ) by {
            assert(mask_front[i] == mask[i]);
        }
        lemma_keep_all(front, mask_front);
        assert(is_true(mask[mask.len() - 1]));
        assert(front.push(values.last()) =~= values);
    } else {
        assert(values =~= Seq::empty());
    }
}

/// A predicate has a mask only on a view that has a column, and the mask has
/// a cell for each row.
pub proof fn lemma_mask_rows(view: View, f: Filter)
    requires
        view.wf(),
        mask_of(view, f) is Ok,
    ensures
        view.spec_columns().len() > 0,
        mask_of(view, f).unwrap().len() == view.spec_num_rows(),
    decreases f,
{
    match f {
        Filter::And(lhs, rhs) => {
            lemma_mask_rows(view, *lhs);
            lemma_mask_rows(view, *rhs);
        },
        Filter::Or(lhs, rhs) => {
            lemma_mask_rows(view, *lhs);
            lemma_mask_rows(view, *rhs);
        },
        Filter::Columns(lhs, op, rhs) => {
            let a = view.spec_columns()[view.resolve(lhs).unwrap() as int];
            assert(a.rows() == view.spec_num_rows());
        },
        Filter::Scalar(column, op, value) => {
            let a = view.spec_columns()[view.resolve(column).unwrap() as int];
            assert(a.rows() == view.spec_num_rows());
        },
    }
}

/// Filtering never adds a row: the view that it gives has as many rows as the
/// mask has true cells, which is at most the rows it had.
pub proof fn filter_row_count(view: View, f: Filter, out: View)
    requires
        view.wf(),
        filter_outcome(view, f, Ok(out)),
    ensures
        mask_of(view, f) is Ok,
        out.spec_num_rows() == count_true(mask_of(view, f).unwrap()),
        out.spec_num_rows() <= view.spec_num_rows(),
{
    let mask = mask_of(view, f).unwrap();
    lemma_mask_rows(view, f);
    assert(filtered(view, mask, out));
    assert(out.spec_columns()[0].cells() == keep_cells(view.spec_columns()[0].cells(), mask));
    assert(view.spec_columns()[0].rows() == view.spec_num_rows());
    lemma_keep_len(view.spec_columns()[0].cells(), mask);
}

/// Filtering with a mask whose cells are all true changes nothing: the view
/// that it gives has the same descriptors, and each of its columns has the
/// type and the cells of the column before. This holds of any view, one that
/// a filter has made among them.
pub proof fn filter_all_true(view: View, f: Filter, out: View)
    requires
        view.wf(),
        filter_outcome(view, f, Ok(out)),
        mask_of(view, f) matches Ok(mask) && forall|i: int|
            0 <= i < mask.len() ==> is_true(#[trigger] mask[i]),
    ensures
        out.spec_fields() == view.spec_fields(),
        out.spec_columns().len() == view.spec_columns().len(),
        out.spec_num_rows() == view.spec_num_rows(),
        forall|i: int|
            #![trigger out.spec_columns()[i]]
            0 <= i < view.spec_columns().len() ==> {
                &&& out.spec_columns()[i].dtype() == view.spec_columns()[i].dtype()
                &&& out.spec_columns()[i].cells() == view.spec_columns()[i].cells()
            },
{
    let mask = mask_of(view, f).unwrap();
    lemma_mask_rows(view, f);
    assert(filtered(view, mask, out));
    assert forall|i: int|
        #![trigger out.spec_columns()[i]]
        0 <= i < view.spec_columns().len() implies {
        &&& out.spec_columns()[i].dtype() == view.spec_columns()[i].dtype()
        &&& out.spec_columns()[i].cells() == view.spec_columns()[i].cells()
    } by {
        assert(view.spec_columns()[i].rows() == view.spec_num_rows());
        lemma_keep_all(view.spec_columns()[i].cells(), mask);
    }
    assert(out.spec_columns()[0].cells() == view.spec_columns()[0].cells());
}

/// Keeps the rows of the view on which the predicate holds (see
/// `filter_outcome`).
pub fn filter<'a>(view: &View, f: Filter<'a>) -> (r: Result<View, crate::error::Error>)
    requires
        view.wf(),
    ensures
        filter_outcome(*view, f, r),
{
    let bool_array = match filter_view(view, &f) {
        Ok(mask) => mask,
        Err(e) => {
            return Err(e);
        },
    };
    proof {
        lemma_first_where(view.spec_columns().len() as int, unsupported(view.spec_columns()));
    }
    let columns = view.columns();
    let mut res: Vec<Array> = Vec::with_capacity(columns.len());
    let mut i: usize = 0;
    while i < columns.len()
        invariant
            view.wf(),
            columns@ == view.spec_columns(),
            mask_of(*view, f) == Ok::<Seq<Option<int>>, crate::error::Error>(bool_array.cells()),
            bool_array.dtype() is Boolean,
            bool_array.rows() == view.spec_num_rows(),
            i <= columns.len(),
            i <= first_unsupported(columns@) <= columns.len(),
            first_unsupported(columns@) < columns.len() ==> unsupported(columns@)(
                first_unsupported(columns@),
            ),
            forall|k: int|
                0 <= k < first_unsupported(columns@) ==> !#[trigger] unsupported(columns@)(k),
            res.len() == i,
            forall|k: int|
                #![trigger res@[k]]
                0 <= k < i ==> {
                    &&& res@[k].dtype() == columns@[k].dtype()
                    &&& res@[k].cells() == keep_cells(columns@[k].cells(), bool_array.cells())
                },
        decreases columns.len() - i,
    {
        assert(columns@[i as int].rows() == view.spec_num_rows());
        match apply_filter(&columns[i], &bool_array) {
            Ok(kept) => {
                assert(!unsupported(columns@)(i as int));
                res.push(kept);
            },
            Err(e) => {
                proof {
                    assert(unsupported(columns@)(i as int));
                    assert(i == first_unsupported(columns@));
                }
                return Err(e);
            },
        }
        i += 1;
    }
    proof {
        assert forall|k: int| 0 <= k < res.len() implies (#[trigger] res@[k]).rows()
            == res@[0].rows() by {
            lemma_keep_len(columns@[k].cells(), bool_array.cells());
            lemma_keep_len(columns@[0].cells(), bool_array.cells());
            assert(columns@[k].rows() == view.spec_num_rows());
            assert(columns@[0].rows() == view.spec_num_rows());
        }
    }
    let fields = clone_fields(view.fields());
    Ok(View::from_parts(fields, res))
}

/// A copy of the descriptors.
fn clone_fields(fields: &Vec<crate::schema::Field>) -> (copy: Vec<crate::schema::Field>)
    ensures
        copy@ == fields@,
{
    let mut copy: Vec<crate::schema::Field> = Vec::with_capacity(fields.len());
    let mut i: usize = 0;
    while i < fields.len()
        invariant
            i <= fields.len(),
            copy@ == fields@.take(i as int),
        decreases fields.len() - i,
    {
        copy.push(fields[i].clone());
        proof {
            assert(copy@ =~= fields@.take(i + 1));
        }
        i += 1;
    }
    proof {
        assert(fields@.take(fields.len() as int) =~= fields@);
    }
    copy
}

/// Evaluates the predicate into a mask with one cell for each row.
fn filter_view<'a>(view: &View, f: &Filter<'a>) -> (r: Result<Array, crate::error::Error>)
    requires
        view.wf(),
    ensures
        match mask_of(*view, *f) {
            Ok(cells) => r matches Ok(mask) && mask.dtype() is Boolean && mask.cells() == cells
                && mask.rows() == view.spec_num_rows(),
            Err(e) => r == Err::<Array, crate::error::Error>(e),
        },
    decreases f,
{
    match f {
        Filter::And(lhs, rhs) => {
            let lhs_res = match filter_view(view, lhs) {
                Ok(mask) => mask,
                Err(e) => {
                    return Err(e);
                },
            };
            let rhs_res = match filter_view(view, rhs) {
                Ok(mask) => mask,
                Err(e) => {
                    return Err(e);
                },
            };
            match kernel_and(&lhs_res, &rhs_res) {
                Ok(mask) => Ok(mask),
                Err(e) => Err(crate::error::Error::Arrow { source: ArrowError::from_arrow(e) }),
            }
        },
        Filter::Or(lhs, rhs) => {
            let lhs_res = match filter_view(view, lhs) {
                Ok(mask) => mask,
                Err(e) => {
                    return Err(e);
                },
            };
            let rhs_res = match filter_view(view, rhs) {
                Ok(mask) => mask,
                Err(e) => {
                    return Err(e);
                },
            };
            match kernel_or(&lhs_res, &rhs_res) {
                Ok(mask) => Ok(mask),
                Err(e) => Err(crate::error::Error::Arrow { source: ArrowError::from_arrow(e) }),
            }
        },
        Filter::Columns(lhs, op, rhs) => filter_cols(view, lhs, rhs, *op),
        Filter::Scalar(arr, op, value) => filter_scalar(view, arr, value, *op),
    }
}

/// Evaluates a comparison of two columns (see `columns_mask`).
fn filter_cols(view: &View, lhs: &Column, rhs: &Column, op: CmpOp) -> (r: Result<
    Array,
    crate::error::Error,
>)
    requires
        view.wf(),
    ensures
        match columns_mask(*view, *lhs, op, *rhs) {
            Ok(cells) => r matches Ok(mask) && mask.dtype() is Boolean && mask.cells() == cells
                && mask.rows() == view.spec_num_rows(),
            Err(e) => r == Err::<Array, crate::error::Error>(e),
        },
{
    let lhs_idx = match view.get_index(lhs) {
        Some(index) => index,
        None => {
            return Err(
                crate::error::Error::FilterError {
                    source: Error::InvalidColumn { column: lhs.clone() },
                },
            );
        },
    };
    let rhs_idx = match view.get_index(rhs) {
        Some(index) => index,
        None => {
            return Err(
                crate::error::Error::FilterError {
                    source: Error::InvalidColumn { column: rhs.clone() },
                },
            );
        },
    };
    let lhs_arr = view.column_unchecked(lhs_idx);
    let rhs_arr = view.column_unchecked(rhs_idx);
    let lhs_type = lhs_arr.data_type();
    let rhs_type = rhs_arr.data_type();
    if lhs_type == rhs_type && lhs_type.is_numeric_type() {
        return cmp_arrays(&lhs_arr, &rhs_arr, op);
    }
    match (lhs_type, rhs_type, op) {
        (DataType::Boolean, DataType::Boolean, CmpOp::Eq) => cmp_bool_arrays(
            &lhs_arr,
            &rhs_arr,
            CmpOp::Eq,
        ),
        (DataType::Boolean, DataType::Boolean, CmpOp::NotEq) => cmp_bool_arrays(
            &lhs_arr,
            &rhs_arr,
            CmpOp::NotEq,
        ),
        (lhs_dt, rhs_dt, op) => Err(
            crate::error::Error::FilterError {
                source: Error::InvalidComparison { lhs: lhs_dt, rhs: rhs_dt, op },
            },
        ),
    }
}

/// Applies the mask to one column. A column that is neither boolean nor
/// numeric is refused with `UnknownDataType`.
fn apply_filter(arr: &Array, bool_arr: &Array) -> (r: Result<Array, crate::error::Error>)
    requires
        bool_arr.dtype() is Boolean,
        arr.rows() == bool_arr.rows(),
    ensures
        arr.dtype().is_primitive() ==> (r matches Ok(kept) && kept.dtype() == arr.dtype()
            && kept.cells() == keep_cells(arr.cells(), bool_arr.cells())),
        !arr.dtype().is_primitive() ==> r == Err::<Array, crate::error::Error>(
            crate::error::Error::UnknownDataType { data_type: arr.dtype() },
        ),
{
    let data_type = arr.data_type();
    match data_type {
        DataType::Boolean
        | DataType::UInt8
        | DataType::UInt16
        | DataType::UInt32
        | DataType::UInt64
        | DataType::Int8
        | DataType::Int16
        | DataType::Int32
        | DataType::Int64
        | DataType::Float32
        | DataType::Float64 => match kernel_filter(arr, bool_arr) {
            Ok(kept) => Ok(kept),
            Err(e) => Err(crate::error::Error::Arrow { source: ArrowError::from_arrow(e) }),
        },
        missing_impl => Err(crate::error::Error::UnknownDataType { data_type: missing_impl }),
    }
}

/// The value of a scalar of a primitive type.
fn scalar_value(value: &ScalarValue) -> (v: i128)
    requires
        value.spec_data_type() matches Some(t) && t.is_primitive(),
    ensures
        value.cell() == Some(v as int),
        value.spec_data_type().unwrap().holds(v as int),
{
    match value {
        ScalarValue::Boolean(b) => if *b {
            1
        } else {
            0
        },
        ScalarValue::UInt8(v) => *v as i128,
        ScalarValue::UInt16(v) => *v as i128,
        ScalarValue::UInt32(v) => *v as i128,
        ScalarValue::UInt64(v) => *v as i128,
        ScalarValue::Int8(v) => *v as i128,
        ScalarValue::Int16(v) => *v as i128,
        ScalarValue::Int32(v) => *v as i128,
        ScalarValue::Int64(v) => *v as i128,
        ScalarValue::Float32(v) => *v as i128,
        ScalarValue::Float64(v) => *v as i128,
        _ => 0,
    }
}

/// The mask of the null rows of a column.
fn null_rows(arr: &Array) -> (mask: Array)
    ensures
        mask.dtype() is Boolean,
        mask.cells() == null_cells(arr.cells()),
{
    let n = arr.len();
    let mut bools: Vec<Option<bool>> = Vec::with_capacity(n);
    let mut i: usize = 0;
    while i < n
        invariant
            i <= n,
            n == arr.rows(),
            bools.len() == i,
            forall|k: int| 0 <= k < i ==> #[trigger] bools@[k] == Some(arr.cells()[k] is None),
        decreases n - i,
    {
        bools.push(Some(arr.is_null(i)));
        i += 1;
    }
    let mask = Array::from_bools(bools);
    proof {
        assert(mask.cells() =~= null_cells(arr.cells()));
    }
    mask
}

/// Compares every row of a primitive column with a value of its type.
fn scan(arr: &Array, op: CmpOp, scalar: i128) -> (mask: Array)
    requires
        arr.dtype().is_primitive(),
        arr.dtype().holds(scalar as int),
    ensures
        mask.dtype() is Boolean,
        mask.cells() == scalar_cells(op, arr.dtype(), arr.cells(), scalar as int),
{
    let n = arr.len();
    let data_type = arr.data_type();
    let mut bools: Vec<Option<bool>> = Vec::with_capacity(n);
    let mut i: usize = 0;
    while i < n
        invariant
            i <= n,
            n == arr.rows(),
            data_type == arr.dtype(),
            data_type.is_primitive(),
            data_type.holds(scalar as int),
            bools.len() == i,
            forall|k: int|
                0 <= k < i ==> #[trigger] bools@[k] == match arr.cells()[k] {
                    Some(a) => Some(op.holds_on(data_type, a, scalar as int)),
                    None => None::<bool>,
                },
        decreases n - i,
    {
        if arr.is_null(i) {
            bools.push(None);
        } else {
            let value = arr.cell_value(i);
            bools.push(Some(op.test_on(data_type, value, scalar)));
        }
        i += 1;
    }
    let mask = Array::from_bools(bools);
    proof {
        assert(mask.cells() =~= scalar_cells(op, arr.dtype(), arr.cells(), scalar as int));
    }
    mask
}

/// Evaluates a comparison of a column with a scalar (see `scalar_mask`).
fn filter_scalar<'a>(
    view: &View,
    column: &Column,
    value: &ScalarValue<'a>,
    op: CmpOp,
) -> (r: Result<Array, crate::error::Error>)
    requires
        view.wf(),
    ensures
        match scalar_mask(*view, *column, op, *value) {
            Ok(cells) => r matches Ok(mask) && mask.dtype() is Boolean && mask.cells() == cells
                && mask.rows() == view.spec_num_rows(),
            Err(e) => r == Err::<Array, crate::error::Error>(e),
        },
{
    let scalar_type = value.data_type();
    if !value.is_null() && scalar_type.is_none() {
        return Err(crate::error::Error::FilterError { source: Error::InvalidScalarType });
    }
    let arr_idx = match view.get_index(column) {
        Some(index) => index,
        None => {
            return Err(
                crate::error::Error::FilterError {
                    source: Error::InvalidColumn { column: column.clone() },
                },
            );
        },
    };
    let arr = view.column_unchecked(arr_idx);
    // check for IS/IS NOT NULL
    if value.is_null() {
        return match op {
            CmpOp::Eq => Ok(null_rows(&arr)),
            CmpOp::NotEq => {
                let bool_arr = null_rows(&arr);
                match kernel_not(&bool_arr) {
                    Ok(mask) => Ok(mask),
                    Err(e) => Err(crate::error::Error::Arrow { source: ArrowError::from_arrow(e) }),
                }
            },
            _ => Err(
                crate::error::Error::FilterError { source: Error::InvalidNullComparison { op } },
            ),
        };
    }
    let arr_type = arr.data_type();
    match scalar_type {
        Some(t) => {
            if arr_type == t && (t == DataType::Boolean || t.is_numeric_type()) {
                Ok(scan(&arr, op, scalar_value(value)))
            } else {
                Err(
                    crate::error::Error::FilterError {
                        source: Error::InvalidComparison { lhs: arr_type, rhs: t, op },
                    },
                )
            }
        },
        None => Err(crate::error::Error::FilterError { source: Error::InvalidScalarType }),
    }
}

} // verus!
