//! Projection: pass-through, renaming and arithmetic over two columns.

use crate::array::Array;
use crate::column::Column;
use crate::error::arrow_error::ArrowError;
use crate::ops::math::{arith_cells, arith_defined, float_cells, kernel_failure};
use crate::schema::{DataType, Field};
use crate::utils::{first_where, lemma_first_where};
use crate::view::View;
use vstd::prelude::*;
use vstd::std_specs::convert::FromSpecImpl;
use vstd::view::View as _;

verus! {

/// Why a projection was refused.
#[derive(Debug)]
#[allow(inconsistent_fields)]
pub enum Error {
    /// The term refers to a column that the view does not have.
    InvalidColumn { column: Select },
    /// Arithmetic on operands that are not numeric.
    InvalidArithmeticDataType { op: Arithmetic, data_type: DataType },
    /// Arithmetic on operands of two different types.
    UnequalDataTypes { lhs: DataType, rhs: DataType },
    ArithmeticError { source: ArrowError },
}

/// An aggregate over one column.
pub enum Aggregate {
    Min,
    Max,
    Sum,
    Avg,
    Count,
}

/// One of the four arithmetic operators.
#[derive(Clone, Copy, Debug, PartialEq, Eq, Structural)]
pub enum Arithmetic {
    Add,
    Sub,
    Div,
    Mul,
}

impl Arithmetic {
    /// The operator as it is written.
    pub open spec fn symbol(self) -> Seq<char> {
        match self {
            Arithmetic::Add => seq!['+'],
            Arithmetic::Sub => seq!['-'],
            Arithmetic::Div => seq!['/'],
            Arithmetic::Mul => seq!['*'],
        }
    }

    /// The operator as it is written: `+`, `-`, `/` or `*`.
    pub fn as_str(&self) -> (s: &'static str)
        ensures
            s@ == self.symbol(),
    {
        proof {
            reveal_strlit("+");
            reveal_strlit("-");
            reveal_strlit("/");
            reveal_strlit("*");
        }
        let s = match self {
            Self::Add => "+",
            Self::Sub => "-",
            Self::Div => "/",
            Self::Mul => "*",
        };
        assert(s@ =~= self.symbol());
        s
    }
}

/// A function over columns.
pub enum Func {
    Arithmetic(Arithmetic, Column, Column),
    Aggregate(Aggregate, Column),
}

/// One term of a projection.
#[derive(Debug)]
pub enum Select {
    /// The column as it is.
    Column(Column),
    /// The inner term under a new name.
    Alias(Box<Select>, String),
    /// The operator applied row by row to two columns.
    Arithmetic(Arithmetic, Column, Column),
}

impl From<usize> for Select {
    fn from(s: usize) -> (term: Select) {
        Select::Column(Column::Position(s))
    }
}

impl FromSpecImpl<usize> for Select {
    open spec fn obeys_from_spec() -> bool {
        true
    }

    open spec fn from_spec(s: usize) -> Select {
        Select::Column(Column::Position(s))
    }
}

impl From<String> for Select {
    fn from(s: String) -> (term: Select) {
        Select::Column(Column::Name(s))
    }
}

impl FromSpecImpl<String> for Select {
    open spec fn obeys_from_spec() -> bool {
        true
    }

    open spec fn from_spec(s: String) -> Select {
        Select::Column(Column::Name(s))
    }
}

impl From<&str> for Select {
    fn from(s: &str) -> (term: Select)
        ensures
            term matches Select::Column(Column::Name(name)) && name@ == s@,
    {
        Select::Column(Column::Name(s.to_owned()))
    }
}

impl FromSpecImpl<&str> for Select {
    open spec fn obeys_from_spec() -> bool {
        false
    }

    open spec fn from_spec(s: &str) -> Select {
        Select::Column(Column::Name(choose|name: String| name@ == s@))
    }
}

impl From<(Arithmetic, &str, &str)> for Select {
    fn from(s: (Arithmetic, &str, &str)) -> (term: Select)
        ensures
            term matches Select::Arithmetic(op, Column::Name(lhs), Column::Name(rhs)) && op == s.0
                && lhs@ == s.1@ && rhs@ == s.2@,
    {
        Select::Arithmetic(s.0, Column::Name(s.1.to_owned()), Column::Name(s.2.to_owned()))
    }
}

impl FromSpecImpl<(Arithmetic, &str, &str)> for Select {
    open spec fn obeys_from_spec() -> bool {
        false
    }

    open spec fn from_spec(s: (Arithmetic, &str, &str)) -> Select {
        Select::Arithmetic(
            s.0,
            Column::Name(choose|name: String| #[trigger] name@ == s.1@),
            Column::Name(choose|name: String| #[trigger] name@ == s.2@),
        )
    }
}

impl Select {
    /// The term as text: a column as its reference reads, an alias as
    /// `Alias(.. as ..)`, arithmetic as the two references around the
    /// operator.
    pub open spec fn text(self) -> Seq<char>
        decreases self,
    {
        match self {
            Select::Column(column) => column.text(),
            Select::Alias(inner, name) => "Alias("@ + inner.text() + " as "@ + name@ + ")"@,
            Select::Arithmetic(op, lhs, rhs) => lhs.text() + " "@ + op.symbol() + " "@ + rhs.text(),
        }
    }

    /// The term as text (see `text`).
    pub fn to_text(&self) -> (s: String)
        ensures
            s@ == self.text(),
        decreases self,
    {
        match self {
            Select::Column(column) => column.to_text(),
            Select::Alias(sel, name) => String::from_str("Alias(").concat(
                sel.to_text().as_str(),
            ).concat(" as ").concat(name.as_str()).concat(")"),
            Select::Arithmetic(op, lhs, rhs) => lhs.to_text().concat(" ").concat(
                op.as_str(),
            ).concat(" ").concat(rhs.to_text().as_str()),
        }
    }
}

impl Clone for Select {
    fn clone(&self) -> (s: Self)
        ensures
            s == *self,
        decreases self,
    {
        match self {
            Select::Column(column) => Select::Column(column.clone()),
            Select::Alias(inner, name) => {
                let copy: Select = (&**inner).clone();
                Select::Alias(Box::new(copy), name.clone())
            },
            Select::Arithmetic(op, lhs, rhs) => Select::Arithmetic(*op, lhs.clone(), rhs.clone()),
        }
    }
}

/// Whether every column that the term refers to, through aliases and as an
/// operand, is one of the view's.
pub open spec fn term_exists(view: View, s: Select) -> bool
    decreases s,
{
    match s {
        Select::Column(column) => view.resolve(column) is Some,
        Select::Alias(inner, _) => term_exists(view, *inner),
        Select::Arithmetic(_, lhs, rhs) => view.resolve(lhs) is Some && view.resolve(rhs) is Some,
    }
}

/// Whether the arithmetic term has a result: both operands are columns of the
/// view, of one numeric type, and on integers the operator has a result on
/// every row where both hold a value.
pub open spec fn arithmetic_ok(view: View, op: Arithmetic, lhs: Column, rhs: Column) -> bool {
    &&& view.resolve(lhs) is Some
    &&& view.resolve(rhs) is Some
    &&& {
        let a = view.spec_columns()[view.resolve(lhs).unwrap() as int];
        let b = view.spec_columns()[view.resolve(rhs).unwrap() as int];
        &&& a.dtype() == b.dtype()
        &&& a.dtype().is_numeric()
        &&& a.dtype().is_integer() ==> arith_defined(op, a.dtype(), a.cells(), b.cells())
    }
}

/// Whether the term has a result on the view.
pub open spec fn term_ok(view: View, s: Select) -> bool
    decreases s,
{
    match s {
        Select::Column(column) => view.resolve(column) is Some,
        Select::Alias(inner, _) => term_ok(view, *inner),
        Select::Arithmetic(op, lhs, rhs) => arithmetic_ok(view, op, lhs, rhs),
    }
}

/// The name of the column that an arithmetic term makes: the right operand's
/// name, the operator and the left operand's name, joined by underscores.
pub open spec fn arithmetic_name(op: Arithmetic, lhs: Seq<char>, rhs: Seq<char>) -> Seq<char> {
    rhs + seq!['_'] + op.symbol() + seq!['_'] + lhs
}

/// The name of the term's output column. Meant for a term that has a result.
pub open spec fn term_name(view: View, s: Select) -> Seq<char>
    decreases s,
{
    match s {
        Select::Column(column) => view.spec_fields()[view.resolve(column).unwrap() as int].name@,
        Select::Alias(_, alias) => alias@,
        Select::Arithmetic(op, lhs, rhs) => arithmetic_name(
            op,
            view.spec_fields()[view.resolve(lhs).unwrap() as int].name@,
            view.spec_fields()[view.resolve(rhs).unwrap() as int].name@,
        ),
    }
}

/// The type in the descriptor of the term's output column: the descriptor's
/// own for a column passed through, the operands' type for arithmetic.
pub open spec fn term_type(view: View, s: Select) -> DataType
    decreases s,
{
    match s {
        Select::Column(column) => view.spec_fields()[view.resolve(
            column,
        ).unwrap() as int].data_type,
        Select::Alias(inner, _) => term_type(view, *inner),
        Select::Arithmetic(_, lhs, _) => view.spec_columns()[view.resolve(
            lhs,
        ).unwrap() as int].dtype(),
    }
}

/// Whether the term's output column may hold nulls: as the descriptor says for
/// a column passed through, and for arithmetic only if both operands may.
pub open spec fn term_nullable(view: View, s: Select) -> bool
    decreases s,
{
    match s {
        Select::Column(column) => view.spec_fields()[view.resolve(column).unwrap() as int].nullable,
        Select::Alias(inner, _) => term_nullable(view, *inner),
        Select::Arithmetic(_, lhs, rhs) => view.spec_fields()[view.resolve(
            lhs,
        ).unwrap() as int].nullable && view.spec_fields()[view.resolve(
            rhs,
        ).unwrap() as int].nullable,
    }
}

/// Whether `out` is the term's output column: the very column of the view for
/// a pass-through; for arithmetic a column of the operands' type that holds,
/// on integers, the cells of `arith_cells`, and on floats those of
/// `float_cells`.
pub open spec fn term_column(view: View, s: Select, out: Array) -> bool
    decreases s,
{
    match s {
        Select::Column(column) => out == view.spec_columns()[view.resolve(column).unwrap() as int],
        Select::Alias(inner, _) => term_column(view, *inner, out),
        Select::Arithmetic(op, lhs, rhs) => {
            let a = view.spec_columns()[view.resolve(lhs).unwrap() as int];
            let b = view.spec_columns()[view.resolve(rhs).unwrap() as int];
            &&& out.dtype() == a.dtype()
            &&& if a.dtype().is_integer() {
                out.cells() == arith_cells(op, a.cells(), b.cells())
            } else {
                float_cells(op, a.dtype(), out.cells(), a.cells(), b.cells())
            }
        },
    }
}

/// Whether `e` is the error of a term that has no result.
///
/// A column that does not resolve is `InvalidColumn` with the term. An alias
/// around a term that refers to a missing column is `InvalidColumn` with the
/// alias; around any other term it has the error of that term. Arithmetic
/// reports, in this order, the operand that does not resolve, the two types
/// that differ, the type that is not numeric, and the failure of arrow's
/// kernel, which is `DivideByZero` where a zero divisor is what fails first.
pub open spec fn term_failure(view: View, s: Select, e: crate::error::Error) -> bool
    decreases s,
{
    match s {
        Select::Column(_) => e == crate::error::Error::SelectError {
            source: Error::InvalidColumn { column: s },
        },
        Select::Alias(inner, _) => if term_exists(view, *inner) {
            term_failure(view, *inner, e)
        } else {
            e == crate::error::Error::SelectError { source: Error::InvalidColumn { column: s } }
        },
        Select::Arithmetic(op, lhs, rhs) => {
            if view.resolve(lhs) is None {
                e == crate::error::Error::SelectError {
                    source: Error::InvalidColumn { column: Select::Column(lhs) },
                }
            } else if view.resolve(rhs) is None {
                e == crate::error::Error::SelectError {
                    source: Error::InvalidColumn { column: Select::Column(rhs) },
                }
            } else {
                let a = view.spec_columns()[view.resolve(lhs).unwrap() as int];
                let b = view.spec_columns()[view.resolve(rhs).unwrap() as int];
                if a.dtype() != b.dtype() {
                    e == crate::error::Error::SelectError {
                        source: Error::UnequalDataTypes { lhs: a.dtype(), rhs: b.dtype() },
                    }
                } else if !a.dtype().is_numeric() {
                    e == crate::error::Error::SelectError {
                        source: Error::InvalidArithmeticDataType { op, data_type: a.dtype() },
                    }
                } else {
                    kernel_failure(op, a.dtype(), a.cells(), b.cells(), e)
                }
            }
        },
    }
}

/// What evaluating one term gives: for a term that has a result, a descriptor
/// with the term's name, type and nullability beside the term's column; else
/// the term's error.
pub open spec fn term_outcome(
    view: View,
    s: Select,
    r: Result<(Field, Array), crate::error::Error>,
) -> bool {
    match r {
        Ok((field, column)) => {
            &&& term_ok(view, s)
            &&& field.name@ == term_name(view, s)
            &&& field.data_type == term_type(view, s)
            &&& field.nullable == term_nullable(view, s)
            &&& term_column(view, s, column)
        },
        Err(e) => !term_ok(view, s) && term_failure(view, s, e),
    }
}

/// Whether the term at a position refers to a column that the view does not
/// have.
pub open spec fn missing(view: View, terms: Seq<Select>) -> spec_fn(int) -> bool {
    |i: int| !term_exists(view, terms[i])
}

/// Whether the term at a position has no result.
pub open spec fn failing(view: View, terms: Seq<Select>) -> spec_fn(int) -> bool {
    |i: int| !term_ok(view, terms[i])
}

/// The first term that refers to a column that the view does not have, or the
/// number of terms.
pub open spec fn first_missing(view: View, terms: Seq<Select>) -> int {
    first_where(terms.len() as int, missing(view, terms))
}

/// The first term that has no result, or the number of terms.
pub open spec fn first_failing(view: View, terms: Seq<Select>) -> int {
    first_where(terms.len() as int, failing(view, terms))
}

/// In a well-formed view, the output column of a term that has a result has
/// as many rows as the view.
pub proof fn lemma_term_rows(view: View, s: Select, out: Array)
    requires
        view.wf(),
        term_ok(view, s),
        term_column(view, s, out),
    ensures
        out.rows() == view.spec_num_rows(),
    decreases s,
{
    match s {
        Select::Column(column) => {
            assert(out == view.spec_columns()[view.resolve(column).unwrap() as int]);
        },
        Select::Alias(inner, _) => lemma_term_rows(view, *inner, out),
        Select::Arithmetic(op, lhs, rhs) => {
            let a = view.spec_columns()[view.resolve(lhs).unwrap() as int];
            let b = view.spec_columns()[view.resolve(rhs).unwrap() as int];
            assert(a.rows() == view.spec_num_rows());
            assert(out.cells().len() == a.cells().len());
        },
    }
}

/// What a projection gives.
///
/// If a term refers to a column that the view does not have, the result is
/// `InvalidColumn` with the first such term. Else, if a term has no result,
/// it is the error of the first such term. Else it is a well-formed view with
/// one column for each term, in the order of the list.
pub open spec fn select_outcome(
    view: View,
    terms: Seq<Select>,
    r: Result<View, crate::error::Error>,
) -> bool {
    if first_missing(view, terms) < terms.len() {
        r == Err::<View, crate::error::Error>(
            crate::error::Error::SelectError {
                source: Error::InvalidColumn { column: terms[first_missing(view, terms)] },
            },
        )
    } else if first_failing(view, terms) < terms.len() {
        r matches Err(e) && term_failure(view, terms[first_failing(view, terms)], e)
    } else {
        r matches Ok(out) && projects(view, terms, out)
    }
}

/// `out` is the view that the terms, all of which have a result, make of
/// `view`.
pub open spec fn projects(view: View, terms: Seq<Select>, out: View) -> bool {
    &&& out.wf()
    &&& out.spec_fields().len() == terms.len()
    &&& out.spec_columns().len() == terms.len()
    &&& forall|i: int|
        #![trigger terms[i]]
        0 <= i < terms.len() ==> {
            &&& out.spec_fields()[i].name@ == term_name(view, terms[i])
            &&& out.spec_fields()[i].data_type == term_type(view, terms[i])
            &&& out.spec_fields()[i].nullable == term_nullable(view, terms[i])
            &&& term_column(view, terms[i], out.spec_columns()[i])
        }
}

/// A projection of at least one term keeps the row count; so does, in
/// particular, one that passes columns through and does nothing else.
pub proof fn select_keeps_row_count(view: View, terms: Seq<Select>, out: View)
    requires
        view.wf(),
        terms.len() > 0,
        select_outcome(view, terms, Ok(out)),
    ensures
        out.spec_num_rows() == view.spec_num_rows(),
{
    lemma_first_where(terms.len() as int, missing(view, terms));
    lemma_first_where(terms.len() as int, failing(view, terms));
    assert(projects(view, terms, out));
    assert(!failing(view, terms)(0));
    lemma_term_rows(view, terms[0], out.spec_columns()[0]);
}

/// Round trip: in a view whose names are distinct, selecting every column by
/// its name, in the view's order, succeeds and gives the view's own columns
/// under the view's own descriptors.
pub proof fn select_all_by_name(
    view: View,
    terms: Seq<Select>,
    r: Result<View, crate::error::Error>,
)
    requires
        view.wf(),
        forall|a: int, b: int|
            0 <= a < b < view.spec_fields().len() ==> (#[trigger] view.spec_fields()[a]).name@ != (
            #[trigger] view.spec_fields()[b]).name@,
        terms.len() == view.spec_fields().len(),
        forall|i: int|
            0 <= i < terms.len() ==> (#[trigger] terms[i] matches Select::Column(Column::Name(name))
                && name@ == view.spec_fields()[i].name@),
        select_outcome(view, terms, r),
    ensures
        r matches Ok(out) && out.spec_columns() == view.spec_columns() && out.spec_fields().len()
            == view.spec_fields().len() && forall|i: int|
            #![trigger out.spec_fields()[i]]
            0 <= i < view.spec_fields().len() ==> {
                &&& out.spec_fields()[i].name@ == view.spec_fields()[i].name@
                &&& out.spec_fields()[i].data_type == view.spec_fields()[i].data_type
                &&& out.spec_fields()[i].nullable == view.spec_fields()[i].nullable
            },
{
    lemma_first_where(terms.len() as int, missing(view, terms));
    lemma_first_where(terms.len() as int, failing(view, terms));
    assert forall|i: int| 0 <= i < terms.len() implies term_ok(view, #[trigger] terms[i])
        && term_exists(view, terms[i]) && (terms[i] matches Select::Column(column) && view.resolve(
        column,
    ) == Some(i as usize)) by {
        crate::view::lemma_distinct_names(view.spec_fields(), i);
    }
    if first_missing(view, terms) < terms.len() {
        assert(missing(view, terms)(first_missing(view, terms)));
    }
    if first_failing(view, terms) < terms.len() {
        assert(failing(view, terms)(first_failing(view, terms)));
    }
    let out = r->Ok_0;
    assert(projects(view, terms, out));
    assert forall|i: int| 0 <= i < view.spec_columns().len() implies out.spec_columns()[i]
        == view.spec_columns()[i] by {
        assert(term_column(view, terms[i], out.spec_columns()[i]));
    }
    assert(out.spec_columns() =~= view.spec_columns());
    assert forall|i: int|
        #![trigger out.spec_fields()[i]]
        0 <= i < view.spec_fields().len() implies {
        &&& out.spec_fields()[i].name@ == view.spec_fields()[i].name@
        &&& out.spec_fields()[i].data_type == view.spec_fields()[i].data_type
        &&& out.spec_fields()[i].nullable == view.spec_fields()[i].nullable
    } by {
        assert(term_ok(view, terms[i]));
    }
}

/// A term that refers to columns of the view only and has no result fails
/// with an error that is no `InvalidColumn`.
pub proof fn lemma_failure_of_present(view: View, s: Select, e: crate::error::Error)
    requires
        term_exists(view, s),
        !term_ok(view, s),
        term_failure(view, s, e),
    ensures
        !(e matches crate::error::Error::SelectError { source: Error::InvalidColumn { .. } }),
    decreases s,
{
    match s {
        Select::Alias(inner, _) => lemma_failure_of_present(view, *inner, e),
        _ => {},
    }
}

/// A projection fails with `InvalidColumn` only if one of its terms refers to
/// a column that the view does not have.
pub proof fn invalid_column_means_missing(
    view: View,
    terms: Seq<Select>,
    r: Result<View, crate::error::Error>,
)
    requires
        select_outcome(view, terms, r),
        r matches Err(crate::error::Error::SelectError { source: Error::InvalidColumn { .. } }),
    ensures
        first_missing(view, terms) < terms.len(),
{
    lemma_first_where(terms.len() as int, missing(view, terms));
    lemma_first_where(terms.len() as int, failing(view, terms));
    if first_missing(view, terms) >= terms.len() {
        let k = first_failing(view, terms);
        assert(failing(view, terms)(k));
        assert(!missing(view, terms)(k));
        lemma_failure_of_present(view, terms[k], r->Err_0);
    }
}

/// Projects the view onto the terms, in their order (see `select_outcome`).
pub fn select(view: View, columns: Vec<Select>) -> (r: Result<View, crate::error::Error>)
    requires
        view.wf(),
    ensures
        select_outcome(view, columns@, r),
{
    proof {
        lemma_first_where(columns.len() as int, missing(view, columns@));
        lemma_first_where(columns.len() as int, failing(view, columns@));
    }
    let mut k: usize = 0;
    while k < columns.len()
        invariant
            view.wf(),
            k <= columns.len(),
            k <= first_missing(view, columns@) <= columns.len(),
            forall|j: int|
                0 <= j < first_missing(view, columns@) ==> !#[trigger] missing(view, columns@)(j),
            first_missing(view, columns@) < columns.len() ==> missing(view, columns@)(
                first_missing(view, columns@),
            ),
        decreases columns.len() - k,
    {
        if !column_exists(&view, &columns[k]) {
            assert(missing(view, columns@)(k as int));
            return Err(
                crate::error::Error::SelectError {
                    source: Error::InvalidColumn { column: columns[k].clone() },
                },
            );
        }
        assert(!missing(view, columns@)(k as int));
        k += 1;
    }
    let mut fields: Vec<Field> = Vec::with_capacity(columns.len());
    let mut data: Vec<Array> = Vec::with_capacity(columns.len());
    let mut i: usize = 0;
    while i < columns.len()
        invariant
            view.wf(),
            i <= columns.len(),
            first_missing(view, columns@) == columns.len(),
            i <= first_failing(view, columns@) <= columns.len(),
            forall|j: int|
                0 <= j < first_failing(view, columns@) ==> !#[trigger] failing(view, columns@)(j),
            first_failing(view, columns@) < columns.len() ==> failing(view, columns@)(
                first_failing(view, columns@),
            ),
            fields.len() == i,
            data.len() == i,
            forall|j: int|
                #![trigger columns@[j]]
                0 <= j < i ==> {
                    &&& fields@[j].name@ == term_name(view, columns@[j])
                    &&& fields@[j].data_type == term_type(view, columns@[j])
                    &&& fields@[j].nullable == term_nullable(view, columns@[j])
                    &&& term_column(view, columns@[j], data@[j])
                },
            forall|j: int| 0 <= j < i ==> (#[trigger] data@[j]).rows() == view.spec_num_rows(),
        decreases columns.len() - i,
    {
        match select_index(&view, &columns[i]) {
            Ok((field, array_ref)) => {
                proof {
                    assert(!failing(view, columns@)(i as int));
                    lemma_term_rows(view, columns@[i as int], array_ref);
                }
                fields.push(field);
                data.push(array_ref);
            },
            Err(e) => {
                assert(failing(view, columns@)(i as int));
                return Err(e);
            },
        }
        i += 1;
    }
    let out = View::from_parts(fields, data);
    Ok(out)
}

/// Tells whether every column that the term refers to is one of the view's.
fn column_exists(view: &View, s: &Select) -> (b: bool)
    requires
        view.wf(),
    ensures
        b == term_exists(*view, *s),
    decreases s,
{
    match s {
        Select::Column(column) => view.index_exists(column),
        Select::Alias(sel, _) => column_exists(view, sel),
        Select::Arithmetic(_, lhs, rhs) => view.index_exists(lhs) && view.index_exists(rhs),
    }
}

/// Evaluates one term (see `term_outcome`).
fn select_index(view: &View, s: &Select) -> (r: Result<(Field, Array), crate::error::Error>)
    requires
        view.wf(),
    ensures
        term_outcome(*view, *s, r),
    decreases s,
{
    match s {
        Select::Column(column) => match view.subview(column) {
            Some(pair) => Ok(pair),
            None => Err(
                crate::error::Error::SelectError {
                    source: Error::InvalidColumn { column: s.clone() },
                },
            ),
        },
        Select::Alias(sel, alias) => match select_index(view, sel) {
            Ok((field, array_ref)) => {
                let field = Field::new(alias.as_str(), *field.data_type(), field.is_nullable());
                Ok((field, array_ref))
            },
            Err(e) => if column_exists(view, sel) {
                Err(e)
            } else {
                Err(
                    crate::error::Error::SelectError {
                        source: Error::InvalidColumn { column: s.clone() },
                    },
                )
            },
        },
        Select::Arithmetic(op, lhs, rhs) => apply_arithmetic(view, op, lhs, rhs),
    }
}

/// Evaluates an arithmetic term: resolves both operands, refuses operands of
/// two types or of a type that is not numeric, applies the operator row by
/// row and describes the new column.
fn apply_arithmetic(view: &View, op: &Arithmetic, lhs: &Column, rhs: &Column) -> (r: Result<
    (Field, Array),
    crate::error::Error,
>)
    requires
        view.wf(),
    ensures
        term_outcome(*view, Select::Arithmetic(*op, *lhs, *rhs), r),
{
    let (lhs_field, lhs_arr) = match view.subview(lhs) {
        Some(pair) => pair,
        None => {
            return Err(
                crate::error::Error::SelectError {
                    source: Error::InvalidColumn { column: Select::Column(lhs.clone()) },
                },
            );
        },
    };
    let (rhs_field, rhs_arr) = match view.subview(rhs) {
        Some(pair) => pair,
        None => {
            return Err(
                crate::error::Error::SelectError {
                    source: Error::InvalidColumn { column: Select::Column(rhs.clone()) },
                },
            );
        },
    };
    proof {
        let a = view.spec_columns()[view.resolve(*lhs).unwrap() as int];
        let b = view.spec_columns()[view.resolve(*rhs).unwrap() as int];
        assert(a.rows() == view.spec_num_rows());
        assert(b.rows() == view.spec_num_rows());
    }
    let lhs_type = lhs_arr.data_type();
    let rhs_type = rhs_arr.data_type();
    if lhs_type != rhs_type {
        return Err(
            crate::error::Error::SelectError {
                source: Error::UnequalDataTypes { lhs: lhs_type, rhs: rhs_type },
            },
        );
    }
    if !lhs_arr.is_numeric_type() {
        return Err(
            crate::error::Error::SelectError {
                source: Error::InvalidArithmeticDataType { data_type: lhs_type, op: *op },
            },
        );
    }
    let computed = match op {
        Arithmetic::Add => crate::ops::math::add(&lhs_arr, &rhs_arr),
        Arithmetic::Sub => crate::ops::math::subtract(&lhs_arr, &rhs_arr),
        Arithmetic::Mul => crate::ops::math::multiply(&lhs_arr, &rhs_arr),
        Arithmetic::Div => crate::ops::math::divide(&lhs_arr, &rhs_arr),
    };
    match computed {
        Ok(array_ref) => {
            let name = rhs_field.name().clone().concat("_").concat(op.as_str()).concat("_").concat(
                lhs_field.name().as_str(),
            );
            proof {
                reveal_strlit("_");
                assert("_"@ =~= seq!['_']);
            }
            let field = Field::new(
                name.as_str(),
                array_ref.data_type(),
                lhs_field.is_nullable() && rhs_field.is_nullable(),
            );
            Ok((field, array_ref))
        },
        Err(e) => Err(e),
    }
}

} // verus!
