//! The row materializer: a data set read row by row as typed scalars.

use crate::array::{array_texts, bool_cell, text_at, Array};
use crate::ops::math::same_float;
use crate::column::Column;
use crate::datatype::{text_bytes, ScalarValue, Text};
use crate::error::arrow_error::ArrowError;
use crate::error::Error;
use crate::schema::{DataType, Field, Schema};
use crate::utils::{first_where, lemma_first_where};
use crate::view::{lemma_name_index, name_index, name_position};
use arrow::datatypes::DataType as ArrowType;
use arrow::error::ArrowError as ArrowErr;
use std::sync::Arc;
use vstd::hash_map::StringHashMap;
use vstd::prelude::*;

verus! {

/// `Arc::clone`: another handle to the same schema.
#[verifier::external_body]
fn share(schema: &Arc<Schema>) -> (shared: Arc<Schema>)
    ensures
        shared == *schema,
{
    schema.clone()
}

/// Whether arrow has a type that the tag names: every tag but the two
/// parametrised temporal ones and `Other`.
pub open spec fn castable(t: DataType) -> bool {
    !(t is Timestamp || t is Interval || t is Other)
}

/// What a cell of type `from` becomes when `arrow::compute::cast` casts it to
/// the type `to`, where one of the two is a float type: `None` where the cell
/// becomes null. Floats are bit patterns; where the result is a NaN, this is
/// some NaN.
pub uninterp spec fn cast_value(from: DataType, to: DataType, v: int) -> Option<int>;

/// Whether `out` is what casting the cell `v` of type `from` to the type `to`
/// gives, both types being primitive. To a boolean, zero becomes false and
/// anything else true. To an integer, a value that the target holds stays
/// and any other becomes null. With a float on either side the result is
/// `value(v)`, up to which NaN it is.
pub open spec fn cast_cell(
    value: spec_fn(int) -> Option<int>,
    from: DataType,
    to: DataType,
    v: int,
    out: Option<int>,
) -> bool {
    if from.is_float() || to.is_float() {
        match value(v) {
            Some(w) => out matches Some(x) && if to.is_float() {
                same_float(to, x, w)
            } else {
                x == w
            },
            None => out is None,
        }
    } else if to is Boolean {
        out == Some(bool_cell(v != 0))
    } else if to.holds(v) {
        out == Some(v)
    } else {
        out is None
    }
}

/// Whether `out` holds the cells of a column of type `from` cast to the type
/// `to`, both types being primitive: null for a null cell, else what
/// `cast_cell` says.
pub open spec fn cast_cells_by(
    value: spec_fn(int) -> Option<int>,
    from: DataType,
    to: DataType,
    values: Seq<Option<int>>,
    out: Seq<Option<int>>,
) -> bool {
    &&& out.len() == values.len()
    &&& forall|i: int|
        0 <= i < out.len() ==> match values[i] {
            Some(v) => cast_cell(value, from, to, v, #[trigger] out[i]),
            None => out[i] is None,
        }
}

/// `cast_cells_by`, with arrow's own result where a float is involved.
pub open spec fn cast_cells(
    from: DataType,
    to: DataType,
    values: Seq<Option<int>>,
    out: Seq<Option<int>>,
) -> bool {
    cast_cells_by(|v: int| cast_value(from, to, v), from, to, values, out)
}

/// What arrow's cast returns: a column of the target type; between two
/// primitive types it succeeds, with the cells of `cast_cells_by`.
pub open spec fn cast_outcome(
    value: spec_fn(int) -> Option<int>,
    values: Array,
    to: DataType,
    r: Result<Array, ArrowErr>,
) -> bool {
    match r {
        Ok(out) => out.dtype() == to && (values.dtype().is_primitive() && to.is_primitive()
            ==> cast_cells_by(value, values.dtype(), to, values.cells(), out.cells())),
        Err(_) => !(values.dtype().is_primitive() && to.is_primitive()),
    }
}

/// `arrow::compute::cast`, with arrow's default options (a value that the
/// target cannot hold becomes null). The tag is mapped to arrow's type of the
/// same name. A column that arrow returns has the target type; between two
/// primitive types the cast succeeds (see `cast_outcome`).
#[verifier::external_body]
fn kernel_cast(values: &Array, to: DataType) -> (r: Result<Array, ArrowErr>)
    requires
        castable(to),
    ensures
        cast_outcome(|v: int| cast_value(values.dtype(), to, v), *values, to, r),
{
    let to = match to {
        DataType::Boolean => ArrowType::Boolean, DataType::Utf8 => ArrowType::Utf8,
        DataType::Int8 => ArrowType::Int8, DataType::UInt8 => ArrowType::UInt8,
        DataType::Int16 => ArrowType::Int16, DataType::UInt16 => ArrowType::UInt16,
        DataType::Int32 => ArrowType::Int32, DataType::UInt32 => ArrowType::UInt32,
        DataType::Int64 => ArrowType::Int64, DataType::UInt64 => ArrowType::UInt64,
        DataType::Float32 => ArrowType::Float32, DataType::Float64 => ArrowType::Float64,
        DataType::Date32 => ArrowType::Date32, DataType::Date64 => ArrowType::Date64,
        _ => ArrowType::Binary,
    };
    arrow::compute::cast(&values.data, &to).map(|data| Array { data })
}

/// Whether `v` is the scalar at row `row` of the column: null for a null
/// cell, the text for a `Utf8` column, and for a primitive column the value
/// under the column's type tag.
pub open spec fn scalar_at(column: Array, row: int, v: ScalarValue) -> bool {
    if column.cells()[row] is None {
        v is Null
    } else if column.dtype() is Utf8 {
        v matches ScalarValue::String(text) && Some(text_bytes(text)) == text_at(
            array_texts(column),
            row,
        )
    } else {
        v.spec_data_type() == Some(column.dtype()) && v.cell() == column.cells()[row]
    }
}

/// Whether a cell of the column can be read as a scalar: any null cell, and
/// any cell of a `Utf8` or a primitive column.
pub open spec fn readable(column: Array, row: int) -> bool {
    column.cells()[row] is None || column.dtype() is Utf8 || column.dtype().is_primitive()
}

/// A data set: columns under a schema, with an index from names to positions,
/// read cell by cell and row by row.
pub struct Data {
    schema: Arc<Schema>,
    columns: Vec<Array>,
    index: StringHashMap<usize>,
}

impl Data {
    /// The descriptors of the schema.
    pub closed spec fn spec_fields(&self) -> Seq<Field> {
        self.schema.fields@
    }

    /// The columns.
    pub closed spec fn spec_columns(&self) -> Seq<Array> {
        self.columns@
    }

    /// The name index is the one that the schema determines.
    #[verifier::type_invariant]
    spec fn indexed(self) -> bool {
        self.index@ == name_index(self.schema.fields@)
    }

    /// The row count: the length of the first column, 0 without columns.
    pub open spec fn spec_len(&self) -> nat {
        if self.spec_columns().len() == 0 {
            0
        } else {
            self.spec_columns()[0].rows()
        }
    }

    /// What a reference resolves to: a position in the range of the columns
    /// to itself, a name to the position the schema gives it.
    pub open spec fn resolve(&self, index: Column) -> Result<usize, Error> {
        match index {
            Column::Position(i) => if i < self.spec_columns().len() {
                Ok(i)
            } else {
                Err(Error::IndexOutOfBounds { index: i, len: self.spec_columns().len() as usize })
            },
            Column::Name(name) => match name_position(self.spec_fields(), name@) {
                Some(p) => Ok(p as usize),
                None => Err(Error::IndexDoesNotExist { index }),
            },
        }
    }

    /// A data set of the given columns under the given schema.
    pub fn new(schema: Arc<Schema>, columns: Vec<Array>) -> (data: Data)
        ensures
            data.spec_fields() == schema.fields@,
            data.spec_columns() == columns@,
    {
        let mut index: StringHashMap<usize> = StringHashMap::new();
        let mut i: usize = 0;
        while i < schema.fields.len()
            invariant
                i <= schema.fields.len(),
                index@ == name_index(schema.fields@.take(i as int)),
            decreases schema.fields.len() - i,
        {
            proof {
                let next = schema.fields@.take(i + 1);
                assert(next.drop_last() == schema.fields@.take(i as int));
                assert(next.last() == schema.fields@[i as int]);
            }
            index.insert(schema.fields[i].name().clone(), i);
            i += 1;
        }
        proof {
            assert(schema.fields@.take(schema.fields.len() as int) == schema.fields@);
        }
        Data { schema, columns, index }
    }

    /// The position that the reference resolves to (see `resolve`).
    pub fn field_index(&self, index: &Column) -> (r: Result<usize, Error>)
        ensures
            r == self.resolve(*index),
    {
        match index {
            Column::Position(i) => {
                if *i < self.columns.len() {
                    return Ok(*i);
                }
                Err(Error::IndexOutOfBounds { index: *i, len: self.columns.len() })
            },
            Column::Name(name) => {
                proof {
                    use_type_invariant(self);
                    assert(self.schema.fields.len() == self.schema.fields@.len());
                    lemma_name_index(self.schema.fields@, name@);
                }
                match self.index.get(name.as_str()) {
                    Some(p) => Ok(*p),
                    None => Err(Error::IndexDoesNotExist { index: index.clone() }),
                }
            },
        }
    }

    /// Another handle to the column that the reference resolves to.
    ///
    /// Fails as `resolve` does, and with `IndexOutOfBounds` for a name whose
    /// position has no column.
    pub fn column(&self, index: &Column) -> (r: Result<Array, Error>)
        ensures
            match self.resolve(*index) {
                Ok(p) => if p < self.spec_columns().len() {
                    r == Ok::<Array, Error>(self.spec_columns()[p as int])
                } else {
                    r == Err::<Array, Error>(
                        Error::IndexOutOfBounds {
                            index: p,
                            len: self.spec_columns().len() as usize,
                        },
                    )
                },
                Err(e) => r == Err::<Array, Error>(e),
            },
    {
        let index = match self.field_index(index) {
            Ok(index) => index,
            Err(e) => {
                return Err(e);
            },
        };
        if index >= self.columns.len() {
            return Err(Error::IndexOutOfBounds { index, len: self.columns.len() });
        }
        Ok(self.columns[index].clone())
    }

    /// The column that the reference resolves to, if it is of the given type.
    ///
    /// Fails as `column` does, and with `WrongType` for a column of another
    /// type.
    pub fn typed_column(&self, index: &Column, data_type: DataType) -> (r: Result<&Array, Error>)
        ensures
            match self.resolve(*index) {
                Ok(p) => if p >= self.spec_columns().len() {
                    r == Err::<&Array, Error>(
                        Error::IndexOutOfBounds {
                            index: p,
                            len: self.spec_columns().len() as usize,
                        },
                    )
                } else if self.spec_columns()[p as int].dtype() == data_type {
                    r == Ok::<&Array, Error>(&self.spec_columns()[p as int])
                } else {
                    r == Err::<&Array, Error>(Error::WrongType)
                },
                Err(e) => r == Err::<&Array, Error>(e),
            },
    {
        let index = match self.field_index(index) {
            Ok(index) => index,
            Err(e) => {
                return Err(e);
            },
        };
        if index >= self.columns.len() {
            return Err(Error::IndexOutOfBounds { index, len: self.columns.len() });
        }
        if self.columns[index].data_type() == data_type {
            Ok(&self.columns[index])
        } else {
            Err(Error::WrongType)
        }
    }

    /// The type of the column at a position; `IndexOutOfBounds` where there
    /// is no such column.
    pub fn column_type(&self, index: usize) -> (r: Result<DataType, Error>)
        ensures
            index < self.spec_columns().len() ==> r == Ok::<DataType, Error>(
                self.spec_columns()[index as int].dtype(),
            ),
            index >= self.spec_columns().len() ==> r == Err::<DataType, Error>(
                Error::IndexOutOfBounds { index, len: self.spec_columns().len() as usize },
            ),
    {
        if !(self.columns.len() > index) {
            return Err(Error::IndexOutOfBounds { index, len: self.columns.len() });
        }
        Ok(self.columns[index].data_type())
    }

    /// Another handle to the schema.
    pub fn schema(&self) -> (schema: Arc<Schema>)
        ensures
            schema.fields@ == self.spec_fields(),
    {
        share(&self.schema)
    }

    /// The descriptor at the position that the reference resolves to, if it
    /// resolves to a position of the schema.
    pub fn field(&self, index: &Column) -> (r: Option<&Field>)
        ensures
            match self.resolve(*index) {
                Ok(p) => if p < self.spec_fields().len() {
                    r == Some(&self.spec_fields()[p as int])
                } else {
                    r is None
                },
                Err(_) => r is None,
            },
    {
        match self.field_index(index) {
            Ok(index) => if index < self.schema.fields.len() {
                Some(&self.schema.fields[index])
            } else {
                None
            },
            Err(_) => None,
        }
    }

    /// The number of rows: the length of the first column, 0 without columns.
    pub fn len(&self) -> (n: usize)
        ensures
            n == self.spec_len(),
    {
        if self.columns.len() == 0 {
            return 0;
        }
        self.columns[0].len()
    }

    /// Whether the data set has no rows.
    pub fn is_empty(&self) -> (b: bool)
        ensures
            b == (self.spec_len() == 0),
    {
        self.len() == 0
    }

    /// The column that the reference resolves to, cast to another type. The
    /// data set itself stays as it is.
    ///
    /// Fails as `column` does; with `UnknownDataType` for a target that arrow
    /// has no type for; and with arrow's error where the cast fails, which it
    /// does not from one primitive type to another (see `cast_cell` for what
    /// becomes of each cell).
    pub fn cast(&self, index: &Column, to_type: &DataType) -> (r: Result<Array, Error>)
        ensures
            match self.resolve(*index) {
                Ok(p) => if p >= self.spec_columns().len() {
                    r == Err::<Array, Error>(
                        Error::IndexOutOfBounds {
                            index: p,
                            len: self.spec_columns().len() as usize,
                        },
                    )
                } else if !castable(*to_type) {
                    r == Err::<Array, Error>(Error::UnknownDataType { data_type: *to_type })
                } else {
                    match r {
                        Ok(out) => out.dtype() == *to_type && (self.spec_columns()[p as int].dtype()
                            .is_primitive() && to_type.is_primitive() ==> cast_cells(
                            self.spec_columns()[p as int].dtype(),
                            *to_type,
                            self.spec_columns()[p as int].cells(),
                            out.cells(),
                        )),
                        Err(e) => e is Arrow && !(self.spec_columns()[p as int].dtype()
                            .is_primitive() && to_type.is_primitive()),
                    }
                },
                Err(e) => r == Err::<Array, Error>(e),
            },
    {
        let index = match self.field_index(index) {
            Ok(index) => index,
            Err(e) => {
                return Err(e);
            },
        };
        if index >= self.columns.len() {
            return Err(Error::IndexOutOfBounds { index, len: self.columns.len() });
        }
        match to_type {
            DataType::Timestamp | DataType::Interval | DataType::Other => {
                return Err(Error::UnknownDataType { data_type: *to_type });
            },
            _ => {},
        }
        match kernel_cast(&self.columns[index], *to_type) {
            Ok(casted_data) => Ok(casted_data),
            Err(source) => Err(Error::Arrow { source: ArrowError::from_arrow(source) }),
        }
    }

    /// The cell at a row and a column, as a scalar.
    ///
    /// A row beyond the row count, a column beyond the last one and a row
    /// beyond the end of that column are `IndexOutOfBounds`, in this order. A
    /// null cell is `Null`. Any other cell is read by the column's type; a
    /// type that is neither `Utf8` nor primitive is `UnknownDataType`.
    pub fn value_scalar(&self, row: usize, col: usize) -> (r: Result<ScalarValue<'_>, Error>)
        ensures
            self.cell_outcome(row, col, r),
    {
        if !(row < self.len()) {
            return Err(Error::IndexOutOfBounds { index: row, len: self.len() });
        }
        if !(col < self.columns.len()) {
            return Err(Error::IndexOutOfBounds { index: col, len: self.columns.len() });
        }
        let column = &self.columns[col];
        if !(row < column.len()) {
            return Err(Error::IndexOutOfBounds { index: row, len: column.len() });
        }
        if column.is_null(row) {
            return Ok(ScalarValue::Null);
        }
        let data_type = column.data_type();
        match data_type {
            DataType::Utf8 => Ok(ScalarValue::String(Text::new(column.value_text(row)))),
            DataType::Boolean => Ok(ScalarValue::Boolean(column.value_bool(row))),
            DataType::Int8 => Ok(ScalarValue::Int8(column.value_i8(row))),
            DataType::Int16 => Ok(ScalarValue::Int16(column.value_i16(row))),
            DataType::Int32 => Ok(ScalarValue::Int32(column.value_i32(row))),
            DataType::Int64 => Ok(ScalarValue::Int64(column.value_i64(row))),
            DataType::UInt8 => Ok(ScalarValue::UInt8(column.value_u8(row))),
            DataType::UInt16 => Ok(ScalarValue::UInt16(column.value_u16(row))),
            DataType::UInt32 => Ok(ScalarValue::UInt32(column.value_u32(row))),
            DataType::UInt64 => Ok(ScalarValue::UInt64(column.value_u64(row))),
            DataType::Float32 => Ok(ScalarValue::Float32(column.value_f32_bits(row))),
            DataType::Float64 => Ok(ScalarValue::Float64(column.value_f64_bits(row))),
            _ => Err(Error::UnknownDataType { data_type }),
        }
    }

    /// What reading the cell at `row` and `col` gives (see `value_scalar`).
    pub open spec fn cell_outcome(
        &self,
        row: usize,
        col: usize,
        r: Result<ScalarValue, Error>,
    ) -> bool {
        if row >= self.spec_len() {
            r == Err::<ScalarValue, Error>(
                Error::IndexOutOfBounds { index: row, len: self.spec_len() as usize },
            )
        } else if col >= self.spec_columns().len() {
            r == Err::<ScalarValue, Error>(
                Error::IndexOutOfBounds { index: col, len: self.spec_columns().len() as usize },
            )
        } else if row >= self.spec_columns()[col as int].rows() {
            r == Err::<ScalarValue, Error>(
                Error::IndexOutOfBounds {
                    index: row,
                    len: self.spec_columns()[col as int].rows() as usize,
                },
            )
        } else if readable(self.spec_columns()[col as int], row as int) {
            r matches Ok(v) && scalar_at(self.spec_columns()[col as int], row as int, v)
        } else {
            r == Err::<ScalarValue, Error>(
                Error::UnknownDataType { data_type: self.spec_columns()[col as int].dtype() },
            )
        }
    }

    /// Whether the cell of the column at a position, at row `row`, cannot be
    /// read: it lies beyond the end of the column, or the cell is not readable.
    pub open spec fn unread(&self, row: usize) -> spec_fn(int) -> bool {
        |i: int|
            !(row < self.spec_columns()[i].rows() && readable(self.spec_columns()[i], row as int))
    }

    /// The first column whose cell at `row` cannot be read, or the number of
    /// columns.
    pub open spec fn first_unread(&self, row: usize) -> int {
        first_where(self.spec_columns().len() as int, self.unread(row))
    }

    /// One row, as a scalar for each column in order.
    ///
    /// A row beyond the row count is `IndexOutOfBounds`. Where a cell of the
    /// row cannot be read, the result is the error of the first such cell.
    pub fn row<'a>(&'a self, index: usize) -> (r: Result<Vec<ScalarValue<'a>>, Error>)
        ensures
            index >= self.spec_len() ==> r == Err::<Vec<ScalarValue<'a>>, Error>(
                Error::IndexOutOfBounds { index, len: self.spec_len() as usize },
            ),
            index < self.spec_len() ==> match r {
                Ok(row) => self.first_unread(index) == self.spec_columns().len() && row.len()
                    == self.spec_columns().len() && forall|i: int|
                    0 <= i < row.len() ==> scalar_at(
                        self.spec_columns()[i],
                        index as int,
                        #[trigger] row[i],
                    ),
                Err(e) => self.first_unread(index) < self.spec_columns().len()
                    && self.cell_outcome(index, self.first_unread(index) as usize, Err(e)),
            },
    {
        if !(index < self.len()) {
            return Err(Error::IndexOutOfBounds { index, len: self.len() });
        }
        proof {
            lemma_first_where(self.spec_columns().len() as int, self.unread(index));
        }
        let mut row: Vec<ScalarValue<'a>> = Vec::with_capacity(self.columns.len());
        let mut i: usize = 0;
        while i < self.columns.len()
            invariant
                index < self.spec_len(),
                i <= self.spec_columns().len(),
                self.columns@ == self.spec_columns(),
                i <= self.first_unread(index) <= self.spec_columns().len(),
                forall|k: int|
                    0 <= k < self.first_unread(index) ==> !#[trigger] self.unread(index)(k),
                self.first_unread(index) < self.spec_columns().len() ==> self.unread(index)(
                    self.first_unread(index),
                ),
                row.len() == i,
                forall|k: int|
                    0 <= k < i ==> scalar_at(
                        self.spec_columns()[k],
                        index as int,
                        #[trigger] row[k],
                    ),
            decreases self.columns.len() - i,
        {
            match self.value_scalar(index, i) {
                Ok(value) => {
                    assert(!self.unread(index)(i as int));
                    row.push(value);
                },
                Err(e) => {
                    assert(self.unread(index)(i as int));
                    return Err(e);
                },
            }
            i += 1;
        }
        Ok(row)
    }
}

} // verus!
