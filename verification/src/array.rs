//! The column handle: a shared, immutable arrow array and the few reads the
//! engine makes of it.

use crate::schema::DataType;
use arrow::array::Array as _;
use arrow::array::{make_array, ArrayData, ArrayRef, AsArray, BooleanArray};
use arrow::datatypes::DataType as ArrowType;
use arrow::datatypes::{
    Float32Type, Float64Type, Int16Type, Int32Type, Int64Type, Int8Type, UInt16Type, UInt32Type,
    UInt64Type, UInt8Type,
};
use vstd::prelude::*;

verus! {

/// `arrow::array::ArrayData`, the untyped form in which arrow arrays are
/// handed in and out of the library. Opaque here; `data_cells` and
/// `data_type` name what it holds.
#[verifier::external_type_specification]
#[verifier::external_body]
pub struct ExArrayData(ArrayData);

/// The cells of an array in its untyped form, read as `array_cells` reads
/// those of a column.
pub uninterp spec fn data_cells(data: ArrayData) -> Seq<Option<int>>;

/// The type tag of an array in its untyped form: the tag of its arrow type,
/// `Other` for an arrow type that has no tag of its own.
pub uninterp spec fn data_type(data: ArrayData) -> DataType;

/// A column: a reference-counted arrow array (`arrow::array::ArrayRef`).
///
/// Cloning shares the storage. The handle is opaque to proofs: what a column
/// holds is named by `array_cells`, `array_type` and `array_texts`, and the
/// methods below say how arrow's accessors relate to those names.
#[verifier::external_body]
pub struct Array {
    pub(crate) data: ArrayRef,
}

/// The cells of a column, one per row: `None` for a null slot, else the stored
/// value. A boolean is 0 or 1, an integer is itself, a float is its IEEE-754
/// bit pattern read as an unsigned integer. Nothing is said of the cells of a
/// column whose type is not primitive.
pub uninterp spec fn array_cells(a: Array) -> Seq<Option<int>>;

/// The type tag of a column.
pub uninterp spec fn array_type(a: Array) -> DataType;

/// The bytes of each row of a `Utf8` column.
pub uninterp spec fn array_texts(a: Array) -> Seq<Seq<u8>>;

/// The text of row `index`, where there is such a row.
pub open spec fn text_at(texts: Seq<Seq<u8>>, index: int) -> Option<Seq<u8>> {
    if 0 <= index < texts.len() {
        Some(texts[index])
    } else {
        None
    }
}

/// The cell value that stands for a boolean.
pub open spec fn bool_cell(b: bool) -> int {
    if b {
        1
    } else {
        0
    }
}

impl Array {
    /// The cells of the column (see `array_cells`).
    pub open spec fn cells(&self) -> Seq<Option<int>> {
        array_cells(*self)
    }

    /// The type tag of the column (see `array_type`).
    pub open spec fn dtype(&self) -> DataType {
        array_type(*self)
    }

    /// The number of rows.
    pub open spec fn rows(&self) -> nat {
        array_cells(*self).len()
    }

    /// `arrow::array::make_array`, on a copy of the data that shares its
    /// buffers: the array in its typed form, with the same cells and the same
    /// type. It is called on the arrow types that have a tag of their own,
    /// for each of which `make_array` has an arm; data of any other type,
    /// whose tag is `Other`, is refused with `None`.
    #[verifier::external_body]
    pub fn new(data: &ArrayData) -> (r: Option<Array>)
        ensures
            match r {
                Some(a) => array_cells(a) == data_cells(*data) && array_type(a) == data_type(*data)
                    && !(data_type(*data) is Other),
                None => data_type(*data) is Other,
            },
    {
        match data.data_type() {
            ArrowType::Boolean | ArrowType::Utf8 | ArrowType::Binary
            | ArrowType::Int8 | ArrowType::Int16 | ArrowType::Int32 | ArrowType::Int64
            | ArrowType::UInt8 | ArrowType::UInt16 | ArrowType::UInt32 | ArrowType::UInt64
            | ArrowType::Float32 | ArrowType::Float64 | ArrowType::Date32 | ArrowType::Date64
            | ArrowType::Timestamp(_, _) | ArrowType::Interval(_) => {
                Some(Array { data: make_array(data.clone()) })
            },
            _ => None,
        }
    }

    /// `arrow::array::Array::to_data`: the column in arrow's untyped form,
    /// with the same cells and the same type; the buffers are shared.
    #[verifier::external_body]
    pub fn to_data(&self) -> (data: ArrayData)
        ensures
            data_cells(data) == array_cells(*self),
            data_type(data) == array_type(*self),
    {
        self.data.to_data()
    }

    /// `arrow::array::Array::len`: the number of slots, null or not.
    #[verifier::external_body]
    pub fn len(&self) -> (n: usize)
        ensures
            n == array_cells(*self).len(),
    {
        self.data.len()
    }

    /// `arrow::array::Array::is_null`: whether the slot at `index` is null.
    /// It panics when `index` is out of range, which `requires` excludes.
    #[verifier::external_body]
    pub fn is_null(&self, index: usize) -> (b: bool)
        requires
            index < array_cells(*self).len(),
        ensures
            b == (array_cells(*self)[index as int] is None),
    {
        self.data.is_null(index)
    }

    /// Whether the slot at `index` holds a value.
    pub fn is_valid(&self, index: usize) -> (b: bool)
        requires
            index < self.rows(),
        ensures
            b == (self.cells()[index as int] is Some),
    {
        !self.is_null(index)
    }

    /// Whether the column has no rows.
    pub fn is_empty(&self) -> (b: bool)
        ensures
            b == (self.rows() == 0),
    {
        self.len() == 0
    }

    /// `arrow::array::Array::data_type`, mapped variant by variant to the
    /// library's tag; arrow types without a tag of their own map to `Other`.
    #[verifier::external_body]
    pub fn data_type(&self) -> (t: DataType)
        ensures
            t == array_type(*self),
    {
        match self.data.data_type() {
            ArrowType::Boolean => DataType::Boolean, ArrowType::Utf8 => DataType::Utf8,
            ArrowType::Int8 => DataType::Int8, ArrowType::UInt8 => DataType::UInt8,
            ArrowType::Int16 => DataType::Int16, ArrowType::UInt16 => DataType::UInt16,
            ArrowType::Int32 => DataType::Int32, ArrowType::UInt32 => DataType::UInt32,
            ArrowType::Int64 => DataType::Int64, ArrowType::UInt64 => DataType::UInt64,
            ArrowType::Float32 => DataType::Float32, ArrowType::Float64 => DataType::Float64,
            ArrowType::Binary => DataType::Binary, ArrowType::Interval(_) => DataType::Interval,
            ArrowType::Date32 => DataType::Date32, ArrowType::Date64 => DataType::Date64,
            ArrowType::Timestamp(_, _) => DataType::Timestamp,
            _ => DataType::Other,
        }
    }

    /// Tells whether the column holds one of the ten numeric primitives.
    pub fn is_numeric_type(&self) -> (b: bool)
        ensures
            b == self.dtype().is_numeric(),
    {
        self.data_type().is_numeric_type()
    }

    /// Tells whether the column holds one of the reserved temporal types.
    pub fn is_temporal_type(&self) -> (b: bool)
        ensures
            b == self.dtype().is_temporal(),
    {
        self.data_type().is_temporal_type()
    }

    /// Tells whether the column is numeric or temporal.
    pub fn is_arrow_numeric_type(&self) -> (b: bool)
        ensures
            b == (self.dtype().is_numeric() || self.dtype().is_temporal()),
    {
        self.is_numeric_type() || self.is_temporal_type()
    }

    /// `BooleanArray::value` on a boolean column. Arrow leaves the value of a
    /// null slot open, so the claim is only made of a slot that holds one.
    #[verifier::external_body]
    pub(crate) fn value_bool(&self, index: usize) -> (v: bool)
        requires
            array_type(*self) == DataType::Boolean,
            index < array_cells(*self).len(),
        ensures
            array_cells(*self)[index as int] is Some ==> array_cells(*self)[index as int] == Some(
                bool_cell(v),
            ),
    {
        self.data.as_boolean().value(index)
    }

    /// `PrimitiveArray::value` on a `UInt8` column; a null slot's value is open.
    #[verifier::external_body]
    pub(crate) fn value_u8(&self, index: usize) -> (v: u8)
        requires
            array_type(*self) == DataType::UInt8,
            index < array_cells(*self).len(),
        ensures
            array_cells(*self)[index as int] is Some ==> array_cells(*self)[index as int] == Some(
                v as int,
            ),
    {
        self.data.as_primitive::<UInt8Type>().value(index)
    }

    /// `PrimitiveArray::value` on a `UInt16` column; a null slot's value is open.
    #[verifier::external_body]
    pub(crate) fn value_u16(&self, index: usize) -> (v: u16)
        requires
            array_type(*self) == DataType::UInt16,
            index < array_cells(*self).len(),
        ensures
            array_cells(*self)[index as int] is Some ==> array_cells(*self)[index as int] == Some(
                v as int,
            ),
    {
        self.data.as_primitive::<UInt16Type>().value(index)
    }

    /// `PrimitiveArray::value` on a `UInt32` column; a null slot's value is open.
    #[verifier::external_body]
    pub(crate) fn value_u32(&self, index: usize) -> (v: u32)
        requires
            array_type(*self) == DataType::UInt32,
            index < array_cells(*self).len(),
        ensures
            array_cells(*self)[index as int] is Some ==> array_cells(*self)[index as int] == Some(
                v as int,
            ),
    {
        self.data.as_primitive::<UInt32Type>().value(index)
    }

    /// `PrimitiveArray::value` on a `UInt64` column; a null slot's value is open.
    #[verifier::external_body]
    pub(crate) fn value_u64(&self, index: usize) -> (v: u64)
        requires
            array_type(*self) == DataType::UInt64,
            index < array_cells(*self).len(),
        ensures
            array_cells(*self)[index as int] is Some ==> array_cells(*self)[index as int] == Some(
                v as int,
            ),
    {
        self.data.as_primitive::<UInt64Type>().value(index)
    }

    /// `PrimitiveArray::value` on an `Int8` column; a null slot's value is open.
    #[verifier::external_body]
    pub(crate) fn value_i8(&self, index: usize) -> (v: i8)
        requires
            array_type(*self) == DataType::Int8,
            index < array_cells(*self).len(),
        ensures
            array_cells(*self)[index as int] is Some ==> array_cells(*self)[index as int] == Some(
                v as int,
            ),
    {
        self.data.as_primitive::<Int8Type>().value(index)
    }

    /// `PrimitiveArray::value` on an `Int16` column; a null slot's value is open.
    #[verifier::external_body]
    pub(crate) fn value_i16(&self, index: usize) -> (v: i16)
        requires
            array_type(*self) == DataType::Int16,
            index < array_cells(*self).len(),
        ensures
            array_cells(*self)[index as int] is Some ==> array_cells(*self)[index as int] == Some(
                v as int,
            ),
    {
        self.data.as_primitive::<Int16Type>().value(index)
    }

    /// `PrimitiveArray::value` on an `Int32` column; a null slot's value is open.
    #[verifier::external_body]
    pub(crate) fn value_i32(&self, index: usize) -> (v: i32)
        requires
            array_type(*self) == DataType::Int32,
            index < array_cells(*self).len(),
        ensures
            array_cells(*self)[index as int] is Some ==> array_cells(*self)[index as int] == Some(
                v as int,
            ),
    {
        self.data.as_primitive::<Int32Type>().value(index)
    }

    /// `PrimitiveArray::value` on an `Int64` column; a null slot's value is open.
    #[verifier::external_body]
    pub(crate) fn value_i64(&self, index: usize) -> (v: i64)
        requires
            array_type(*self) == DataType::Int64,
            index < array_cells(*self).len(),
        ensures
            array_cells(*self)[index as int] is Some ==> array_cells(*self)[index as int] == Some(
                v as int,
            ),
    {
        self.data.as_primitive::<Int64Type>().value(index)
    }

    /// `PrimitiveArray::value` on a `Float32` column, handed out as the value's
    /// bit pattern (`to_bits`); a null slot's value is open.
    #[verifier::external_body]
    pub(crate) fn value_f32_bits(&self, index: usize) -> (v: u32)
        requires
            array_type(*self) == DataType::Float32,
            index < array_cells(*self).len(),
        ensures
            array_cells(*self)[index as int] is Some ==> array_cells(*self)[index as int] == Some(
                v as int,
            ),
    {
        self.data.as_primitive::<Float32Type>().value(index).to_bits()
    }

    /// `PrimitiveArray::value` on a `Float64` column, handed out as the value's
    /// bit pattern (`to_bits`); a null slot's value is open.
    #[verifier::external_body]
    pub(crate) fn value_f64_bits(&self, index: usize) -> (v: u64)
        requires
            array_type(*self) == DataType::Float64,
            index < array_cells(*self).len(),
        ensures
            array_cells(*self)[index as int] is Some ==> array_cells(*self)[index as int] == Some(
                v as int,
            ),
    {
        self.data.as_primitive::<Float64Type>().value(index).to_bits()
    }

    /// `GenericByteArray::value` on a `Utf8` column: the bytes of the row's
    /// text, borrowed from the column's storage.
    #[verifier::external_body]
    pub(crate) fn value_text(&self, index: usize) -> (bytes: &[u8])
        requires
            array_type(*self) == DataType::Utf8,
            index < array_cells(*self).len(),
        ensures
            Some(bytes@) == text_at(array_texts(*self), index as int),
    {
        self.data.as_string::<i32>().value(index).as_bytes()
    }

    /// The value of a primitive column at a row that holds one: 0 or 1 for a
    /// boolean, the bit pattern for a float.
    pub(crate) fn cell_value(&self, index: usize) -> (v: i128)
        requires
            self.dtype().is_primitive(),
            index < self.rows(),
            self.cells()[index as int] is Some,
        ensures
            self.cells()[index as int] == Some(v as int),
            self.dtype().holds(v as int),
    {
        match self.data_type() {
            DataType::Boolean => if self.value_bool(index) {
                1
            } else {
                0
            },
            DataType::UInt8 => self.value_u8(index) as i128,
            DataType::UInt16 => self.value_u16(index) as i128,
            DataType::UInt32 => self.value_u32(index) as i128,
            DataType::UInt64 => self.value_u64(index) as i128,
            DataType::Int8 => self.value_i8(index) as i128,
            DataType::Int16 => self.value_i16(index) as i128,
            DataType::Int32 => self.value_i32(index) as i128,
            DataType::Int64 => self.value_i64(index) as i128,
            DataType::Float32 => self.value_f32_bits(index) as i128,
            _ => self.value_f64_bits(index) as i128,
        }
    }

    /// A boolean column made of the given cells, `None` for a null, through
    /// arrow's `From<Vec<Option<bool>>>` for `BooleanArray`.
    #[verifier::external_body]
    pub(crate) fn from_bools(values: Vec<Option<bool>>) -> (a: Array)
        ensures
            array_type(a) == DataType::Boolean,
            array_cells(a) == bool_cells(values@),
    {
        Array { data: std::sync::Arc::new(BooleanArray::from(values)) }
    }
}

/// The cells of a boolean column that holds the given values.
pub open spec fn bool_cells(values: Seq<Option<bool>>) -> Seq<Option<int>> {
    Seq::new(
        values.len(),
        |i: int|
            match values[i] {
                Some(b) => Some(bool_cell(b)),
                None => None,
            },
    )
}

impl Clone for Array {
    /// `Arc::clone`: another handle to the same array.
    #[verifier::external_body]
    fn clone(&self) -> (a: Self)
        ensures
            a == *self,
    {
        Array { data: self.data.clone() }
    }
}

} // verus!
