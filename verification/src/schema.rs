//! Type tags and column descriptors.

use vstd::prelude::*;

verus! {

/// The tag that identifies the element type of a column.
///
/// The boolean tag, the eight integer widths, the two float widths and the two
/// variable-length tags are the ones the engine evaluates. The temporal tags
/// are reserved: they are recognised and never computed on. Every other
/// storage type is `Other`.
#[derive(Clone, Copy, Debug, PartialEq, Eq, Structural)]
pub enum DataType {
    Boolean,
    Int8,
    Int16,
    Int32,
    Int64,
    UInt8,
    UInt16,
    UInt32,
    UInt64,
    Float32,
    Float64,
    Utf8,
    Binary,
    Timestamp,
    Date32,
    Date64,
    Interval,
    Other,
}

impl DataType {
    /// One of the four unsigned integer widths.
    pub open spec fn is_unsigned(self) -> bool {
        self is UInt8 || self is UInt16 || self is UInt32 || self is UInt64
    }

    /// One of the four signed integer widths.
    pub open spec fn is_signed(self) -> bool {
        self is Int8 || self is Int16 || self is Int32 || self is Int64
    }

    /// One of the eight integer widths.
    pub open spec fn is_integer(self) -> bool {
        self.is_unsigned() || self.is_signed()
    }

    /// One of the two float widths.
    pub open spec fn is_float(self) -> bool {
        self is Float32 || self is Float64
    }

    /// One of the ten numeric primitives.
    pub open spec fn is_numeric(self) -> bool {
        self.is_integer() || self.is_float()
    }

    /// One of the reserved temporal tags.
    pub open spec fn is_temporal(self) -> bool {
        self is Timestamp || self is Date32 || self is Date64 || self is Interval
    }

    /// The boolean tag or one of the ten numeric primitives: the types whose
    /// cells are fixed-width values.
    pub open spec fn is_primitive(self) -> bool {
        self is Boolean || self.is_numeric()
    }

    /// Bytes per element of a fixed-width numeric type, 0 for every other tag.
    pub open spec fn byte_width(self) -> nat {
        match self {
            DataType::Int8 | DataType::UInt8 => 1,
            DataType::Int16 | DataType::UInt16 => 2,
            DataType::Int32 | DataType::UInt32 | DataType::Float32 => 4,
            DataType::Int64 | DataType::UInt64 | DataType::Float64 => 8,
            _ => 0,
        }
    }

    /// Smallest cell value of the type. Booleans are the integers 0 and 1, and
    /// floats are taken by their bit pattern.
    pub open spec fn min_value(self) -> int {
        match self {
            DataType::Int8 => -0x80,
            DataType::Int16 => -0x8000,
            DataType::Int32 => -0x8000_0000,
            DataType::Int64 => -0x8000_0000_0000_0000,
            _ => 0,
        }
    }

    /// Largest cell value of the type, in the same reading as `min_value`.
    pub open spec fn max_value(self) -> int {
        match self {
            DataType::Boolean => 1,
            DataType::Int8 => 0x7f,
            DataType::Int16 => 0x7fff,
            DataType::Int32 => 0x7fff_ffff,
            DataType::Int64 => 0x7fff_ffff_ffff_ffff,
            DataType::UInt8 => 0xff,
            DataType::UInt16 => 0xffff,
            DataType::UInt32 | DataType::Float32 => 0xffff_ffff,
            DataType::UInt64 | DataType::Float64 => 0xffff_ffff_ffff_ffff,
            _ => 0,
        }
    }

    /// Whether `v` is a cell value of the type.
    pub open spec fn holds(self, v: int) -> bool {
        self.min_value() <= v <= self.max_value()
    }

    /// Tells whether the tag is one of the ten numeric primitives.
    pub fn is_numeric_type(&self) -> (b: bool)
        ensures
            b == self.is_numeric(),
    {
        match self {
            DataType::Int8
            | DataType::Int16
            | DataType::Int32
            | DataType::Int64
            | DataType::UInt8
            | DataType::UInt16
            | DataType::UInt32
            | DataType::UInt64
            | DataType::Float32
            | DataType::Float64 => true,
            _ => false,
        }
    }

    /// Tells whether the tag is one of the reserved temporal tags.
    pub fn is_temporal_type(&self) -> (b: bool)
        ensures
            b == self.is_temporal(),
    {
        match self {
            DataType::Timestamp | DataType::Date32 | DataType::Date64 | DataType::Interval => true,
            _ => false,
        }
    }
}

/// Descriptor of one column: its name, its type tag and whether it may hold
/// nulls.
#[derive(Debug, PartialEq)]
pub struct Field {
    pub name: String,
    pub data_type: DataType,
    pub nullable: bool,
}

impl Field {
    /// A descriptor with the given name, type and nullability.
    pub fn new(name: &str, data_type: DataType, nullable: bool) -> (f: Field)
        ensures
            f.name@ == name@,
            f.data_type == data_type,
            f.nullable == nullable,
    {
        Field { name: name.to_owned(), data_type, nullable }
    }

    /// The column's name.
    pub fn name(&self) -> (n: &String)
        ensures
            n == self.name,
    {
        &self.name
    }

    /// The column's type tag.
    pub fn data_type(&self) -> (t: &DataType)
        ensures
            *t == self.data_type,
    {
        &self.data_type
    }

    /// Whether the column may hold nulls.
    pub fn is_nullable(&self) -> (b: bool)
        ensures
            b == self.nullable,
    {
        self.nullable
    }
}

/// The descriptors of a data set, in column order.
#[derive(Debug)]
pub struct Schema {
    pub fields: Vec<Field>,
}

impl Schema {
    /// A schema of the given descriptors.
    pub fn new(fields: Vec<Field>) -> (s: Schema)
        ensures
            s.fields == fields,
    {
        Schema { fields }
    }

    /// The descriptors, in column order.
    pub fn fields(&self) -> (fields: &Vec<Field>)
        ensures
            *fields == self.fields,
    {
        &self.fields
    }
}

impl Clone for Field {
    fn clone(&self) -> (f: Self)
        ensures
            f == *self,
    {
        Field { name: self.name.clone(), data_type: self.data_type, nullable: self.nullable }
    }
}

} // verus!
