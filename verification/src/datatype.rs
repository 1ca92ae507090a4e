//! Scalars: single typed values, and their decoding from fixed-width bytes.

use crate::array::bool_cell;
use crate::error::Error;
use crate::schema::DataType;
use bstr::BStr;
use vstd::prelude::*;

verus! {

/// A text: a byte string that is text by convention (`&bstr::BStr`), borrowed
/// from the storage it was read from. Opaque to proofs; `text_bytes` names
/// what it holds.
#[verifier::external_body]
#[derive(Debug, PartialEq)]
pub struct Text<'a> {
    bytes: &'a BStr,
}

impl<'a> Clone for Text<'a> {
    /// A copy of the reference: the same text.
    fn clone(&self) -> (text: Self)
        ensures
            text == *self,
    {
        *self
    }
}

impl<'a> Copy for Text<'a> {

}

/// The bytes of a text.
pub uninterp spec fn text_bytes(text: Text) -> Seq<u8>;

impl<'a> Text<'a> {
    /// `BStr::new`: the same bytes, taken as text without a copy.
    #[verifier::external_body]
    pub fn new(bytes: &'a [u8]) -> (text: Text<'a>)
        ensures
            text_bytes(text) == bytes@,
    {
        Text { bytes: BStr::new(bytes) }
    }

    /// `<BStr as AsRef<[u8]>>::as_ref`: the bytes of the text.
    #[verifier::external_body]
    pub fn as_bytes(&self) -> (bytes: &'a [u8])
        ensures
            bytes@ == text_bytes(*self),
    {
        self.bytes.as_ref()
    }
}

/// The address at which a slice starts, through `<[u8]>::as_ptr`. It differs
/// from run to run, so nothing is claimed of it.
#[verifier::external_body]
fn slice_address(bytes: &[u8]) -> (address: usize) {
    bytes.as_ptr().addr()
}

/// A single value, tagged by its type.
///
/// A float is held by its IEEE-754 bit pattern. Text and raw bytes borrow the
/// storage they were read from.
#[derive(Clone, Copy, Debug, PartialEq)]
pub enum ScalarValue<'a> {
    Boolean(bool),
    UInt8(u8),
    UInt16(u16),
    UInt32(u32),
    UInt64(u64),
    Int8(i8),
    Int16(i16),
    Int32(i32),
    Int64(i64),
    Float32(u32),
    Float64(u64),
    Binary(&'a [u8]),
    String(Text<'a>),
    Null,
}

/// The number that little-endian bytes stand for.
pub open spec fn le_value(bytes: Seq<u8>) -> nat
    decreases bytes.len(),
{
    if bytes.len() == 0 {
        0
    } else {
        bytes[0] as nat + 256 * le_value(bytes.drop_first())
    }
}

/// 256 to the power of `n`.
pub open spec fn pow256(n: nat) -> nat
    decreases n,
{
    if n == 0 {
        1
    } else {
        256 * pow256((n - 1) as nat)
    }
}

/// The value of `raw`, an unsigned number of `width` bytes, read as two's
/// complement.
pub open spec fn twos_complement(width: nat, raw: nat) -> int {
    if 2 * raw < pow256(width) {
        raw as int
    } else {
        raw - pow256(width)
    }
}

/// Bytes of `width` bytes stand for a number below 256 to the `width`.
pub proof fn lemma_le_value_bound(bytes: Seq<u8>)
    ensures
        le_value(bytes) < pow256(bytes.len()),
    decreases bytes.len(),
{
    if bytes.len() > 0 {
        lemma_le_value_bound(bytes.drop_first());
    }
}

/// The widths of the numeric types.
pub open spec fn numeric_width(width: nat) -> bool {
    width == 1 || width == 2 || width == 4 || width == 8
}

/// What decoding `bytes`, found at `address`, as an unsigned number of `width`
/// bytes gives: the little-endian value, when there are exactly `width` bytes
/// and they start at a multiple of `width`.
pub open spec fn decoded(width: nat, bytes: Seq<u8>, address: nat) -> Result<u64, Error> {
    if bytes.len() != width {
        Err(Error::InvalidByteLength { len: bytes.len() as usize, expected: width as usize })
    } else if address % width != 0 {
        Err(Error::InvalidByteAlignment)
    } else {
        Ok(le_value(bytes) as u64)
    }
}

/// Decodes bytes that were found at `address` as a little-endian unsigned
/// number of `width` bytes.
pub fn from_bytes_at(width: usize, bytes: &[u8], address: usize) -> (r: Result<u64, Error>)
    requires
        numeric_width(width as nat),
    ensures
        r == decoded(width as nat, bytes@, address as nat),
        r is Ok ==> r.unwrap() == le_value(bytes@),
{
    if bytes.len() != width {
        return Err(Error::InvalidByteLength { len: bytes.len(), expected: width });
    }
    if address % width != 0 {
        return Err(Error::InvalidByteAlignment);
    }
    let mut value: u64 = 0;
    let mut i: usize = width;
    proof {
        assert(bytes@.skip(width as int) =~= Seq::<u8>::empty());
        reveal_with_fuel(pow256, 9);
    }
    while i > 0
        invariant
            i <= width <= 8,
            bytes.len() == width,
            value == le_value(bytes@.skip(i as int)),
            value < pow256((width - i) as nat),
        decreases i,
    {
        i -= 1;
        proof {
            let tail = bytes@.skip(i as int);
            assert(tail.drop_first() =~= bytes@.skip(i + 1));
            assert(tail[0] == bytes@[i as int]);
            lemma_le_value_bound(tail);
            assert(tail.len() == width - i);
            reveal_with_fuel(pow256, 9);
            assert(pow256((width - i) as nat) <= 0x1_0000_0000_0000_0000);
        }
        value = value * 256 + bytes[i] as u64;
    }
    proof {
        assert(bytes@.skip(0) =~= bytes@);
    }
    Ok(value)
}

/// Decodes a little-endian unsigned number of `width` bytes.
///
/// The slice must hold exactly `width` bytes, else the result is
/// `InvalidByteLength`. It must start at a multiple of `width`, else the
/// result is `InvalidByteAlignment`; where a slice starts is not known before
/// the call.
pub fn from_bytes(width: usize, bytes: &[u8]) -> (r: Result<u64, Error>)
    requires
        numeric_width(width as nat),
    ensures
        exists|address: nat| r == decoded(width as nat, bytes@, address),
        bytes.len() != width ==> r == Err::<u64, Error>(
            Error::InvalidByteLength { len: bytes.len(), expected: width },
        ),
        bytes.len() == width ==> r == Ok::<u64, Error>(le_value(bytes@) as u64) || r == Err::<
            u64,
            Error,
        >(Error::InvalidByteAlignment),
{
    let address = slice_address(bytes);
    let r = from_bytes_at(width, bytes, address);
    proof {
        assert(r == decoded(width as nat, bytes@, address as nat));
    }
    r
}

impl<'a> ScalarValue<'a> {
    /// The type tag of the scalar. Raw bytes and null have none.
    pub open spec fn spec_data_type(&self) -> Option<DataType> {
        match self {
            ScalarValue::Boolean(_) => Some(DataType::Boolean),
            ScalarValue::UInt8(_) => Some(DataType::UInt8),
            ScalarValue::UInt16(_) => Some(DataType::UInt16),
            ScalarValue::UInt32(_) => Some(DataType::UInt32),
            ScalarValue::UInt64(_) => Some(DataType::UInt64),
            ScalarValue::Int8(_) => Some(DataType::Int8),
            ScalarValue::Int16(_) => Some(DataType::Int16),
            ScalarValue::Int32(_) => Some(DataType::Int32),
            ScalarValue::Int64(_) => Some(DataType::Int64),
            ScalarValue::Float32(_) => Some(DataType::Float32),
            ScalarValue::Float64(_) => Some(DataType::Float64),
            ScalarValue::String(_) => Some(DataType::Utf8),
            _ => None,
        }
    }

    /// The scalar as the cell of a column holds it: a boolean as 0 or 1, an
    /// integer as itself, a float as its bit pattern; `None` for null, text
    /// and raw bytes.
    pub open spec fn cell(&self) -> Option<int> {
        match self {
            ScalarValue::Boolean(v) => Some(bool_cell(*v)),
            ScalarValue::UInt8(v) => Some(*v as int),
            ScalarValue::UInt16(v) => Some(*v as int),
            ScalarValue::UInt32(v) => Some(*v as int),
            ScalarValue::UInt64(v) => Some(*v as int),
            ScalarValue::Int8(v) => Some(*v as int),
            ScalarValue::Int16(v) => Some(*v as int),
            ScalarValue::Int32(v) => Some(*v as int),
            ScalarValue::Int64(v) => Some(*v as int),
            ScalarValue::Float32(v) => Some(*v as int),
            ScalarValue::Float64(v) => Some(*v as int),
            _ => None,
        }
    }

    /// The cell value that `raw`, the little-endian number in the bytes of a
    /// numeric type, stands for: itself, or its two's complement reading for
    /// a signed type.
    pub open spec fn cell_of_raw(data_type: DataType, raw: nat) -> int {
        if data_type.is_signed() {
            twos_complement(data_type.byte_width(), raw)
        } else {
            raw as int
        }
    }

    /// What decoding `bytes`, found at `address`, as a scalar of a numeric type
    /// gives: the error of `decoded`, or the scalar of that type whose value
    /// the decoded number stands for.
    pub open spec fn numeric_at(
        data_type: DataType,
        bytes: Seq<u8>,
        address: nat,
        r: Result<ScalarValue, Error>,
    ) -> bool {
        match decoded(data_type.byte_width(), bytes, address) {
            Ok(raw) => r matches Ok(v) && v.spec_data_type() == Some(data_type) && v.cell() == Some(
                Self::cell_of_raw(data_type, raw as nat),
            ),
            Err(e) => r == Err::<ScalarValue, Error>(e),
        }
    }

    /// Decodes bytes that were found at `address` as a scalar of the given
    /// type.
    ///
    /// Text takes the bytes as they are. A numeric type takes the
    /// little-endian reading of exactly as many bytes as it is wide, starting
    /// at a multiple of its width. No other type is decoded.
    pub fn from_bytes_at(data_type: &DataType, bytes: &'a [u8], address: usize) -> (r: Result<
        ScalarValue<'a>,
        Error,
    >)
        ensures
            *data_type is Utf8 ==> (r matches Ok(ScalarValue::String(text)) && text_bytes(text)
                == bytes@),
            data_type.is_numeric() ==> Self::numeric_at(*data_type, bytes@, address as nat, r),
            !data_type.is_numeric() && !(*data_type is Utf8) ==> r == Err::<ScalarValue<'a>, Error>(
                Error::UnknownDataType { data_type: *data_type },
            ),
    {
        proof {
            reveal_with_fuel(pow256, 9);
        }
        match data_type {
            DataType::Utf8 => Ok(ScalarValue::String(Text::new(bytes))),
            DataType::UInt8 => match from_bytes_at(1, bytes, address) {
                Ok(raw) => {
                    proof {
                        lemma_le_value_bound(bytes@);
                    }
                    Ok(ScalarValue::UInt8(raw as u8))
                },
                Err(e) => Err(e),
            },
            DataType::UInt16 => match from_bytes_at(2, bytes, address) {
                Ok(raw) => {
                    proof {
                        lemma_le_value_bound(bytes@);
                    }
                    Ok(ScalarValue::UInt16(raw as u16))
                },
                Err(e) => Err(e),
            },
            DataType::UInt32 => match from_bytes_at(4, bytes, address) {
                Ok(raw) => {
                    proof {
                        lemma_le_value_bound(bytes@);
                    }
                    Ok(ScalarValue::UInt32(raw as u32))
                },
                Err(e) => Err(e),
            },
            DataType::UInt64 => match from_bytes_at(8, bytes, address) {
                Ok(raw) => Ok(ScalarValue::UInt64(raw)),
                Err(e) => Err(e),
            },
            DataType::Int8 => match from_bytes_at(1, bytes, address) {
                Ok(raw) => {
                    proof {
                        lemma_le_value_bound(bytes@);
                    }
                    if raw < 0x80 {
                        Ok(ScalarValue::Int8(raw as i8))
                    } else {
                        Ok(ScalarValue::Int8((raw as i16 - 0x100) as i8))
                    }
                },
                Err(e) => Err(e),
            },
            DataType::Int16 => match from_bytes_at(2, bytes, address) {
                Ok(raw) => {
                    proof {
                        lemma_le_value_bound(bytes@);
                    }
                    if raw < 0x8000 {
                        Ok(ScalarValue::Int16(raw as i16))
                    } else {
                        Ok(ScalarValue::Int16((raw as i32 - 0x1_0000) as i16))
                    }
                },
                Err(e) => Err(e),
            },
            DataType::Int32 => match from_bytes_at(4, bytes, address) {
                Ok(raw) => {
                    proof {
                        lemma_le_value_bound(bytes@);
                    }
                    if raw < 0x8000_0000 {
                        Ok(ScalarValue::Int32(raw as i32))
                    } else {
                        Ok(ScalarValue::Int32((raw as i64 - 0x1_0000_0000) as i32))
                    }
                },
                Err(e) => Err(e),
            },
            DataType::Int64 => match from_bytes_at(8, bytes, address) {
                Ok(raw) => {
                    if raw < 0x8000_0000_0000_0000 {
                        Ok(ScalarValue::Int64(raw as i64))
                    } else {
                        Ok(ScalarValue::Int64((raw as i128 - 0x1_0000_0000_0000_0000) as i64))
                    }
                },
                Err(e) => Err(e),
            },
            DataType::Float32 => match from_bytes_at(4, bytes, address) {
                Ok(raw) => {
                    proof {
                        lemma_le_value_bound(bytes@);
                    }
                    Ok(ScalarValue::Float32(raw as u32))
                },
                Err(e) => Err(e),
            },
            DataType::Float64 => match from_bytes_at(8, bytes, address) {
                Ok(raw) => Ok(ScalarValue::Float64(raw)),
                Err(e) => Err(e),
            },
            _ => Err(Error::UnknownDataType { data_type: *data_type }),
        }
    }

    /// Decodes bytes as a scalar of the given type (see `from_bytes_at`; the
    /// address is that of the slice, which is not known before the call, so
    /// that a type wider than one byte may be refused as misaligned).
    pub fn from_bytes(data_type: &DataType, bytes: &'a [u8]) -> (r: Result<ScalarValue<'a>, Error>)
        ensures
            *data_type is Utf8 ==> (r matches Ok(ScalarValue::String(text)) && text_bytes(text)
                == bytes@),
            data_type.is_numeric() && bytes.len() != data_type.byte_width() ==> r == Err::<
                ScalarValue<'a>,
                Error,
            >(
                Error::InvalidByteLength {
                    len: bytes.len(),
                    expected: data_type.byte_width() as usize,
                },
            ),
            data_type.is_numeric() && bytes.len() == data_type.byte_width() ==> r == Err::<
                ScalarValue<'a>,
                Error,
            >(Error::InvalidByteAlignment) || (r matches Ok(v) && v.spec_data_type() == Some(
                *data_type,
            ) && v.cell() == Some(Self::cell_of_raw(*data_type, le_value(bytes@)))),
            data_type.byte_width() == 1 && bytes.len() == 1 ==> (r matches Ok(v)
                && v.spec_data_type() == Some(*data_type) && v.cell() == Some(
                Self::cell_of_raw(*data_type, le_value(bytes@)),
            )),
            data_type.is_numeric() ==> exists|address: nat|
                #[trigger] Self::numeric_at(*data_type, bytes@, address, r),
            !data_type.is_numeric() && !(*data_type is Utf8) ==> r == Err::<ScalarValue<'a>, Error>(
                Error::UnknownDataType { data_type: *data_type },
            ),
    {
        let address = slice_address(bytes);
        proof {
            lemma_le_value_bound(bytes@);
            reveal_with_fuel(pow256, 9);
        }
        let r = Self::from_bytes_at(data_type, bytes, address);
        proof {
            if data_type.is_numeric() {
                assert(Self::numeric_at(*data_type, bytes@, address as nat, r));
            }
        }
        r
    }

    /// The type tag of the scalar. Raw bytes and null have none.
    pub fn data_type(&self) -> (t: Option<DataType>)
        ensures
            t == self.spec_data_type(),
    {
        match self {
            Self::Boolean(_) => Some(DataType::Boolean),
            Self::UInt8(_) => Some(DataType::UInt8),
            Self::UInt16(_) => Some(DataType::UInt16),
            Self::UInt32(_) => Some(DataType::UInt32),
            Self::UInt64(_) => Some(DataType::UInt64),
            Self::Int8(_) => Some(DataType::Int8),
            Self::Int16(_) => Some(DataType::Int16),
            Self::Int32(_) => Some(DataType::Int32),
            Self::Int64(_) => Some(DataType::Int64),
            Self::Float32(_) => Some(DataType::Float32),
            Self::Float64(_) => Some(DataType::Float64),
            Self::String(_) => Some(DataType::Utf8),
            _ => None,
        }
    }

    /// The bytes of a text or of raw bytes, `None` for any other scalar.
    pub fn as_bytes(&self) -> (bytes: Option<&'a [u8]>)
        ensures
            match *self {
                ScalarValue::Binary(raw) => bytes == Some(raw),
                ScalarValue::String(text) => bytes matches Some(b) && b@ == text_bytes(text),
                _ => bytes is None,
            },
    {
        match self {
            Self::Binary(raw) => Some(*raw),
            Self::String(text) => Some(text.as_bytes()),
            _ => None,
        }
    }

    /// Tells whether the scalar is null.
    pub fn is_null(&self) -> (b: bool)
        ensures
            b == (*self is Null),
    {
        match self {
            Self::Null => true,
            _ => false,
        }
    }

    /// The value of an `UInt8` scalar, `None` for any other.
    pub fn as_uint8(&self) -> (v: Option<u8>)
        ensures
            v == match *self {
                ScalarValue::UInt8(x) => Some(x),
                _ => None,
            },
    {
        match self {
            Self::UInt8(v) => Some(*v),
            _ => None,
        }
    }

    /// Tells whether the scalar is an `UInt8`.
    pub fn is_uint8(&self) -> (b: bool)
        ensures
            b == (*self is UInt8),
    {
        match self {
            Self::UInt8(_) => true,
            _ => false,
        }
    }

    /// The value of an `UInt16` scalar, `None` for any other.
    pub fn as_uint16(&self) -> (v: Option<u16>)
        ensures
            v == match *self {
                ScalarValue::UInt16(x) => Some(x),
                _ => None,
            },
    {
        match self {
            Self::UInt16(v) => Some(*v),
            _ => None,
        }
    }

    /// Tells whether the scalar is an `UInt16`.
    pub fn is_uint16(&self) -> (b: bool)
        ensures
            b == (*self is UInt16),
    {
        match self {
            Self::UInt16(_) => true,
            _ => false,
        }
    }

    /// The value of an `UInt32` scalar, `None` for any other.
    pub fn as_uint32(&self) -> (v: Option<u32>)
        ensures
            v == match *self {
                ScalarValue::UInt32(x) => Some(x),
                _ => None,
            },
    {
        match self {
            Self::UInt32(v) => Some(*v),
            _ => None,
        }
    }

    /// Tells whether the scalar is an `UInt32`.
    pub fn is_uint32(&self) -> (b: bool)
        ensures
            b == (*self is UInt32),
    {
        match self {
            Self::UInt32(_) => true,
            _ => false,
        }
    }

    /// The value of an `UInt64` scalar, `None` for any other.
    pub fn as_uint64(&self) -> (v: Option<u64>)
        ensures
            v == match *self {
                ScalarValue::UInt64(x) => Some(x),
                _ => None,
            },
    {
        match self {
            Self::UInt64(v) => Some(*v),
            _ => None,
        }
    }

    /// Tells whether the scalar is an `UInt64`.
    pub fn is_uint64(&self) -> (b: bool)
        ensures
            b == (*self is UInt64),
    {
        match self {
            Self::UInt64(_) => true,
            _ => false,
        }
    }

    /// The value of an `Int8` scalar, `None` for any other.
    pub fn as_int8(&self) -> (v: Option<i8>)
        ensures
            v == match *self {
                ScalarValue::Int8(x) => Some(x),
                _ => None,
            },
    {
        match self {
            Self::Int8(v) => Some(*v),
            _ => None,
        }
    }

    /// Tells whether the scalar is an `Int8`.
    pub fn is_int8(&self) -> (b: bool)
        ensures
            b == (*self is Int8),
    {
        match self {
            Self::Int8(_) => true,
            _ => false,
        }
    }

    /// The value of an `Int16` scalar, `None` for any other.
    pub fn as_int16(&self) -> (v: Option<i16>)
        ensures
            v == match *self {
                ScalarValue::Int16(x) => Some(x),
                _ => None,
            },
    {
        match self {
            Self::Int16(v) => Some(*v),
            _ => None,
        }
    }

    /// Tells whether the scalar is an `Int16`.
    pub fn is_int16(&self) -> (b: bool)
        ensures
            b == (*self is Int16),
    {
        match self {
            Self::Int16(_) => true,
            _ => false,
        }
    }

    /// The value of an `Int32` scalar, `None` for any other.
    pub fn as_int32(&self) -> (v: Option<i32>)
        ensures
            v == match *self {
                ScalarValue::Int32(x) => Some(x),
                _ => None,
            },
    {
        match self {
            Self::Int32(v) => Some(*v),
            _ => None,
        }
    }

    /// Tells whether the scalar is an `Int32`.
    pub fn is_int32(&self) -> (b: bool)
        ensures
            b == (*self is Int32),
    {
        match self {
            Self::Int32(_) => true,
            _ => false,
        }
    }

    /// The value of an `Int64` scalar, `None` for any other.
    pub fn as_int64(&self) -> (v: Option<i64>)
        ensures
            v == match *self {
                ScalarValue::Int64(x) => Some(x),
                _ => None,
            },
    {
        match self {
            Self::Int64(v) => Some(*v),
            _ => None,
        }
    }

    /// Tells whether the scalar is an `Int64`.
    pub fn is_int64(&self) -> (b: bool)
        ensures
            b == (*self is Int64),
    {
        match self {
            Self::Int64(_) => true,
            _ => false,
        }
    }

    /// The bit pattern of a `Float32` scalar, `None` for any other.
    pub fn as_float32(&self) -> (v: Option<u32>)
        ensures
            v == match *self {
                ScalarValue::Float32(x) => Some(x),
                _ => None,
            },
    {
        match self {
            Self::Float32(v) => Some(*v),
            _ => None,
        }
    }

    /// Tells whether the scalar is a `Float32`.
    pub fn is_float32(&self) -> (b: bool)
        ensures
            b == (*self is Float32),
    {
        match self {
            Self::Float32(_) => true,
            _ => false,
        }
    }

    /// The bit pattern of a `Float64` scalar, `None` for any other.
    pub fn as_float64(&self) -> (v: Option<u64>)
        ensures
            v == match *self {
                ScalarValue::Float64(x) => Some(x),
                _ => None,
            },
    {
        match self {
            Self::Float64(v) => Some(*v),
            _ => None,
        }
    }

    /// Tells whether the scalar is a `Float64`.
    pub fn is_float64(&self) -> (b: bool)
        ensures
            b == (*self is Float64),
    {
        match self {
            Self::Float64(_) => true,
            _ => false,
        }
    }

    /// The value of a `Boolean` scalar, `None` for any other.
    pub fn as_boolean(&self) -> (v: Option<bool>)
        ensures
            v == match *self {
                ScalarValue::Boolean(x) => Some(x),
                _ => None,
            },
    {
        match self {
            Self::Boolean(b) => Some(*b),
            _ => None,
        }
    }

    /// Tells whether the scalar is a `Boolean`.
    pub fn is_boolean(&self) -> (b: bool)
        ensures
            b == (*self is Boolean),
    {
        match self {
            Self::Boolean(_) => true,
            _ => false,
        }
    }
}

} // verus!
