use arrow::array::UInt64Array;
use dataframe::datatype::{from_bytes, from_bytes_at, ScalarValue, Text};
use dataframe::error::Error;
use dataframe::schema::DataType;

#[test]
fn test_from_bytes() {
    let mut builder = UInt64Array::builder(5);
    builder.append_value(1024);
    builder.append_value(2);
    builder.append_value(3);
    builder.append_value(4);
    builder.append_value(5);

    let array = builder.finish();
    let values = array.values();
    let array_bytes = values.inner().as_slice();

    let out = from_bytes(8, &array_bytes[0..8]).unwrap();
    assert_eq!(out, 1024);
}

#[test]
fn three_bytes_are_no_four_byte_integer() {
    let bytes = [1u8, 2, 3];
    assert!(matches!(
        from_bytes(4, &bytes),
        Err(Error::InvalidByteLength {
            len: 3,
            expected: 4
        })
    ));
    for data_type in [DataType::Int32, DataType::UInt32, DataType::Float32] {
        assert!(matches!(
            ScalarValue::from_bytes(&data_type, &bytes),
            Err(Error::InvalidByteLength {
                len: 3,
                expected: 4
            })
        ));
    }
    assert!(matches!(
        from_bytes_at(2, &bytes, 0),
        Err(Error::InvalidByteLength {
            len: 3,
            expected: 2
        })
    ));
    assert!(matches!(
        from_bytes_at(8, &[], 0),
        Err(Error::InvalidByteLength {
            len: 0,
            expected: 8
        })
    ));
}

#[test]
fn bytes_are_read_little_endian() {
    assert_eq!(from_bytes_at(1, &[0xab], 7).unwrap(), 0xab);
    assert_eq!(from_bytes_at(2, &[0x34, 0x12], 2).unwrap(), 0x1234);
    assert_eq!(
        from_bytes_at(4, &[0x78, 0x56, 0x34, 0x12], 64).unwrap(),
        0x1234_5678
    );
    assert_eq!(
        from_bytes_at(8, &[1, 2, 3, 4, 5, 6, 7, 8], 0).unwrap(),
        0x0807_0605_0403_0201
    );
    assert_eq!(from_bytes_at(8, &[0xff; 8], 8).unwrap(), u64::MAX);
    assert_eq!(
        from_bytes_at(8, &0x0123_4567_89ab_cdefu64.to_le_bytes(), 16).unwrap(),
        0x0123_4567_89ab_cdef
    );
}

#[test]
fn misaligned_bytes_are_reported() {
    assert!(matches!(
        from_bytes_at(2, &[0, 0], 3),
        Err(Error::InvalidByteAlignment)
    ));
    assert!(matches!(
        from_bytes_at(4, &[0, 0, 0, 0], 6),
        Err(Error::InvalidByteAlignment)
    ));
    assert!(matches!(
        from_bytes_at(8, &[0; 8], 12),
        Err(Error::InvalidByteAlignment)
    ));
    assert!(from_bytes_at(1, &[0], 13).is_ok());
    assert!(matches!(
        ScalarValue::from_bytes_at(&DataType::Int64, &[0; 8], 4),
        Err(Error::InvalidByteAlignment)
    ));
}

#[test]
fn a_one_byte_scalar_always_decodes() {
    for byte in [0u8, 1, 127, 128, 255] {
        let bytes = vec![7, byte];
        assert_eq!(
            ScalarValue::from_bytes(&DataType::UInt8, &bytes[1..]).unwrap(),
            ScalarValue::UInt8(byte)
        );
        assert_eq!(
            ScalarValue::from_bytes(&DataType::Int8, &bytes[1..]).unwrap(),
            ScalarValue::Int8(byte as i8)
        );
    }
}

#[test]
fn a_one_byte_value_is_never_misaligned() {
    assert_eq!(from_bytes(1, &[42]).unwrap(), 42);
    assert_eq!(
        ScalarValue::from_bytes(&DataType::UInt8, &[200]).unwrap(),
        ScalarValue::UInt8(200)
    );
    assert_eq!(
        ScalarValue::from_bytes(&DataType::Int8, &[0xff]).unwrap(),
        ScalarValue::Int8(-1)
    );
}

#[test]
fn scalars_decode_by_type() {
    let at = |data_type: DataType, bytes: &'static [u8]| {
        ScalarValue::from_bytes_at(&data_type, bytes, 0).unwrap()
    };
    assert_eq!(at(DataType::UInt8, &[0x80]), ScalarValue::UInt8(128));
    assert_eq!(at(DataType::Int8, &[0x80]), ScalarValue::Int8(-128));
    assert_eq!(at(DataType::Int8, &[0x7f]), ScalarValue::Int8(127));
    assert_eq!(at(DataType::UInt16, &[0xfe, 0xff]), ScalarValue::UInt16(65534));
    assert_eq!(at(DataType::Int16, &[0xfe, 0xff]), ScalarValue::Int16(-2));
    assert_eq!(
        at(DataType::UInt32, &[0, 0, 0, 0x80]),
        ScalarValue::UInt32(0x8000_0000)
    );
    assert_eq!(
        at(DataType::Int32, &[0, 0, 0, 0x80]),
        ScalarValue::Int32(i32::MIN)
    );
    assert_eq!(
        at(DataType::Int32, &[0xd6, 0xff, 0xff, 0xff]),
        ScalarValue::Int32(-42)
    );
    assert_eq!(
        at(DataType::UInt64, &[0xff; 8]),
        ScalarValue::UInt64(u64::MAX)
    );
    assert_eq!(at(DataType::Int64, &[0xff; 8]), ScalarValue::Int64(-1));
    assert_eq!(
        at(DataType::Int64, &[0, 0, 0, 0, 0, 0, 0, 0x80]),
        ScalarValue::Int64(i64::MIN)
    );
    assert_eq!(
        at(DataType::Float32, &[0, 0, 0xc0, 0x3f]),
        ScalarValue::Float32(1.5f32.to_bits())
    );
    assert_eq!(
        at(DataType::Float64, &[0, 0, 0, 0, 0, 0, 0x04, 0xc0]),
        ScalarValue::Float64((-2.5f64).to_bits())
    );
}

#[test]
fn text_takes_the_bytes_as_they_are() {
    let bytes = "gr\u{fc}n".as_bytes();
    assert_eq!(
        ScalarValue::from_bytes(&DataType::Utf8, bytes).unwrap(),
        ScalarValue::String(Text::new(bytes))
    );
    assert_eq!(
        ScalarValue::from_bytes(&DataType::Utf8, &[]).unwrap(),
        ScalarValue::String(Text::new(&[]))
    );
}

#[test]
fn other_types_are_not_decoded() {
    for data_type in [
        DataType::Boolean,
        DataType::Binary,
        DataType::Timestamp,
        DataType::Date32,
        DataType::Date64,
        DataType::Interval,
        DataType::Other,
    ] {
        match ScalarValue::from_bytes(&data_type, &[0, 0, 0, 0]) {
            Err(Error::UnknownDataType { data_type: reported }) => assert_eq!(reported, data_type),
            _ => panic!("the type should be refused"),
        }
    }
}

#[test]
fn scalars_know_their_type() {
    assert_eq!(ScalarValue::Boolean(true).data_type(), Some(DataType::Boolean));
    assert_eq!(ScalarValue::UInt8(1).data_type(), Some(DataType::UInt8));
    assert_eq!(ScalarValue::UInt16(1).data_type(), Some(DataType::UInt16));
    assert_eq!(ScalarValue::UInt32(1).data_type(), Some(DataType::UInt32));
    assert_eq!(ScalarValue::UInt64(1).data_type(), Some(DataType::UInt64));
    assert_eq!(ScalarValue::Int8(1).data_type(), Some(DataType::Int8));
    assert_eq!(ScalarValue::Int16(1).data_type(), Some(DataType::Int16));
    assert_eq!(ScalarValue::Int32(1).data_type(), Some(DataType::Int32));
    assert_eq!(ScalarValue::Int64(1).data_type(), Some(DataType::Int64));
    assert_eq!(ScalarValue::Float32(0).data_type(), Some(DataType::Float32));
    assert_eq!(ScalarValue::Float64(0).data_type(), Some(DataType::Float64));
    assert_eq!(ScalarValue::String(Text::new(b"x")).data_type(), Some(DataType::Utf8));
    assert_eq!(ScalarValue::Binary(b"x").data_type(), None);
    assert_eq!(ScalarValue::Null.data_type(), None);
    assert!(ScalarValue::Null.is_null());
    assert!(!ScalarValue::UInt8(0).is_null());
}

#[test]
fn scalar_getters_match_their_variant_only() {
    assert_eq!(ScalarValue::UInt8(7).as_uint8(), Some(7));
    assert_eq!(ScalarValue::UInt16(7).as_uint8(), None);
    assert!(ScalarValue::UInt8(7).is_uint8());
    assert!(!ScalarValue::Int8(7).is_uint8());
    assert_eq!(ScalarValue::UInt16(7).as_uint16(), Some(7));
    assert!(ScalarValue::UInt16(7).is_uint16());
    assert_eq!(ScalarValue::UInt32(7).as_uint32(), Some(7));
    assert!(ScalarValue::UInt32(7).is_uint32());
    assert_eq!(ScalarValue::UInt64(7).as_uint64(), Some(7));
    assert!(ScalarValue::UInt64(7).is_uint64());
    assert_eq!(ScalarValue::Int8(-7).as_int8(), Some(-7));
    assert!(ScalarValue::Int8(-7).is_int8());
    assert_eq!(ScalarValue::Int16(-7).as_int16(), Some(-7));
    assert!(ScalarValue::Int16(-7).is_int16());
    assert_eq!(ScalarValue::Int32(-7).as_int32(), Some(-7));
    assert!(ScalarValue::Int32(-7).is_int32());
    assert_eq!(ScalarValue::Int64(-7).as_int64(), Some(-7));
    assert!(ScalarValue::Int64(-7).is_int64());
    assert_eq!(ScalarValue::Int64(-7).as_int32(), None);
    assert_eq!(
        ScalarValue::Float32(0.5f32.to_bits()).as_float32().map(f32::from_bits),
        Some(0.5)
    );
    assert!(ScalarValue::Float32(0).is_float32());
    assert_eq!(
        ScalarValue::Float64(0.25f64.to_bits()).as_float64().map(f64::from_bits),
        Some(0.25)
    );
    assert!(ScalarValue::Float64(0).is_float64());
    assert!(!ScalarValue::Float64(0).is_float32());
    assert_eq!(ScalarValue::Boolean(true).as_boolean(), Some(true));
    assert!(ScalarValue::Boolean(false).is_boolean());
    assert_eq!(ScalarValue::Null.as_boolean(), None);
    assert!(!ScalarValue::Null.is_boolean());
}

#[test]
fn a_text_keeps_its_bytes() {
    let bytes = [b'a', 0xff, b'z'];
    let text = Text::new(&bytes);
    assert_eq!(text.as_bytes(), &bytes);
    assert_eq!(text, text.clone());
    assert_ne!(text, Text::new(b"az"));
    assert!(format!("{:?}", Text::new(b"plain")).contains("plain"));
    assert_eq!(Text::new(b"").as_bytes().len(), 0);
    assert_eq!(ScalarValue::String(text).as_bytes(), Some(&bytes[..]));
    assert_eq!(ScalarValue::Binary(&bytes).as_bytes(), Some(&bytes[..]));
    assert_eq!(ScalarValue::UInt8(1).as_bytes(), None);
    assert_eq!(ScalarValue::Null.as_bytes(), None);
}
