use arrow::array::Array as _;
use arrow::array::{BooleanArray, Float32Array, Float64Array, Int32Array, StringArray, UInt8Array};
use dataframe::array::Array;
use dataframe::column::Column;
use dataframe::datatype::{ScalarValue, Text};
use dataframe::error::Error;
use dataframe::ops::cmp::CmpOp;
use dataframe::query::filter::{filter, Error as FilterError, Filter};
use dataframe::query::select::Select;
use dataframe::query::Query;
use dataframe::schema::{DataType, Field};
use dataframe::view::View;

fn column_of(data: arrow::array::ArrayData) -> Array {
    Array::new(&data).unwrap()
}

fn u8_col(values: Vec<u8>) -> Array {
    column_of(UInt8Array::from(values).into_data())
}

fn u8_view() -> View {
    View::new(
        vec![
            Field::new("a", DataType::UInt8, false),
            Field::new("b", DataType::UInt8, false),
        ],
        vec![u8_col(vec![2, 4, 5, 8, 10]), u8_col(vec![2, 4, 6, 8, 10])],
    )
    .unwrap()
}

fn one_column(name: &str, data_type: DataType, column: Array) -> View {
    View::new(vec![Field::new(name, data_type, true)], vec![column]).unwrap()
}

fn nullable_i32() -> View {
    one_column(
        "n",
        DataType::Int32,
        column_of(Int32Array::from(vec![Some(1), Some(2), None, Some(4), Some(5)]).into_data()),
    )
}

fn u8_values(view: &View, name: &str) -> UInt8Array {
    UInt8Array::from(view.column(&name.into()).unwrap().to_data())
}

#[test]
fn it_filters() {
    let view = u8_view();

    {
        let filtered_view =
            filter(&view, Filter::Columns("a".into(), CmpOp::Eq, "b".into())).unwrap();

        assert_eq!(
            filtered_view.column(&"a".into()).unwrap().to_data(),
            filtered_view.column(&"b".into()).unwrap().to_data()
        );
    }

    {
        let filtered_view = filter(
            &view,
            Filter::Scalar("a".into(), CmpOp::GtEq, ScalarValue::UInt8(4u8)),
        )
        .unwrap();

        assert_eq!(filtered_view.column(&"a".into()).unwrap().len(), 4);

        let a = filtered_view.column(&"a".into()).unwrap();
        let expected_a = UInt8Array::from(vec![4u8, 5, 8, 10]);
        assert_eq!(&UInt8Array::from(a.to_data()), &expected_a);

        assert_eq!(filtered_view.column(&"b".into()).unwrap().len(), 4);
        let b = filtered_view.column(&"b".into()).unwrap();
        let expected_b = UInt8Array::from(vec![4u8, 6, 8, 10]);
        assert_eq!(&UInt8Array::from(b.to_data()), &expected_b);
    }
}

#[test]
fn equal_columns_keep_rows_0_1_3_4() {
    let view = u8_view();
    let out = filter(&view, Filter::Columns("a".into(), CmpOp::Eq, "b".into())).unwrap();
    assert_eq!(out.num_rows(), 4);
    assert_eq!(u8_values(&out, "a"), UInt8Array::from(vec![2, 4, 8, 10]));
    assert_eq!(u8_values(&out, "b"), UInt8Array::from(vec![2, 4, 8, 10]));
    assert_eq!(out.fields(), view.fields());
}

#[test]
fn each_operator_on_two_columns() {
    let view = u8_view();
    let rows = |op: CmpOp| {
        let out = filter(&view, Filter::Columns("a".into(), op, "b".into())).unwrap();
        u8_values(&out, "a")
    };
    assert_eq!(rows(CmpOp::NotEq), UInt8Array::from(vec![5]));
    assert_eq!(rows(CmpOp::Lt), UInt8Array::from(vec![5]));
    assert_eq!(rows(CmpOp::LtEq), UInt8Array::from(vec![2, 4, 5, 8, 10]));
    assert_eq!(rows(CmpOp::Gt), UInt8Array::from(Vec::<u8>::new()));
    assert_eq!(rows(CmpOp::GtEq), UInt8Array::from(vec![2, 4, 8, 10]));
}

#[test]
fn each_operator_against_a_scalar() {
    let view = u8_view();
    let rows = |op: CmpOp| {
        let out = filter(
            &view,
            Filter::Scalar("a".into(), op, ScalarValue::UInt8(5)),
        )
        .unwrap();
        u8_values(&out, "b")
    };
    assert_eq!(rows(CmpOp::Gt), UInt8Array::from(vec![8, 10]));
    assert_eq!(rows(CmpOp::GtEq), UInt8Array::from(vec![6, 8, 10]));
    assert_eq!(rows(CmpOp::Lt), UInt8Array::from(vec![2, 4]));
    assert_eq!(rows(CmpOp::LtEq), UInt8Array::from(vec![2, 4, 6]));
    assert_eq!(rows(CmpOp::Eq), UInt8Array::from(vec![6]));
    assert_eq!(rows(CmpOp::NotEq), UInt8Array::from(vec![2, 4, 8, 10]));
}

#[test]
fn the_rows_kept_are_the_true_cells_of_the_mask() {
    let view = u8_view();
    let rows = view.num_rows();
    let out = filter(
        &view,
        Filter::Scalar("b".into(), CmpOp::Gt, ScalarValue::UInt8(4)),
    )
    .unwrap();
    assert_eq!(out.num_rows(), 3);
    assert!(out.num_rows() <= rows);
    for column in out.columns() {
        assert_eq!(column.len(), 3);
    }
    let none = filter(
        &view,
        Filter::Scalar("b".into(), CmpOp::Gt, ScalarValue::UInt8(200)),
    )
    .unwrap();
    assert_eq!(none.num_rows(), 0);
    assert_eq!(none.num_columns(), 2);
}

#[test]
fn filtering_again_with_a_mask_of_trues_changes_nothing() {
    let view = u8_view();
    let predicate = || Filter::Scalar("a".into(), CmpOp::GtEq, ScalarValue::UInt8(4));
    let once = filter(&view, predicate()).unwrap();
    let twice = filter(&once, predicate()).unwrap();
    assert_eq!(twice.fields(), once.fields());
    assert_eq!(twice.num_rows(), once.num_rows());
    for i in 0..once.num_columns() {
        assert_eq!(twice.columns()[i].to_data(), once.columns()[i].to_data());
    }
}

#[test]
fn null_as_the_scalar_asks_for_the_null_rows() {
    let view = View::new(
        vec![
            Field::new("n", DataType::Int32, true),
            Field::new("i", DataType::UInt8, false),
        ],
        vec![
            column_of(
                Int32Array::from(vec![Some(1), Some(2), None, Some(4), Some(5)]).into_data(),
            ),
            u8_col(vec![0, 1, 2, 3, 4]),
        ],
    )
    .unwrap();
    let is_null = filter(
        &view,
        Filter::Scalar("n".into(), CmpOp::Eq, ScalarValue::Null),
    )
    .unwrap();
    assert_eq!(u8_values(&is_null, "i"), UInt8Array::from(vec![2]));
    assert!(is_null.columns()[0].is_null(0));
    let is_not_null = filter(
        &view,
        Filter::Scalar("n".into(), CmpOp::NotEq, ScalarValue::Null),
    )
    .unwrap();
    assert_eq!(u8_values(&is_not_null, "i"), UInt8Array::from(vec![0, 1, 3, 4]));
    assert_eq!(
        Int32Array::from(is_not_null.columns()[0].to_data()),
        Int32Array::from(vec![1, 2, 4, 5])
    );
}

#[test]
fn null_takes_no_ordering_operator() {
    let view = nullable_i32();
    for op in [CmpOp::Gt, CmpOp::GtEq, CmpOp::Lt, CmpOp::LtEq] {
        let r = filter(&view, Filter::Scalar("n".into(), op, ScalarValue::Null));
        match r {
            Err(Error::FilterError {
                source: FilterError::InvalidNullComparison { op: reported },
            }) => assert_eq!(reported, op),
            _ => panic!("an ordering against null should be refused"),
        }
    }
}

#[test]
fn a_null_row_matches_no_scalar() {
    let view = nullable_i32();
    let kept = |op: CmpOp| {
        let out = filter(&view, Filter::Scalar("n".into(), op, ScalarValue::Int32(2))).unwrap();
        Int32Array::from(out.columns()[0].to_data())
    };
    assert_eq!(kept(CmpOp::NotEq), Int32Array::from(vec![1, 4, 5]));
    assert_eq!(kept(CmpOp::Lt), Int32Array::from(vec![1]));
    assert_eq!(kept(CmpOp::GtEq), Int32Array::from(vec![2, 4, 5]));
}

#[test]
fn ordering_two_boolean_columns_is_refused() {
    let view = View::new(
        vec![
            Field::new("p", DataType::Boolean, false),
            Field::new("q", DataType::Boolean, false),
        ],
        vec![
            column_of(BooleanArray::from(vec![true, false, true]).into_data()),
            column_of(BooleanArray::from(vec![true, true, false]).into_data()),
        ],
    )
    .unwrap();
    for op in [CmpOp::Gt, CmpOp::GtEq, CmpOp::Lt, CmpOp::LtEq] {
        let r = filter(&view, Filter::Columns("p".into(), op, "q".into()));
        match r {
            Err(Error::FilterError {
                source: FilterError::InvalidComparison { lhs, rhs, op: reported },
            }) => {
                assert_eq!(lhs, DataType::Boolean);
                assert_eq!(rhs, DataType::Boolean);
                assert_eq!(reported, op);
            }
            _ => panic!("an ordering of booleans should be refused"),
        }
    }
    let same = filter(&view, Filter::Columns("p".into(), CmpOp::Eq, "q".into())).unwrap();
    assert_eq!(
        BooleanArray::from(same.columns()[0].to_data()),
        BooleanArray::from(vec![true])
    );
    let other = filter(&view, Filter::Columns("p".into(), CmpOp::NotEq, "q".into())).unwrap();
    assert_eq!(
        BooleanArray::from(other.columns()[1].to_data()),
        BooleanArray::from(vec![true, false])
    );
}

#[test]
fn boolean_columns_with_nulls_compare_to_null() {
    let view = View::new(
        vec![
            Field::new("p", DataType::Boolean, true),
            Field::new("q", DataType::Boolean, true),
            Field::new("i", DataType::UInt8, false),
        ],
        vec![
            column_of(BooleanArray::from(vec![Some(true), None, Some(false)]).into_data()),
            column_of(BooleanArray::from(vec![Some(true), Some(true), None]).into_data()),
            u8_col(vec![0, 1, 2]),
        ],
    )
    .unwrap();
    let same = filter(&view, Filter::Columns("p".into(), CmpOp::Eq, "q".into())).unwrap();
    assert_eq!(u8_values(&same, "i"), UInt8Array::from(vec![0]));
    let other = filter(&view, Filter::Columns("p".into(), CmpOp::NotEq, "q".into())).unwrap();
    assert_eq!(other.num_rows(), 0);
}

#[test]
fn a_boolean_column_against_a_boolean_scalar() {
    let view = one_column(
        "p",
        DataType::Boolean,
        column_of(BooleanArray::from(vec![Some(true), Some(false), None]).into_data()),
    );
    let count = |op: CmpOp, value: bool| {
        filter(
            &view,
            Filter::Scalar("p".into(), op, ScalarValue::Boolean(value)),
        )
        .unwrap()
        .num_rows()
    };
    assert_eq!(count(CmpOp::Eq, true), 1);
    assert_eq!(count(CmpOp::NotEq, true), 1);
    assert_eq!(count(CmpOp::Gt, false), 1);
    assert_eq!(count(CmpOp::LtEq, true), 2);
}

#[test]
fn and_and_or_combine_masks() {
    let view = u8_view();
    let gt4 = || Filter::Scalar("a".into(), CmpOp::Gt, ScalarValue::UInt8(4));
    let lt10 = || Filter::Scalar("a".into(), CmpOp::Lt, ScalarValue::UInt8(10));
    let eq = || Filter::Columns("a".into(), CmpOp::Eq, "b".into());
    let both = filter(&view, Filter::And(Box::new(gt4()), Box::new(lt10()))).unwrap();
    assert_eq!(u8_values(&both, "a"), UInt8Array::from(vec![5, 8]));
    let either = filter(
        &view,
        Filter::Or(
            Box::new(Filter::Scalar("a".into(), CmpOp::Lt, ScalarValue::UInt8(4))),
            Box::new(Filter::And(Box::new(gt4()), Box::new(eq()))),
        ),
    )
    .unwrap();
    assert_eq!(u8_values(&either, "a"), UInt8Array::from(vec![2, 8, 10]));
}

#[test]
fn a_null_operand_makes_and_and_or_null() {
    let view = View::new(
        vec![
            Field::new("n", DataType::Int32, true),
            Field::new("i", DataType::UInt8, false),
        ],
        vec![
            column_of(Int32Array::from(vec![Some(1), None, Some(3)]).into_data()),
            u8_col(vec![0, 1, 2]),
        ],
    )
    .unwrap();
    let positive = || Filter::Scalar("n".into(), CmpOp::Gt, ScalarValue::Int32(0));
    let any_row = || Filter::Scalar("i".into(), CmpOp::GtEq, ScalarValue::UInt8(0));
    let either = filter(&view, Filter::Or(Box::new(positive()), Box::new(any_row()))).unwrap();
    assert_eq!(u8_values(&either, "i"), UInt8Array::from(vec![0, 2]));
    let both = filter(&view, Filter::And(Box::new(any_row()), Box::new(positive()))).unwrap();
    assert_eq!(u8_values(&both, "i"), UInt8Array::from(vec![0, 2]));
}

#[test]
fn the_left_operand_fails_first() {
    let view = u8_view();
    let r = filter(
        &view,
        Filter::And(
            Box::new(Filter::Columns("x".into(), CmpOp::Eq, "y".into())),
            Box::new(Filter::Scalar("a".into(), CmpOp::Gt, ScalarValue::Null)),
        ),
    );
    match r {
        Err(Error::FilterError {
            source: FilterError::InvalidColumn { column },
        }) => assert_eq!(column, Column::from("x")),
        _ => panic!("the left operand's missing column should be reported"),
    }
    let r = filter(&view, Filter::Columns("a".into(), CmpOp::Eq, "y".into()));
    match r {
        Err(Error::FilterError {
            source: FilterError::InvalidColumn { column },
        }) => assert_eq!(column, Column::from("y")),
        _ => panic!("the right column should be reported"),
    }
    let r = filter(
        &view,
        Filter::Scalar(Column::Position(5), CmpOp::Eq, ScalarValue::UInt8(1)),
    );
    assert!(matches!(
        r,
        Err(Error::FilterError {
            source: FilterError::InvalidColumn {
                column: Column::Position(5)
            }
        })
    ));
}

#[test]
fn a_scalar_without_a_type_is_refused() {
    let view = u8_view();
    let bytes = [1u8, 2];
    let r = filter(
        &view,
        Filter::Scalar("nowhere".into(), CmpOp::Eq, ScalarValue::Binary(&bytes)),
    );
    assert!(matches!(
        r,
        Err(Error::FilterError {
            source: FilterError::InvalidScalarType
        })
    ));
}

#[test]
fn a_scalar_of_another_type_is_refused() {
    let view = u8_view();
    let r = filter(
        &view,
        Filter::Scalar("a".into(), CmpOp::Eq, ScalarValue::Int32(4)),
    );
    assert!(matches!(
        r,
        Err(Error::FilterError {
            source: FilterError::InvalidComparison {
                lhs: DataType::UInt8,
                rhs: DataType::Int32,
                op: CmpOp::Eq
            }
        })
    ));
    let text = one_column(
        "t",
        DataType::Utf8,
        column_of(StringArray::from(vec!["a"]).into_data()),
    );
    let r = filter(
        &text,
        Filter::Scalar("t".into(), CmpOp::Eq, ScalarValue::String(Text::new(b"a"))),
    );
    assert!(matches!(
        r,
        Err(Error::FilterError {
            source: FilterError::InvalidComparison {
                lhs: DataType::Utf8,
                rhs: DataType::Utf8,
                op: CmpOp::Eq
            }
        })
    ));
}

#[test]
fn columns_of_two_types_are_not_compared() {
    let view = View::new(
        vec![
            Field::new("a", DataType::UInt8, false),
            Field::new("n", DataType::Int32, false),
        ],
        vec![
            u8_col(vec![1]),
            column_of(Int32Array::from(vec![1]).into_data()),
        ],
    )
    .unwrap();
    let r = filter(&view, Filter::Columns("a".into(), CmpOp::Lt, "n".into()));
    assert!(matches!(
        r,
        Err(Error::FilterError {
            source: FilterError::InvalidComparison {
                lhs: DataType::UInt8,
                rhs: DataType::Int32,
                op: CmpOp::Lt
            }
        })
    ));
}

#[test]
fn a_column_of_an_unsupported_type_is_reported() {
    let view = View::new(
        vec![
            Field::new("a", DataType::UInt8, false),
            Field::new("t", DataType::Utf8, false),
        ],
        vec![
            u8_col(vec![1, 2]),
            column_of(StringArray::from(vec!["x", "y"]).into_data()),
        ],
    )
    .unwrap();
    let r = filter(
        &view,
        Filter::Scalar("a".into(), CmpOp::Eq, ScalarValue::UInt8(1)),
    );
    assert!(matches!(
        r,
        Err(Error::UnknownDataType {
            data_type: DataType::Utf8
        })
    ));
}

#[test]
fn a_float_scalar_compares_in_the_ieee_partial_order() {
    let view = one_column(
        "x",
        DataType::Float64,
        column_of(
            Float64Array::from(vec![
                Some(-1.5),
                Some(-0.0),
                Some(0.0),
                Some(2.5),
                Some(f64::NAN),
                None,
                Some(f64::INFINITY),
                Some(f64::NEG_INFINITY),
            ])
            .into_data(),
        ),
    );
    let count = |op: CmpOp, value: f64| {
        filter(
            &view,
            Filter::Scalar("x".into(), op, ScalarValue::Float64(value.to_bits())),
        )
        .unwrap()
        .num_rows()
    };
    assert_eq!(count(CmpOp::Eq, 0.0), 2);
    assert_eq!(count(CmpOp::Eq, -0.0), 2);
    assert_eq!(count(CmpOp::Lt, 0.0), 2);
    assert_eq!(count(CmpOp::LtEq, 0.0), 4);
    assert_eq!(count(CmpOp::Gt, -0.0), 2);
    assert_eq!(count(CmpOp::GtEq, 2.5), 2);
    assert_eq!(count(CmpOp::NotEq, 2.5), 6);
    assert_eq!(count(CmpOp::Eq, f64::NAN), 0);
    assert_eq!(count(CmpOp::NotEq, f64::NAN), 7);
    assert_eq!(count(CmpOp::Lt, f64::NAN), 0);
    assert_eq!(count(CmpOp::GtEq, f64::NAN), 0);
    assert_eq!(count(CmpOp::Lt, f64::INFINITY), 5);
}

#[test]
fn a_float32_scalar_compares_like_the_floats() {
    let values = vec![-3.25f32, -0.0, 0.0, 1.0, f32::NAN, f32::MAX, f32::MIN];
    let view = one_column(
        "x",
        DataType::Float32,
        column_of(Float32Array::from(values.clone()).into_data()),
    );
    for op in [
        CmpOp::Eq,
        CmpOp::NotEq,
        CmpOp::Lt,
        CmpOp::LtEq,
        CmpOp::Gt,
        CmpOp::GtEq,
    ] {
        for scalar in values.iter() {
            let expected = values
                .iter()
                .filter(|v| match op {
                    CmpOp::Eq => *v == scalar,
                    CmpOp::NotEq => *v != scalar,
                    CmpOp::Lt => *v < scalar,
                    CmpOp::LtEq => *v <= scalar,
                    CmpOp::Gt => *v > scalar,
                    CmpOp::GtEq => *v >= scalar,
                })
                .count();
            let out = filter(
                &view,
                Filter::Scalar("x".into(), op, ScalarValue::Float32(scalar.to_bits())),
            )
            .unwrap();
            assert_eq!(out.num_rows(), expected);
        }
    }
}

#[test]
fn two_float_columns_compare_in_the_ieee_order() {
    let view = View::new(
        vec![
            Field::new("x", DataType::Float64, true),
            Field::new("y", DataType::Float64, false),
            Field::new("i", DataType::UInt8, false),
        ],
        vec![
            column_of(
                Float64Array::from(vec![
                    Some(1.0),
                    Some(-0.0),
                    Some(f64::NAN),
                    Some(2.0),
                    None,
                    Some(-1.0),
                ])
                .into_data(),
            ),
            column_of(Float64Array::from(vec![1.0, 0.0, f64::NAN, 1.0, 1.0, f64::NAN]).into_data()),
            u8_col(vec![0, 1, 2, 3, 4, 5]),
        ],
    )
    .unwrap();
    let rows = |op: CmpOp| {
        let out = filter(&view, Filter::Columns("x".into(), op, "y".into())).unwrap();
        u8_values(&out, "i")
    };
    assert_eq!(rows(CmpOp::Eq), UInt8Array::from(vec![0, 1]));
    assert_eq!(rows(CmpOp::NotEq), UInt8Array::from(vec![2, 3, 5]));
    assert_eq!(rows(CmpOp::Lt), UInt8Array::from(Vec::<u8>::new()));
    assert_eq!(rows(CmpOp::LtEq), UInt8Array::from(vec![0, 1]));
    assert_eq!(rows(CmpOp::Gt), UInt8Array::from(vec![3]));
    assert_eq!(rows(CmpOp::GtEq), UInt8Array::from(vec![0, 1, 3]));
}

#[test]
fn columns_and_scalars_agree_on_floats() {
    let values = vec![-3.25f32, -0.0, 0.0, 1.0, f32::NAN, f32::MAX, f32::MIN];
    for scalar in values.iter() {
        let view = View::new(
            vec![
                Field::new("x", DataType::Float32, false),
                Field::new("y", DataType::Float32, false),
            ],
            vec![
                column_of(Float32Array::from(values.clone()).into_data()),
                column_of(Float32Array::from(vec![*scalar; 7]).into_data()),
            ],
        )
        .unwrap();
        for op in [
            CmpOp::Eq,
            CmpOp::NotEq,
            CmpOp::Lt,
            CmpOp::LtEq,
            CmpOp::Gt,
            CmpOp::GtEq,
        ] {
            let by_column = filter(&view, Filter::Columns("x".into(), op, "y".into())).unwrap();
            let by_scalar = filter(
                &view,
                Filter::Scalar("x".into(), op, ScalarValue::Float32(scalar.to_bits())),
            )
            .unwrap();
            assert_eq!(
                by_column.columns()[0].to_data(),
                by_scalar.columns()[0].to_data()
            );
        }
    }
}

#[test]
fn a_query_filters_before_it_selects() {
    let out = Query::new(u8_view())
        .select(vec![Select::from("b")])
        .filter(Filter::Scalar(
            "a".into(),
            CmpOp::Lt,
            ScalarValue::UInt8(8),
        ))
        .exec()
        .unwrap();
    assert_eq!(out.num_columns(), 1);
    assert_eq!(u8_values(&out, "b"), UInt8Array::from(vec![2, 4, 6]));
    let r = Query::new(u8_view())
        .select(vec![Select::from("b")])
        .filter(Filter::Scalar("zz".into(), CmpOp::Lt, ScalarValue::UInt8(8)))
        .exec();
    assert!(matches!(r, Err(Error::FilterError { .. })));
}
