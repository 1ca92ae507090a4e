use arrow::array::Array as _;
use arrow::array::{BooleanArray, Float64Array, Int32Array, UInt8Array};
use dataframe::array::Array;
use dataframe::column::Column;
use dataframe::dataframe::DataFrame;
use dataframe::error::arrow_error::ArrowError;
use dataframe::error::Error;
use dataframe::query::select::{select, Arithmetic, Error as SelectError, Select};
use dataframe::schema::{DataType, Field};
use dataframe::view::View;

fn column_of(data: arrow::array::ArrayData) -> Array {
    Array::new(&data).unwrap()
}

fn u8_col(values: Vec<u8>) -> Array {
    column_of(UInt8Array::from(values).into_data())
}

fn i32_col(values: Vec<Option<i32>>) -> Array {
    column_of(Int32Array::from(values).into_data())
}

fn u8_view(a: Vec<u8>, b: Vec<u8>) -> View {
    View::new(
        vec![
            Field::new("a", DataType::UInt8, false),
            Field::new("b", DataType::UInt8, false),
        ],
        vec![u8_col(a), u8_col(b)],
    )
    .unwrap()
}

fn i32_view(a: Vec<Option<i32>>, b: Vec<Option<i32>>) -> View {
    View::new(
        vec![
            Field::new("a", DataType::Int32, true),
            Field::new("b", DataType::Int32, false),
        ],
        vec![i32_col(a), i32_col(b)],
    )
    .unwrap()
}

fn arithmetic(op: Arithmetic, lhs: &str, rhs: &str) -> Select {
    Select::Arithmetic(op, lhs.into(), rhs.into())
}

fn alias(term: Select, name: &str) -> Select {
    Select::Alias(Box::new(term), name.to_string())
}

#[test]
fn it_selects_add() {
    let view = u8_view(vec![1, 2, 3, 4, 5], vec![1, 2, 3, 4, 5]);

    let res_view = select(
        view,
        vec![
            "a".into(),
            "b".into(),
            alias(arithmetic(Arithmetic::Add, "a", "b"), "c"),
        ],
    )
    .unwrap();

    let c_col = res_view.column(&Column::from("c")).unwrap();

    assert_eq!(
        c_col.to_data(),
        UInt8Array::from(vec![2u8, 4, 6, 8, 10]).into_data()
    );
}

#[test]
fn select_names_the_third_column_exactly() {
    let view = u8_view(vec![1, 2, 3, 4, 5], vec![1, 2, 3, 4, 5]);
    let out = select(
        view,
        vec![
            Select::from("a"),
            Select::from("b"),
            alias(Select::from((Arithmetic::Add, "a", "b")), "c"),
        ],
    )
    .unwrap();
    assert_eq!(out.num_columns(), 3);
    assert_eq!(out.fields()[2].name(), "c");
    assert_eq!(*out.fields()[2].data_type(), DataType::UInt8);
    assert_eq!(out.get_index(&"c".into()), Some(2));
    assert_eq!(
        UInt8Array::from(out.columns()[2].to_data()),
        UInt8Array::from(vec![2, 4, 6, 8, 10])
    );
}

#[test]
fn select_of_columns_alone_keeps_the_row_count() {
    let view = u8_view(vec![9, 8, 7], vec![1, 2, 3]);
    let rows = view.num_rows();
    let out = select(view, vec![1usize.into(), "a".into(), "b".into()]).unwrap();
    assert_eq!(out.num_rows(), rows);
    assert_eq!(out.num_columns(), 3);
    assert_eq!(out.fields()[0].name(), "b");
    assert_eq!(out.fields()[1].name(), "a");
    assert_eq!(out.get_index(&"b".into()), Some(2));
}

#[test]
fn select_of_no_term_gives_a_view_without_columns() {
    let view = u8_view(vec![9, 8, 7], vec![1, 2, 3]);
    let out = select(view, vec![]).unwrap();
    assert_eq!(out.num_columns(), 0);
    assert_eq!(out.num_rows(), 0);
}

#[test]
fn selecting_every_column_by_name_is_a_round_trip() {
    let view = i32_view(vec![Some(1), None, Some(-3)], vec![Some(4), Some(5), None]);
    let copy = view.clone();
    let out = select(view, vec!["a".into(), "b".into()]).unwrap();
    assert_eq!(out.fields(), copy.fields());
    assert_eq!(out.num_rows(), copy.num_rows());
    for i in 0..copy.num_columns() {
        assert_eq!(out.columns()[i].to_data(), copy.columns()[i].to_data());
        assert!(out.columns()[i]
            .to_data()
            .ptr_eq(&copy.columns()[i].to_data()));
        for row in 0..copy.num_rows() {
            assert_eq!(
                out.columns()[i].is_null(row),
                copy.columns()[i].is_null(row)
            );
        }
    }
}

#[test]
fn alias_changes_the_name_and_nothing_else() {
    let view = i32_view(vec![Some(1), None], vec![Some(4), Some(5)]);
    let before = view.columns()[0].to_data();
    let out = select(view, vec![alias(alias("a".into(), "x"), "y")]).unwrap();
    assert_eq!(out.fields()[0], Field::new("y", DataType::Int32, true));
    assert!(out.columns()[0].to_data().ptr_eq(&before));
}

#[test]
fn arithmetic_names_its_column_right_operator_left() {
    let view = i32_view(vec![Some(7), Some(1)], vec![Some(2), Some(1)]);
    let out = select(
        view,
        vec![
            arithmetic(Arithmetic::Add, "a", "b"),
            arithmetic(Arithmetic::Sub, "a", "b"),
            arithmetic(Arithmetic::Mul, "a", "b"),
            arithmetic(Arithmetic::Div, "a", "b"),
        ],
    )
    .unwrap();
    assert_eq!(out.fields()[0].name(), "b_+_a");
    assert_eq!(out.fields()[1].name(), "b_-_a");
    assert_eq!(out.fields()[2].name(), "b_*_a");
    assert_eq!(out.fields()[3].name(), "b_/_a");
    assert_eq!(
        Int32Array::from(out.columns()[0].to_data()),
        Int32Array::from(vec![9, 2])
    );
    assert_eq!(
        Int32Array::from(out.columns()[1].to_data()),
        Int32Array::from(vec![5, 0])
    );
    assert_eq!(
        Int32Array::from(out.columns()[2].to_data()),
        Int32Array::from(vec![14, 1])
    );
    assert_eq!(
        Int32Array::from(out.columns()[3].to_data()),
        Int32Array::from(vec![3, 1])
    );
}

#[test]
fn arithmetic_is_nullable_only_if_both_operands_are() {
    let view = View::new(
        vec![
            Field::new("a", DataType::Int32, true),
            Field::new("b", DataType::Int32, false),
            Field::new("c", DataType::Int32, true),
        ],
        vec![
            i32_col(vec![Some(1)]),
            i32_col(vec![Some(2)]),
            i32_col(vec![Some(3)]),
        ],
    )
    .unwrap();
    let out = select(
        view,
        vec![
            arithmetic(Arithmetic::Add, "a", "b"),
            arithmetic(Arithmetic::Add, "a", "c"),
        ],
    )
    .unwrap();
    assert!(!out.fields()[0].is_nullable());
    assert!(out.fields()[1].is_nullable());
}

#[test]
fn arithmetic_gives_null_where_an_operand_is_null() {
    let view = i32_view(vec![Some(1), None, Some(3)], vec![Some(10), Some(20), None]);
    let out = select(view, vec![arithmetic(Arithmetic::Add, "a", "b")]).unwrap();
    assert_eq!(
        Int32Array::from(out.columns()[0].to_data()),
        Int32Array::from(vec![Some(11), None, None])
    );
    assert_eq!(out.num_rows(), 3);
}

#[test]
fn integer_division_rounds_towards_zero() {
    let view = i32_view(
        vec![Some(-7), Some(7), Some(-7), Some(7)],
        vec![Some(2), Some(-2), Some(-2), Some(2)],
    );
    let out = select(view, vec![arithmetic(Arithmetic::Div, "a", "b")]).unwrap();
    assert_eq!(
        Int32Array::from(out.columns()[0].to_data()),
        Int32Array::from(vec![-3, -3, 3, 3])
    );
}

#[test]
fn integer_division_by_zero_is_reported() {
    let view = i32_view(vec![Some(1), Some(2)], vec![Some(1), Some(0)]);
    let r = select(view, vec![arithmetic(Arithmetic::Div, "a", "b")]);
    assert!(matches!(
        r,
        Err(Error::Arrow {
            source: ArrowError::DivideByZero
        })
    ));
}

#[test]
fn division_by_zero_under_a_null_is_not_evaluated() {
    let view = i32_view(vec![None, Some(4)], vec![Some(0), Some(2)]);
    let out = select(view, vec![arithmetic(Arithmetic::Div, "a", "b")]).unwrap();
    assert_eq!(
        Int32Array::from(out.columns()[0].to_data()),
        Int32Array::from(vec![None, Some(2)])
    );
}

#[test]
fn integer_overflow_is_reported() {
    let view = u8_view(vec![200, 1], vec![100, 1]);
    let r = select(view, vec![arithmetic(Arithmetic::Add, "a", "b")]);
    assert!(matches!(
        r,
        Err(Error::Arrow {
            source: ArrowError::ArithmeticOverflow { .. }
        })
    ));
    let view = u8_view(vec![1], vec![2]);
    let r = select(view, vec![arithmetic(Arithmetic::Sub, "a", "b")]);
    assert!(matches!(r, Err(Error::Arrow { .. })));
    let view = i32_view(vec![Some(i32::MIN)], vec![Some(-1)]);
    let r = select(view, vec![arithmetic(Arithmetic::Div, "a", "b")]);
    assert!(matches!(r, Err(Error::Arrow { .. })));
}

#[test]
fn float_arithmetic_follows_ieee() {
    let view = View::new(
        vec![
            Field::new("x", DataType::Float64, false),
            Field::new("y", DataType::Float64, false),
        ],
        vec![
            column_of(Float64Array::from(vec![1.5, 1.0, 0.0]).into_data()),
            column_of(Float64Array::from(vec![2.25, 0.0, 0.0]).into_data()),
        ],
    )
    .unwrap();
    let out = select(
        view,
        vec![
            arithmetic(Arithmetic::Add, "x", "y"),
            arithmetic(Arithmetic::Div, "x", "y"),
        ],
    )
    .unwrap();
    let sum = Float64Array::from(out.columns()[0].to_data());
    assert_eq!(sum.value(0), 3.75);
    let quotient = Float64Array::from(out.columns()[1].to_data());
    assert_eq!(quotient.value(1), f64::INFINITY);
    assert!(quotient.value(2).is_nan());
    assert_eq!(*out.fields()[1].data_type(), DataType::Float64);
}

#[test]
fn a_missing_column_is_reported_with_its_term() {
    let view = u8_view(vec![1], vec![2]);
    let r = select(view, vec!["a".into(), alias("zz".into(), "y"), "qq".into()]);
    match r {
        Err(Error::SelectError {
            source: SelectError::InvalidColumn { column },
        }) => assert_eq!(column.to_text(), "Alias(Name(zz) as y)"),
        _ => panic!("the alias of a missing column should be reported"),
    }
    let view = u8_view(vec![1], vec![2]);
    let r = select(view, vec![arithmetic(Arithmetic::Add, "a", "nope")]);
    match r {
        Err(Error::SelectError {
            source: SelectError::InvalidColumn { column },
        }) => assert_eq!(column.to_text(), "Name(a) + Name(nope)"),
        _ => panic!("the term with a missing operand should be reported"),
    }
}

#[test]
fn operands_of_two_types_are_refused() {
    let view = View::new(
        vec![
            Field::new("a", DataType::UInt8, false),
            Field::new("b", DataType::Int32, false),
        ],
        vec![u8_col(vec![1]), i32_col(vec![Some(1)])],
    )
    .unwrap();
    let r = select(view, vec![arithmetic(Arithmetic::Mul, "a", "b")]);
    assert!(matches!(
        r,
        Err(Error::SelectError {
            source: SelectError::UnequalDataTypes {
                lhs: DataType::UInt8,
                rhs: DataType::Int32
            }
        })
    ));
}

#[test]
fn operands_that_are_not_numeric_are_refused() {
    let view = View::new(
        vec![
            Field::new("p", DataType::Boolean, false),
            Field::new("q", DataType::Boolean, false),
        ],
        vec![
            column_of(BooleanArray::from(vec![true]).into_data()),
            column_of(BooleanArray::from(vec![false]).into_data()),
        ],
    )
    .unwrap();
    let r = select(view, vec![arithmetic(Arithmetic::Add, "p", "q")]);
    assert!(matches!(
        r,
        Err(Error::SelectError {
            source: SelectError::InvalidArithmeticDataType {
                op: Arithmetic::Add,
                data_type: DataType::Boolean
            }
        })
    ));
}

#[test]
fn an_alias_hands_on_the_error_of_its_term() {
    let view = u8_view(vec![255], vec![1]);
    let r = select(view, vec![alias(arithmetic(Arithmetic::Add, "a", "b"), "s")]);
    assert!(matches!(
        r,
        Err(Error::Arrow {
            source: ArrowError::ArithmeticOverflow { .. }
        })
    ));
    let view = u8_view(vec![4, 6], vec![2, 0]);
    let r = select(
        view,
        vec![alias(alias(arithmetic(Arithmetic::Div, "a", "b"), "q"), "r")],
    );
    assert!(matches!(
        r,
        Err(Error::Arrow {
            source: ArrowError::DivideByZero
        })
    ));
    let view = View::new(
        vec![
            Field::new("a", DataType::UInt8, false),
            Field::new("b", DataType::Int32, false),
        ],
        vec![u8_col(vec![1, 2]), i32_col(vec![Some(1), Some(2)])],
    )
    .unwrap();
    let r = select(view, vec![alias(arithmetic(Arithmetic::Add, "a", "b"), "c")]);
    assert!(matches!(
        r,
        Err(Error::SelectError {
            source: SelectError::UnequalDataTypes {
                lhs: DataType::UInt8,
                rhs: DataType::Int32
            }
        })
    ));
    let view = View::new(
        vec![Field::new("p", DataType::Boolean, false)],
        vec![column_of(BooleanArray::from(vec![true]).into_data())],
    )
    .unwrap();
    let r = select(view, vec![alias(arithmetic(Arithmetic::Mul, "p", "p"), "c")]);
    assert!(matches!(
        r,
        Err(Error::SelectError {
            source: SelectError::InvalidArithmeticDataType {
                op: Arithmetic::Mul,
                data_type: DataType::Boolean
            }
        })
    ));
}

#[test]
fn a_zero_divisor_is_reported_unless_an_overflow_comes_first() {
    let view = i32_view(vec![Some(4), Some(6)], vec![Some(2), Some(0)]);
    let r = select(view, vec![arithmetic(Arithmetic::Div, "a", "b")]);
    assert!(matches!(
        r,
        Err(Error::Arrow {
            source: ArrowError::DivideByZero
        })
    ));
    let view = i32_view(vec![Some(i32::MIN), Some(6)], vec![Some(-1), Some(0)]);
    let r = select(view, vec![arithmetic(Arithmetic::Div, "a", "b")]);
    assert!(matches!(
        r,
        Err(Error::Arrow {
            source: ArrowError::ArithmeticOverflow { .. }
        })
    ));
    let view = i32_view(vec![Some(1), Some(i32::MIN)], vec![Some(0), Some(-1)]);
    let r = select(view, vec![arithmetic(Arithmetic::Div, "a", "b")]);
    assert!(matches!(
        r,
        Err(Error::Arrow {
            source: ArrowError::DivideByZero
        })
    ));
}

#[test]
fn terms_as_text() {
    assert_eq!(Select::from(3usize).to_text(), "Position(3)");
    assert_eq!(Select::from("a".to_string()).to_text(), "Name(a)");
    assert_eq!(
        alias(Select::from("a"), "b").to_text(),
        "Alias(Name(a) as b)"
    );
    assert_eq!(
        Select::from((Arithmetic::Div, "x", "y")).to_text(),
        "Name(x) / Name(y)"
    );
    assert_eq!(Arithmetic::Add.as_str(), "+");
    assert_eq!(Arithmetic::Sub.as_str(), "-");
    assert_eq!(Arithmetic::Mul.as_str(), "*");
    assert_eq!(Arithmetic::Div.as_str(), "/");
}

#[test]
fn a_term_keeps_its_shape_when_cloned() {
    let term = alias(arithmetic(Arithmetic::Mul, "a", "b"), "c");
    assert_eq!(term.clone().to_text(), term.to_text());
}

#[test]
fn data_frame_selects_through_a_query() {
    let df = DataFrame::new(u8_view(vec![1, 2], vec![3, 4]));
    assert_eq!(df.view().num_rows(), 2);
    let out = df.select(vec!["b".into()]).unwrap();
    assert_eq!(out.view().num_columns(), 1);
    assert_eq!(out.view().fields()[0].name(), "b");
    assert_eq!(
        UInt8Array::from(out.view().columns()[0].to_data()),
        UInt8Array::from(vec![3, 4])
    );
    let df = u8_view(vec![1], vec![2]).to_df();
    assert!(df.clone().select(vec!["c".into()]).is_err());
    let all = df.query().exec().unwrap();
    assert_eq!(all.num_columns(), 0);
}

#[test]
fn a_data_frame_takes_its_columns_batch_after_batch() {
    let fields = || {
        vec![
            Field::new("a", DataType::UInt8, false),
            Field::new("b", DataType::UInt8, false),
        ]
    };
    let data = |values: Vec<u8>| UInt8Array::from(values).into_data();
    let df = DataFrame::from_batches(
        fields(),
        &vec![vec![data(vec![1, 2])], vec![], vec![data(vec![3, 4])]],
    )
    .unwrap();
    assert_eq!(df.view().num_columns(), 2);
    assert_eq!(
        UInt8Array::from(df.view().columns()[1].to_data()),
        UInt8Array::from(vec![3, 4])
    );
    assert_eq!(df.view().to_data(), vec![data(vec![1, 2]), data(vec![3, 4])]);
    let r = DataFrame::from_batches(
        fields(),
        &vec![
            vec![data(vec![1]), data(vec![2])],
            vec![data(vec![3]), data(vec![4])],
        ],
    );
    assert!(matches!(
        r,
        Err(Error::ColumnCountMismatch {
            fields: 2,
            columns: 4
        })
    ));
    let r = DataFrame::from_batches(fields(), &vec![vec![data(vec![1]), data(vec![])]]);
    assert!(matches!(
        r,
        Err(Error::RowCountMismatch {
            column: 1,
            rows: 0,
            expected: 1
        })
    ));
    let odd = arrow::array::ArrayData::new_null(
        &arrow::datatypes::DataType::Time32(arrow::datatypes::TimeUnit::Microsecond),
        1,
    );
    assert!(Array::new(&odd).is_none());
    let r = DataFrame::from_batches(fields(), &vec![vec![data(vec![1])], vec![odd]]);
    assert!(matches!(
        r,
        Err(Error::UnknownDataType {
            data_type: DataType::Other
        })
    ));
    let list = arrow::array::ArrayData::new_null(
        &arrow::datatypes::DataType::LargeUtf8,
        2,
    );
    assert!(Array::new(&list).is_none());
    let empty = DataFrame::from_batches(vec![], &vec![]).unwrap();
    assert_eq!(empty.view().num_columns(), 0);
    assert!(empty.view().to_data().is_empty());
}
