use spanner_rs::wire::{
    Kind, WireField, WireMetadata, WireResultSet, WireRowCount, WireStats, WireStructType,
    WireType, WireValue,
};
use spanner_rs::{Error, ResultSet, Row, RowIndex, Stats, StructType, Transaction, Type, Value};

fn column(name: &str, code: i32) -> WireField {
    WireField {
        name: name.to_string(),
        field_type: Some(WireType {
            code,
            array_element_type: None,
            struct_type: None,
        }),
    }
}

fn text(s: &str) -> WireValue {
    WireValue::new(Kind::StringValue(s.to_string()))
}

fn answer(fields: Vec<WireField>, rows: Vec<Vec<WireValue>>) -> WireResultSet {
    WireResultSet {
        metadata: Some(WireMetadata {
            row_type: Some(WireStructType { fields }),
            transaction: None,
        }),
        rows,
        stats: None,
    }
}

#[test]
fn rows_are_decoded_by_the_types_of_their_columns() {
    let set = ResultSet::try_from(answer(
        vec![column("a", 2), column("b", 6)],
        vec![
            vec![text("1"), text("one")],
            vec![text("2"), WireValue::new(Kind::NullValue(0))],
        ],
    ))
    .unwrap();
    assert_eq!(
        set.row_type,
        StructType(vec![
            (Some("a".to_string()), Type::Int64),
            (Some("b".to_string()), Type::String)
        ])
    );
    assert_eq!(
        set.rows,
        vec![
            vec![Value::Int64(1), Value::String("one".to_string())],
            vec![Value::Int64(2), Value::Null(Type::String)]
        ]
    );
    assert_eq!(set.transaction(), None);
    assert_eq!(set.stats, Stats { row_count: None });
    let rows = set.iter();
    assert_eq!(rows.len(), 2);
    assert_eq!(rows[0].row_type(), &set.row_type);
    assert!(!rows[0].is_empty());
    assert_eq!(rows[0].get::<i64, _>(0usize), Ok(1));
    assert_eq!(rows[0].get::<String, _>("b"), Ok("one".to_string()));
    assert_eq!(rows[1].get::<Option<&str>, _>("b"), Ok(None));
    assert_eq!(rows[1].get::<Option<i64>, _>("a"), Ok(Some(2)));
    assert_eq!(rows[1].get_unchecked::<i64, _>("a"), 2);
    assert_eq!(rows[1].get_unchecked::<i64, _>(&0usize), 2);
}

#[test]
fn a_column_that_is_not_there_is_an_error() {
    let set = ResultSet::try_from(answer(vec![column("a", 2)], vec![vec![text("1")]])).unwrap();
    let rows = set.iter();
    assert_eq!(
        rows[0].get::<i64, _>("b"),
        Err(Error::Codec("no such column b".to_string()))
    );
    assert_eq!(
        rows[0].get::<i64, _>(1usize),
        Err(Error::Codec("no such column 1".to_string()))
    );
    assert_eq!(
        rows[0].get::<String, _>("a"),
        Err(Error::Codec(
            "type Int64 is unsupported by FromSpanner impl, expected String".to_string()
        ))
    );
}

#[test]
fn a_null_needs_a_nullable_type() {
    let set = ResultSet::try_from(answer(
        vec![column("a", 2)],
        vec![vec![WireValue::new(Kind::NullValue(0))]],
    ))
    .unwrap();
    let rows = set.iter();
    assert_eq!(
        rows[0].get::<i64, _>("a"),
        Err(Error::Codec("value was null".to_string()))
    );
    assert_eq!(rows[0].get::<Option<i64>, _>("a"), Ok(None));
}

#[test]
fn one_bad_value_fails_the_whole_result() {
    let result = ResultSet::try_from(answer(
        vec![column("a", 2)],
        vec![vec![text("1")], vec![text("two")], vec![text("three")]],
    ));
    assert_eq!(
        result.err(),
        Some(Error::Codec("two is not a valid Int64".to_string()))
    );
}

#[test]
fn a_row_of_the_wrong_length_is_refused() {
    let too_long = ResultSet::try_from(answer(
        vec![column("a", 2), column("b", 2)],
        vec![
            vec![text("1"), text("2")],
            vec![text("1"), text("2"), text("3")],
        ],
    ));
    assert_eq!(
        too_long.err(),
        Some(Error::Codec(
            "unmatched number of fields: expected 2, got 3".to_string()
        ))
    );
    let too_short = ResultSet::try_from(answer(
        vec![column("a", 2), column("b", 2)],
        vec![vec![text("3")]],
    ));
    assert_eq!(
        too_short.err(),
        Some(Error::Codec(
            "unmatched number of fields: expected 2, got 1".to_string()
        ))
    );
    let empty = ResultSet::try_from(answer(vec![column("a", 2)], vec![vec![]]));
    assert_eq!(
        empty.err(),
        Some(Error::Codec(
            "unmatched number of fields: expected 1, got 0".to_string()
        ))
    );
    let bad_value_first = ResultSet::try_from(answer(
        vec![column("a", 2)],
        vec![vec![text("x")], vec![]],
    ));
    assert_eq!(
        bad_value_first.err(),
        Some(Error::Codec("x is not a valid Int64".to_string()))
    );
}

#[test]
fn an_answer_without_metadata_has_rows_without_columns() {
    let set = ResultSet::try_from(WireResultSet {
        metadata: None,
        rows: vec![vec![]],
        stats: None,
    })
    .unwrap();
    assert_eq!(set.row_type, StructType(vec![]));
    assert_eq!(set.rows, vec![Vec::<Value>::new()]);
    assert!(set.iter()[0].is_empty());
    let with_a_value = ResultSet::try_from(WireResultSet {
        metadata: None,
        rows: vec![vec![text("unexpected")]],
        stats: None,
    });
    assert_eq!(
        with_a_value.err(),
        Some(Error::Codec(
            "unmatched number of fields: expected 0, got 1".to_string()
        ))
    );
}

#[test]
fn statistics_are_read_first() {
    let mut bad = answer(vec![column("a", 0)], vec![]);
    bad.stats = Some(WireStats {
        row_count: Some(WireRowCount::RowCountLowerBound(1)),
    });
    assert_eq!(
        ResultSet::try_from(bad).err(),
        Some(Error::Client(
            "lower bound row count is unsupported".to_string()
        ))
    );
    assert_eq!(
        ResultSet::try_from(answer(vec![column("a", 0)], vec![])).err(),
        Some(Error::Codec("unspecified type".to_string()))
    );
    assert_eq!(Stats::try_from(None), Ok(Stats { row_count: None }));
    assert_eq!(
        Stats::try_from(Some(WireStats { row_count: None })),
        Ok(Stats { row_count: None })
    );
    assert_eq!(
        Stats::try_from(Some(WireStats {
            row_count: Some(WireRowCount::RowCountExact(12))
        })),
        Ok(Stats {
            row_count: Some(12)
        })
    );
}

#[test]
fn the_row_count_is_needed_for_an_update() {
    let mut update = answer(vec![], vec![]);
    update.stats = Some(WireStats {
        row_count: Some(WireRowCount::RowCountExact(3)),
    });
    update.metadata = Some(WireMetadata {
        row_type: None,
        transaction: Some(vec![1]),
    });
    let set = ResultSet::try_from(update).unwrap();
    assert_eq!(set.row_count(), Ok(3));
    assert_eq!(set.transaction(), Some(&Transaction::new(vec![1])));
    let query = ResultSet::try_from(answer(vec![], vec![])).unwrap();
    assert_eq!(
        query.row_count(),
        Err(Error::Client(
            "no row count available. This may be the result of using execute_update on a statement that did not contain DML."
                .to_string()
        ))
    );
}

#[test]
fn row_index_points_by_position_or_by_name() {
    let tpe = StructType::new(vec![("a", Type::Bool), ("", Type::Bool), ("b", Type::Bool)]);
    assert_eq!(0usize.index(&tpe), Some(0));
    assert_eq!(2usize.index(&tpe), Some(2));
    assert_eq!(3usize.index(&tpe), None);
    assert_eq!("b".index(&tpe), Some(2));
    assert_eq!("".index(&tpe), None);
    assert_eq!((&"a").index(&tpe), Some(0));
    assert_eq!(17usize.describe(), "17");
    assert_eq!("name".describe(), "name");
    let values = vec![Value::Bool(true), Value::Bool(false), Value::Bool(true)];
    let row = Row {
        row_type: &tpe,
        columns: &values,
    };
    assert_eq!(row.get::<bool, _>(1usize), Ok(false));
}
