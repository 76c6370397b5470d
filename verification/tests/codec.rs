use spanner_rs::wire::{Kind, WireValue};
use spanner_rs::{Bytes, Date, Error, Float64, Numeric, Struct, StructType, Timestamp, Type, Value};

fn wire(kind: Kind) -> WireValue {
    WireValue::new(kind)
}

fn text(s: &str) -> WireValue {
    wire(Kind::StringValue(s.to_string()))
}

fn codec_error(r: Result<Value, Error>) -> String {
    match r {
        Err(Error::Codec(message)) => message,
        other => panic!("expected a codec error, got {:?}", other),
    }
}

fn round_trip(value: Value, tpe: Type) {
    let encoded = WireValue::from(value.clone());
    assert_eq!(Value::try_from(&tpe, encoded), Ok(value));
}

#[test]
fn encode_writes_each_scalar_in_its_wire_form() {
    assert_eq!(WireValue::from(Value::Bool(true)), wire(Kind::BoolValue(true)));
    assert_eq!(WireValue::from(Value::Int64(-42)), text("-42"));
    assert_eq!(
        WireValue::from(Value::Int64(i64::MIN)),
        text("-9223372036854775808")
    );
    assert_eq!(
        WireValue::from(Value::Float64(Float64::from_bits(1.5f64.to_bits()))),
        wire(Kind::NumberValue(1.5f64.to_bits()))
    );
    assert_eq!(
        WireValue::from(Value::String("a string".to_string())),
        text("a string")
    );
    assert_eq!(
        WireValue::from(Value::Json("{\"a\":1}".to_string())),
        text("{\"a\":1}")
    );
    assert_eq!(
        WireValue::from(Value::Bytes(Bytes::from(vec![1, 2, 3, 4]))),
        text("AQIDBA==")
    );
    assert_eq!(WireValue::from(Value::Bytes(Bytes::new())), text(""));
    assert_eq!(
        WireValue::from(Value::Date(Date::new(2021, 10, 1).unwrap())),
        text("2021-10-01")
    );
    assert_eq!(
        WireValue::from(Value::Timestamp(
            Timestamp::new(1633121794, 756433987).unwrap()
        )),
        text("2021-10-01T20:56:34.756433987+00:00")
    );
    assert_eq!(
        WireValue::from(Value::Numeric(Numeric::parse("12.50").unwrap())),
        text("12.50")
    );
}

#[test]
fn encode_writes_every_null_as_the_same_marker() {
    assert_eq!(
        WireValue::from(Value::Null(Type::Int64)),
        wire(Kind::NullValue(0))
    );
    assert_eq!(
        WireValue::from(Value::Null(Type::array(Type::Bool))),
        wire(Kind::NullValue(0))
    );
}

#[test]
fn encode_writes_arrays_and_structs_as_lists() {
    let array = Value::Array(
        Type::Int64,
        vec![Value::Int64(1), Value::Null(Type::Int64), Value::Int64(3)],
    );
    assert_eq!(
        WireValue::from(array),
        wire(Kind::ListValue(vec![
            text("1"),
            wire(Kind::NullValue(0)),
            text("3")
        ]))
    );
    let strct = Value::Struct(Struct::new(
        StructType::new(vec![("a", Type::Bool), ("", Type::String)]),
        vec![Value::Bool(false), Value::String("x".to_string())],
    ));
    assert_eq!(
        WireValue::from(strct),
        wire(Kind::ListValue(vec![wire(Kind::BoolValue(false)), text("x")]))
    );
}

#[test]
fn every_scalar_is_read_back_from_its_wire_form() {
    round_trip(Value::Bool(true), Type::Bool);
    round_trip(Value::Bool(false), Type::Bool);
    for i in [0, 1, -1, 42, i64::MAX, i64::MIN] {
        round_trip(Value::Int64(i), Type::Int64);
    }
    for f in [
        0.0,
        -0.0,
        1.5,
        f64::MAX,
        f64::MIN,
        f64::INFINITY,
        f64::NEG_INFINITY,
        f64::NAN,
        f64::MIN_POSITIVE,
    ] {
        round_trip(Value::Float64(Float64::from_bits(f.to_bits())), Type::Float64);
    }
    round_trip(Value::String("".to_string()), Type::String);
    round_trip(Value::String("ünïcödé ✓".to_string()), Type::String);
    round_trip(Value::Json("[1, 2, {\"k\": null}]".to_string()), Type::Json);
    round_trip(Value::Bytes(Bytes::new()), Type::Bytes);
    round_trip(Value::Bytes(Bytes::from(vec![0, 255, 1, 2, 3])), Type::Bytes);
    round_trip(
        Value::Bytes(Bytes::from((0..=255u8).collect::<Vec<u8>>())),
        Type::Bytes,
    );
    round_trip(Value::Date(Date::new(1, 1, 1).unwrap()), Type::Date);
    round_trip(Value::Date(Date::new(2024, 2, 29).unwrap()), Type::Date);
    round_trip(Value::Date(Date::new(9999, 12, 31).unwrap()), Type::Date);
    round_trip(
        Value::Timestamp(Timestamp::new(-62135596800, 0).unwrap()),
        Type::Timestamp,
    );
    round_trip(
        Value::Timestamp(Timestamp::new(253402300799, 999999999).unwrap()),
        Type::Timestamp,
    );
    round_trip(
        Value::Timestamp(Timestamp::new(0, 0).unwrap()),
        Type::Timestamp,
    );
    round_trip(
        Value::Timestamp(Timestamp::new(1633121794, 756000000).unwrap()),
        Type::Timestamp,
    );
    round_trip(
        Value::Timestamp(Timestamp::new(-1, 1000).unwrap()),
        Type::Timestamp,
    );
    round_trip(
        Value::Timestamp(Timestamp::new(1435708799, 1_250_000_000).unwrap()),
        Type::Timestamp,
    );
}

#[test]
fn every_null_is_read_back_as_the_null_of_its_type() {
    for tpe in [
        Type::Bool,
        Type::Int64,
        Type::Float64,
        Type::String,
        Type::Bytes,
        Type::Json,
        Type::Numeric,
        Type::Timestamp,
        Type::Date,
        Type::array(Type::Date),
        Type::strct(vec![("a", Type::Bool)]),
    ] {
        round_trip(Value::Null(tpe.clone()), tpe);
    }
}

#[test]
fn arrays_and_structs_are_read_back() {
    round_trip(
        Value::Array(
            Type::Int64,
            vec![
                Value::Null(Type::Int64),
                Value::Int64(1),
                Value::Null(Type::Int64),
                Value::Int64(-2),
            ],
        ),
        Type::array(Type::Int64),
    );
    round_trip(Value::Array(Type::String, vec![]), Type::array(Type::String));
    let fields = vec![
        ("id", Type::Int64),
        ("", Type::array(Type::Bytes)),
        ("when", Type::Date),
    ];
    round_trip(
        Value::Struct(Struct::new(
            StructType::new(fields.clone()),
            vec![
                Value::Int64(7),
                Value::Array(
                    Type::Bytes,
                    vec![Value::Bytes(Bytes::from(vec![9])), Value::Null(Type::Bytes)],
                ),
                Value::Null(Type::Date),
            ],
        )),
        Type::strct(fields),
    );
}

#[test]
fn reencoding_an_array_keeps_order_and_nulls() {
    let list = vec![
        wire(Kind::NullValue(0)),
        text("3"),
        wire(Kind::NullValue(0)),
        wire(Kind::NullValue(0)),
        text("+1"),
        text("-2"),
    ];
    let decoded = Value::try_from(&Type::array(Type::Int64), wire(Kind::ListValue(list))).unwrap();
    assert_eq!(
        decoded,
        Value::Array(
            Type::Int64,
            vec![
                Value::Null(Type::Int64),
                Value::Int64(3),
                Value::Null(Type::Int64),
                Value::Null(Type::Int64),
                Value::Int64(1),
                Value::Int64(-2)
            ]
        )
    );
    assert_eq!(
        WireValue::from(decoded),
        wire(Kind::ListValue(vec![
            wire(Kind::NullValue(0)),
            text("3"),
            wire(Kind::NullValue(0)),
            wire(Kind::NullValue(0)),
            text("1"),
            text("-2"),
        ]))
    );
}

#[test]
fn a_numeric_is_read_back_as_the_same_number() {
    for n in [
        Numeric::parse("1e-24").unwrap(),
        Numeric::parse("12.50").unwrap(),
        Numeric::new(vec![10], -1),
        Numeric::new(vec![], 3),
        Numeric::new(vec![255], -20),
    ] {
        round_trip(Value::Numeric(n), Type::Numeric);
    }
    let unnormalised = Numeric::new(vec![10], -1);
    assert_eq!(unnormalised.to_text(), "100");
    let read = match Value::try_from(&Type::Numeric, text("100")) {
        Ok(Value::Numeric(read)) => read,
        other => panic!("unexpected {:?}", other),
    };
    assert_eq!((read.unscaled.clone(), read.scale), (vec![100], 0));
    assert_eq!(read, unnormalised);
    round_trip(
        Value::Array(
            Type::Numeric,
            vec![
                Value::Numeric(Numeric::new(vec![10], -1)),
                Value::Null(Type::Numeric),
                Value::Numeric(Numeric::parse("0.10").unwrap()),
            ],
        ),
        Type::array(Type::Numeric),
    );
}

#[test]
fn a_mismatched_shape_is_a_codec_error() {
    assert_eq!(
        codec_error(Value::try_from(&Type::Int64, wire(Kind::BoolValue(true)))),
        "unexpected value kind BoolValue for type Int64"
    );
    assert_eq!(
        codec_error(Value::try_from(&Type::Bool, text("true"))),
        "unexpected value kind StringValue for type Bool"
    );
    assert_eq!(
        codec_error(Value::try_from(
            &Type::String,
            wire(Kind::NumberValue(1.0f64.to_bits()))
        )),
        "unexpected value kind NumberValue for type String"
    );
    assert_eq!(
        codec_error(Value::try_from(
            &Type::array(Type::Bool),
            wire(Kind::StructValue(vec![]))
        )),
        "unexpected value kind StructValue for type Array"
    );
    assert_eq!(
        codec_error(Value::try_from(
            &Type::Float64,
            wire(Kind::ListValue(vec![]))
        )),
        "unexpected value kind ListValue for type Float64"
    );
    assert_eq!(
        codec_error(Value::try_from(
            &Type::strct(vec![]),
            wire(Kind::BoolValue(false))
        )),
        "unexpected value kind BoolValue for type Struct"
    );
    for tpe in [
        Type::Bytes,
        Type::Json,
        Type::Numeric,
        Type::Timestamp,
        Type::Date,
    ] {
        assert!(matches!(
            Value::try_from(&tpe, wire(Kind::BoolValue(true))),
            Err(Error::Codec(_))
        ));
    }
}

#[test]
fn a_missing_kind_is_a_codec_error() {
    assert_eq!(
        codec_error(Value::try_from(&Type::Bool, WireValue { kind: None })),
        "unexpected missing value format"
    );
}

#[test]
fn text_that_denotes_no_value_is_a_codec_error() {
    assert_eq!(
        codec_error(Value::try_from(&Type::Int64, text("forty-two"))),
        "forty-two is not a valid Int64"
    );
    assert_eq!(
        codec_error(Value::try_from(&Type::Int64, text("9223372036854775808"))),
        "9223372036854775808 is not a valid Int64"
    );
    assert_eq!(
        codec_error(Value::try_from(&Type::Numeric, text("one"))),
        "one is not a valid Numeric"
    );
    assert!(
        codec_error(Value::try_from(&Type::Bytes, text("not base64!")))
            .starts_with("invalid bytes value: ")
    );
    assert!(
        codec_error(Value::try_from(&Type::Timestamp, text("yesterday")))
            .starts_with("unexpected date or datetime format: ")
    );
    assert!(
        codec_error(Value::try_from(&Type::Date, text("2021-02-30")))
            .starts_with("unexpected date or datetime format: ")
    );
}

#[test]
fn a_struct_needs_one_value_for_each_field() {
    let tpe = Type::strct(vec![("a", Type::Bool), ("b", Type::Bool)]);
    assert_eq!(
        codec_error(Value::try_from(
            &tpe,
            wire(Kind::ListValue(vec![wire(Kind::BoolValue(true))]))
        )),
        "unmatched number of fields: expected 2, got 1"
    );
    assert_eq!(
        codec_error(Value::try_from(
            &tpe,
            wire(Kind::ListValue(vec![
                wire(Kind::BoolValue(true)),
                wire(Kind::BoolValue(true)),
                wire(Kind::BoolValue(true))
            ]))
        )),
        "unmatched number of fields: expected 2, got 3"
    );
    assert_eq!(
        codec_error(Value::try_from(&tpe, wire(Kind::ListValue(vec![])))),
        "unmatched number of fields: expected 2, got 0"
    );
    assert_eq!(
        Struct::try_from(
            &StructType::new(vec![("a", Type::Bool)]),
            vec![]
        )
        .err(),
        Some(Error::Codec(
            "unmatched number of fields: expected 1, got 0".to_string()
        ))
    );
}

#[test]
fn the_first_bad_element_fails_the_list() {
    let list = vec![text("1"), text("x"), wire(Kind::BoolValue(true))];
    assert_eq!(
        codec_error(Value::try_from(
            &Type::array(Type::Int64),
            wire(Kind::ListValue(list))
        )),
        "x is not a valid Int64"
    );
    let tpe = Type::strct(vec![("a", Type::Int64), ("b", Type::Bool)]);
    let list = vec![wire(Kind::BoolValue(true)), text("x")];
    assert_eq!(
        codec_error(Value::try_from(&tpe, wire(Kind::ListValue(list)))),
        "unexpected value kind BoolValue for type Int64"
    );
}

#[test]
fn spanner_type_is_the_type_of_the_value() {
    assert_eq!(Value::Bool(true).spanner_type(), Type::Bool);
    assert_eq!(Value::Int64(1).spanner_type(), Type::Int64);
    assert_eq!(Value::from(5).spanner_type(), Type::Int64);
    assert_eq!(Value::from(5), Value::Int64(5));
    assert_eq!(
        Value::Float64(Float64::from_bits(0)).spanner_type(),
        Type::Float64
    );
    assert_eq!(Value::String(String::new()).spanner_type(), Type::String);
    assert_eq!(Value::Json(String::new()).spanner_type(), Type::Json);
    assert_eq!(Value::Bytes(Bytes::new()).spanner_type(), Type::Bytes);
    assert_eq!(
        Value::Numeric(Numeric::new(vec![], 0)).spanner_type(),
        Type::Numeric
    );
    assert_eq!(
        Value::Timestamp(Timestamp::new(0, 0).unwrap()).spanner_type(),
        Type::Timestamp
    );
    assert_eq!(
        Value::Date(Date::new(1970, 1, 1).unwrap()).spanner_type(),
        Type::Date
    );
    assert_eq!(Value::Null(Type::Date).spanner_type(), Type::Date);
    assert_eq!(
        Value::Array(Type::Bool, vec![]).spanner_type(),
        Type::array(Type::Bool)
    );
    assert_eq!(
        Value::Array(Type::Int64, vec![Value::Int64(0), Value::Null(Type::Int64)]).spanner_type(),
        Type::Array(Box::new(Type::Int64))
    );
    let struct_type = StructType::new(vec![("a", Type::Bool)]);
    assert_eq!(
        Value::Struct(Struct::new(struct_type.clone(), vec![Value::Bool(true)])).spanner_type(),
        Type::Struct(struct_type)
    );
}

#[test]
fn struct_values_hold_their_type_and_values() {
    let struct_type = StructType::new(vec![("a", Type::Bool)]);
    let s = Struct::new(struct_type.clone(), vec![Value::Bool(true)]);
    assert_eq!(s.struct_type(), &struct_type);
    assert_eq!(s.values(), &vec![Value::Bool(true)]);
    assert_eq!(Struct::try_new(struct_type.clone(), vec![]), None);
    assert_eq!(
        Struct::try_new(struct_type, vec![Value::Bool(true)]),
        Some(s)
    );
}

#[test]
fn what_was_read_from_text_becomes_a_value_or_a_codec_error() {
    assert_eq!(
        Value::bytes_or_error(Ok(vec![1, 2])),
        Ok(Value::Bytes(Bytes::from(vec![1, 2])))
    );
    assert_eq!(
        Value::bytes_or_error(Err("bad".to_string())),
        Err(Error::Codec("invalid bytes value: bad".to_string()))
    );
    assert_eq!(
        Value::numeric_or_error("1", Some(Numeric::new(vec![1], 0))),
        Ok(Value::Numeric(Numeric::new(vec![1], 0)))
    );
    assert_eq!(
        Value::numeric_or_error("x", None),
        Err(Error::Codec("x is not a valid Numeric".to_string()))
    );
    let t = Timestamp::new(5, 6).unwrap();
    assert_eq!(Value::timestamp_or_error(Ok(t)), Ok(Value::Timestamp(t)));
    assert_eq!(
        Value::timestamp_or_error(Err("bad".to_string())),
        Err(Error::Codec(
            "unexpected date or datetime format: bad".to_string()
        ))
    );
    let d = Date::new(2000, 1, 2).unwrap();
    assert_eq!(Value::date_or_error(Ok(d)), Ok(Value::Date(d)));
    assert_eq!(
        Value::date_or_error(Err("bad".to_string())),
        Err(Error::Codec(
            "unexpected date or datetime format: bad".to_string()
        ))
    );
    assert_eq!(
        spanner_rs::from_spanner::unsupported_type("A", "B"),
        Error::Codec("type A is unsupported by FromSpanner impl, expected B".to_string())
    );
}
