use spanner_rs::{Bytes, Date, Numeric, Timestamp, ToSpanner, Type, Value};

#[test]
fn test_to_spanner_simple_int64() {
    assert_eq!((0 as i8).to_spanner().ok(), Some(Value::Int64(0)));
    assert_eq!((0 as u8).to_spanner().ok(), Some(Value::Int64(0)));
    assert_eq!((0 as i16).to_spanner().ok(), Some(Value::Int64(0)));
    assert_eq!((0 as u16).to_spanner().ok(), Some(Value::Int64(0)));
    assert_eq!((0 as i32).to_spanner().ok(), Some(Value::Int64(0)));
    assert_eq!((0 as u32).to_spanner().ok(), Some(Value::Int64(0)));
    assert_eq!((0 as i64).to_spanner().ok(), Some(Value::Int64(0)));
}

#[test]
fn test_to_spanner_opt() {
    let some = Some(0 as u32);
    assert_eq!(some.to_spanner().ok(), Some(Value::Int64(0)));
    let none: Option<u32> = None;
    assert_eq!(none.to_spanner().ok(), Some(Value::Null(Type::Int64)));
}

#[test]
fn test_to_spanner_array() {
    let array = vec![0, 1, 2, 3, 4];
    assert_eq!(
        array.to_spanner().ok(),
        Some(Value::Array(
            Type::Int64,
            vec![
                Value::Int64(0),
                Value::Int64(1),
                Value::Int64(2),
                Value::Int64(3),
                Value::Int64(4)
            ]
        ))
    );
    let empty: Vec<u32> = vec![];
    assert_eq!(
        empty.to_spanner().ok(),
        Some(Value::Array(Type::Int64, vec![]))
    );
}

#[test]
fn to_spanner_widens_integers() {
    assert_eq!(i8::MIN.to_spanner().ok(), Some(Value::Int64(-128)));
    assert_eq!(u8::MAX.to_spanner().ok(), Some(Value::Int64(255)));
    assert_eq!(i16::MIN.to_spanner().ok(), Some(Value::Int64(-32768)));
    assert_eq!(u16::MAX.to_spanner().ok(), Some(Value::Int64(65535)));
    assert_eq!(i32::MIN.to_spanner().ok(), Some(Value::Int64(-2147483648)));
    assert_eq!(u32::MAX.to_spanner().ok(), Some(Value::Int64(4294967295)));
    assert_eq!(i64::MAX.to_spanner().ok(), Some(Value::Int64(i64::MAX)));
}

#[test]
fn to_spanner_of_the_other_scalars() {
    assert_eq!(true.to_spanner().ok(), Some(Value::Bool(true)));
    assert_eq!(
        "text".to_spanner().ok(),
        Some(Value::String("text".to_string()))
    );
    assert_eq!(
        "text".to_string().to_spanner().ok(),
        Some(Value::String("text".to_string()))
    );
    assert_eq!(
        Bytes::from(vec![1, 2]).to_spanner().ok(),
        Some(Value::Bytes(Bytes::from(vec![1, 2])))
    );
    let n = Numeric::parse("12.5").unwrap();
    assert_eq!(n.to_spanner().ok(), Some(Value::Numeric(n.clone())));
    let t = Timestamp::new(1, 2).unwrap();
    assert_eq!(t.to_spanner().ok(), Some(Value::Timestamp(t)));
    let d = Date::new(2021, 10, 1).unwrap();
    assert_eq!(d.to_spanner().ok(), Some(Value::Date(d)));
}

#[test]
fn spanner_type_of_each_type() {
    assert_eq!(<i8 as ToSpanner>::spanner_type(), Type::Int64);
    assert_eq!(<bool as ToSpanner>::spanner_type(), Type::Bool);
    assert_eq!(<String as ToSpanner>::spanner_type(), Type::String);
    assert_eq!(<&str as ToSpanner>::spanner_type(), Type::String);
    assert_eq!(<Bytes as ToSpanner>::spanner_type(), Type::Bytes);
    assert_eq!(<Numeric as ToSpanner>::spanner_type(), Type::Numeric);
    assert_eq!(<Timestamp as ToSpanner>::spanner_type(), Type::Timestamp);
    assert_eq!(<Date as ToSpanner>::spanner_type(), Type::Date);
    assert_eq!(<Option<i64> as ToSpanner>::spanner_type(), Type::Int64);
    assert_eq!(
        <Vec<i64> as ToSpanner>::spanner_type(),
        Type::Array(Box::new(Type::Int64))
    );
    assert_eq!(
        <&[bool] as ToSpanner>::spanner_type(),
        Type::Array(Box::new(Type::Bool))
    );
}

#[test]
fn to_spanner_array_of_nullable_elements() {
    let array = vec![Some(1i64), None, Some(3)];
    assert_eq!(
        array.to_spanner().ok(),
        Some(Value::Array(
            Type::Int64,
            vec![Value::Int64(1), Value::Null(Type::Int64), Value::Int64(3)]
        ))
    );
    let slice: &[bool] = &[true, false];
    assert_eq!(
        slice.to_spanner().ok(),
        Some(Value::Array(
            Type::Bool,
            vec![Value::Bool(true), Value::Bool(false)]
        ))
    );
}
