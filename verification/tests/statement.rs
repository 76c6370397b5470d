use spanner_rs::auth::{bearer, Scopes};
use spanner_rs::statement::{bind_parameters, wire_seqno, Parameter, WireStatement};
use spanner_rs::transaction::WireSelector;
use spanner_rs::wire::{Kind, WireType, WireValue};
use spanner_rs::{
    Key, KeySet, Session, Statement, TimestampBound, Transaction, TransactionSelector, Type,
    Value,
};

fn text(s: &str) -> WireValue {
    WireValue::new(Kind::StringValue(s.to_string()))
}

fn scalar(code: i32) -> WireType {
    WireType {
        code,
        array_element_type: None,
        struct_type: None,
    }
}

#[test]
fn parameters_are_sent_with_their_declared_types() {
    let bound = bind_parameters(&[
        ("id", Value::Int64(42)),
        ("name", Value::String("ferris".to_string())),
        ("data", Value::Null(Type::Bytes)),
    ]);
    assert_eq!(
        bound,
        vec![
            Parameter {
                name: "id".to_string(),
                value: text("42"),
                param_type: scalar(2)
            },
            Parameter {
                name: "name".to_string(),
                value: text("ferris"),
                param_type: scalar(6)
            },
            Parameter {
                name: "data".to_string(),
                value: WireValue::new(Kind::NullValue(0)),
                param_type: scalar(7)
            },
        ]
    );
    assert_eq!(bind_parameters(&[]), vec![]);
}

#[test]
fn a_name_is_bound_to_its_last_value() {
    let bound = bind_parameters(&[
        ("a", Value::Int64(1)),
        ("b", Value::Bool(true)),
        ("a", Value::String("last".to_string())),
    ]);
    assert_eq!(
        bound,
        vec![
            Parameter {
                name: "a".to_string(),
                value: text("last"),
                param_type: scalar(6)
            },
            Parameter {
                name: "b".to_string(),
                value: WireValue::new(Kind::BoolValue(true)),
                param_type: scalar(1)
            },
        ]
    );
}

#[test]
fn an_array_is_declared_as_an_array_of_its_elements() {
    let bound = bind_parameters(&[("xs", Value::Array(Type::Int64, vec![Value::Int64(1)]))]);
    assert_eq!(
        bound[0].param_type,
        WireType {
            code: 8,
            array_element_type: Some(Box::new(scalar(2))),
            struct_type: None,
        }
    );
    assert_eq!(
        bound[0].value,
        WireValue::new(Kind::ListValue(vec![text("1")]))
    );
}

#[test]
fn a_statement_of_a_batch_is_sent_with_its_text() {
    let params = [("a", Value::Int64(1))];
    let statement = Statement {
        sql: "UPDATE t SET a = @a",
        params: &params,
    };
    assert_eq!(
        WireStatement::from(&statement),
        WireStatement {
            sql: "UPDATE t SET a = @a".to_string(),
            params: vec![Parameter {
                name: "a".to_string(),
                value: text("1"),
                param_type: scalar(2)
            }]
        }
    );
}

#[test]
fn a_read_only_statement_is_sent_with_sequence_number_zero() {
    assert_eq!(wire_seqno(None), 0);
    assert_eq!(wire_seqno(Some(5)), 5);
    assert_eq!(wire_seqno(Some(i64::MAX)), i64::MAX);
}

#[test]
fn selectors_ask_for_the_right_kind_of_transaction() {
    assert!(matches!(
        WireSelector::from(TransactionSelector::Begin),
        WireSelector::BeginReadWrite
    ));
    assert!(matches!(
        WireSelector::from(TransactionSelector::Id(Transaction::new(vec![1, 2]))),
        WireSelector::Id(id) if id == vec![1, 2]
    ));
    assert!(matches!(
        WireSelector::from(TransactionSelector::SingleUse(None)),
        WireSelector::SingleUseReadOnly {
            return_read_timestamp: false,
            timestamp_bound: None
        }
    ));
    assert!(matches!(
        WireSelector::from(TransactionSelector::SingleUse(Some(TimestampBound::Strong))),
        WireSelector::SingleUseReadOnly {
            return_read_timestamp: false,
            timestamp_bound: Some(TimestampBound::Strong)
        }
    ));
    let t = Transaction::new(vec![3]);
    assert_eq!(t.id(), &vec![3]);
    assert_eq!(t.clone(), t);
}

#[test]
fn keys_are_sent_as_lists_of_values() {
    assert_eq!(Key::from(Value::Int64(1)).into(), vec![text("1")]);
    assert_eq!(
        Key::from_pair((Value::Int64(1), Value::String("a".to_string()))).into(),
        vec![text("1"), text("a")]
    );
    let set = KeySet::from(vec![
        Key::from(Value::Int64(1)),
        Key::from_pair((Value::Int64(2), Value::Bool(true))),
    ])
    .into();
    assert!(!set.all);
    assert_eq!(set.ranges, 0);
    assert_eq!(
        set.keys,
        vec![
            vec![text("1")],
            vec![text("2"), WireValue::new(Kind::BoolValue(true))]
        ]
    );
    assert_eq!(KeySet::from(vec![]).into().keys, Vec::<Vec<WireValue>>::new());
}

#[test]
fn scopes_name_what_a_token_is_asked_for() {
    assert_eq!(
        Scopes::Database.as_slice(),
        vec![
            "https://www.googleapis.com/auth/cloud-platform",
            "https://www.googleapis.com/auth/spanner.data",
        ]
    );
    assert_eq!(
        Scopes::Admin.as_slice(),
        vec![
            "https://www.googleapis.com/auth/cloud-platform",
            "https://www.googleapis.com/auth/spanner.data",
            "https://www.googleapis.com/auth/spanner.admin",
        ]
    );
    assert_eq!(bearer("abc"), "Bearer abc");
    assert_eq!(bearer(""), "Bearer ");
}

#[test]
fn a_session_is_known_by_its_name() {
    let session = Session::new("projects/p/instances/i/databases/d/sessions/s".to_string());
    assert_eq!(
        session.name(),
        "projects/p/instances/i/databases/d/sessions/s"
    );
}
