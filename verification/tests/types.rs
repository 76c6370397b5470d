use spanner_rs::wire::{WireField, WireStructType, WireType};
use spanner_rs::{Error, StructType, Type, TypeCode};

fn scalar_type(code: TypeCode) -> WireType {
    WireType {
        code: code.to_i32(),
        array_element_type: None,
        struct_type: None,
    }
}

fn array_type(underlying: WireType) -> WireType {
    WireType {
        code: TypeCode::Array.to_i32(),
        array_element_type: Some(Box::new(underlying)),
        struct_type: None,
    }
}

fn struct_type(fields: Vec<(&str, WireType)>) -> WireType {
    WireType {
        code: TypeCode::Struct.to_i32(),
        array_element_type: None,
        struct_type: Some(WireStructType {
            fields: fields
                .into_iter()
                .map(|(name, tpe)| WireField {
                    name: name.to_string(),
                    field_type: Some(tpe),
                })
                .collect(),
        }),
    }
}

fn check_scalar(code: TypeCode, expected: Type) {
    assert_eq!(Type::try_from(&scalar_type(code)).unwrap(), expected);
    assert_eq!(WireType::from(&expected).code, code.to_i32())
}

#[test]
fn test_try_from_scalar() {
    check_scalar(TypeCode::Bool, Type::Bool);
    check_scalar(TypeCode::Int64, Type::Int64);
    check_scalar(TypeCode::Float64, Type::Float64);
    check_scalar(TypeCode::String, Type::String);
    check_scalar(TypeCode::Bytes, Type::Bytes);
    check_scalar(TypeCode::Json, Type::Json);
    check_scalar(TypeCode::Numeric, Type::Numeric);
    check_scalar(TypeCode::Timestamp, Type::Timestamp);
    check_scalar(TypeCode::Date, Type::Date);
}

fn check_array_of_scalar(code: TypeCode, inner: Type) {
    let expected = Type::Array(Box::new(inner.clone()));
    assert_eq!(
        Type::try_from(&array_type(scalar_type(code))).unwrap(),
        expected.clone(),
    );
    assert_eq!(
        WireType::from(&expected),
        WireType {
            code: TypeCode::Array.to_i32(),
            array_element_type: Some(Box::new(WireType::from(&inner))),
            struct_type: None,
        }
    )
}

#[test]
fn test_try_from_array() {
    check_array_of_scalar(TypeCode::Bool, Type::Bool);
    check_array_of_scalar(TypeCode::Int64, Type::Int64);
    check_array_of_scalar(TypeCode::Float64, Type::Float64);
    check_array_of_scalar(TypeCode::String, Type::String);
    check_array_of_scalar(TypeCode::Bytes, Type::Bytes);
    check_array_of_scalar(TypeCode::Json, Type::Json);
    check_array_of_scalar(TypeCode::Numeric, Type::Numeric);
    check_array_of_scalar(TypeCode::Timestamp, Type::Timestamp);
    check_array_of_scalar(TypeCode::Date, Type::Date);

    let invalid = WireType {
        code: TypeCode::Array.to_i32(),
        array_element_type: None,
        struct_type: None,
    };

    assert!(Type::try_from(&invalid).is_err());
}

#[test]
fn array_of_array_is_refused() {
    assert_eq!(Type::try_array(Type::array(Type::Bool)), None);
    assert_eq!(
        Type::try_array(Type::Bool),
        Some(Type::Array(Box::new(Type::Bool)))
    );
    assert_eq!(
        Type::try_array(Type::strct(vec![("a", Type::array(Type::Int64))])),
        Some(Type::Array(Box::new(Type::strct(vec![(
            "a",
            Type::Array(Box::new(Type::Int64))
        )]))))
    );
}

#[test]
fn test_try_from_struct() {
    assert_eq!(
        Type::try_from(&struct_type(vec![])).unwrap(),
        Type::strct(vec![])
    );
    assert_eq!(
        Type::try_from(&struct_type(vec![("bool", scalar_type(TypeCode::Bool))])).unwrap(),
        Type::strct(vec![("bool", Type::Bool)]),
    );
    assert_eq!(
        Type::try_from(&struct_type(vec![(
            "array_of_bools",
            array_type(scalar_type(TypeCode::Bool))
        )]))
        .unwrap(),
        Type::strct(vec![("array_of_bools", Type::array(Type::Bool))]),
    );
    assert_eq!(
        Type::try_from(&struct_type(vec![
            ("bool", scalar_type(TypeCode::Bool)),
            (
                "struct",
                struct_type(vec![("int64", scalar_type(TypeCode::Int64))])
            ),
        ]))
        .unwrap(),
        Type::strct(vec![
            ("bool", Type::Bool),
            ("struct", Type::strct(vec![("int64", Type::Int64)]))
        ]),
    );

    assert_eq!(
        struct_type(vec![("bool", scalar_type(TypeCode::Bool))]),
        WireType {
            code: TypeCode::Struct.to_i32(),
            array_element_type: None,
            struct_type: Some(WireStructType {
                fields: vec![WireField {
                    name: "bool".to_string(),
                    field_type: Some(WireType {
                        code: TypeCode::Bool.to_i32(),
                        array_element_type: None,
                        struct_type: None,
                    })
                }]
            })
        }
    );

    let invalid = WireType {
        code: TypeCode::Struct.to_i32(),
        array_element_type: None,
        struct_type: None,
    };

    assert!(Type::try_from(&invalid).is_err());
}

#[test]
fn test_column_index() {
    let strct = StructType(vec![
        (Some("foo".into()), Type::Bool),
        (None, Type::Bool),
        (Some("bar".into()), Type::Bool),
    ]);
    assert_eq!(strct.field_index("foo"), Some(0));
    assert_eq!(strct.field_index("bar"), Some(2));
    assert_eq!(strct.field_index("not present"), None);
}

#[test]
fn field_index_finds_the_first_of_several() {
    let strct = StructType::new(vec![
        ("a", Type::Bool),
        ("b", Type::Int64),
        ("a", Type::String),
        ("", Type::Bool),
    ]);
    assert_eq!(strct.field_index("a"), Some(0));
    assert_eq!(strct.field_index("b"), Some(1));
    assert_eq!(strct.field_index(""), None);
    assert_eq!(StructType::new(vec![]).field_index("a"), None);
}

#[test]
fn struct_type_new_turns_empty_names_into_none() {
    let strct = StructType::new(vec![("named", Type::Bool), ("", Type::Int64)]);
    assert_eq!(
        strct.fields(),
        &vec![
            (Some("named".to_string()), Type::Bool),
            (None, Type::Int64)
        ]
    );
    assert_eq!(
        strct.field_names(),
        vec![&Some("named".to_string()), &None]
    );
    assert_eq!(strct.types(), vec![&Type::Bool, &Type::Int64]);
    assert_eq!(strct.len(), 2);
}

#[test]
fn type_codes_are_those_of_the_protocol() {
    let table = [
        (TypeCode::Unspecified, 0, "Unspecified"),
        (TypeCode::Bool, 1, "Bool"),
        (TypeCode::Int64, 2, "Int64"),
        (TypeCode::Float64, 3, "Float64"),
        (TypeCode::Timestamp, 4, "Timestamp"),
        (TypeCode::Date, 5, "Date"),
        (TypeCode::String, 6, "String"),
        (TypeCode::Bytes, 7, "Bytes"),
        (TypeCode::Array, 8, "Array"),
        (TypeCode::Struct, 9, "Struct"),
        (TypeCode::Numeric, 10, "Numeric"),
        (TypeCode::Json, 11, "Json"),
    ];
    for (code, number, name) in table {
        assert_eq!(code.to_i32(), number);
        assert_eq!(TypeCode::from_i32(number), Some(code));
        assert_eq!(code.as_str(), name);
    }
    assert_eq!(TypeCode::from_i32(12), None);
    assert_eq!(TypeCode::from_i32(-1), None);
    assert_eq!(Type::array(Type::Bool).code(), TypeCode::Array);
    assert_eq!(Type::strct(vec![]).code(), TypeCode::Struct);
    assert_eq!(Type::Json.code(), TypeCode::Json);
}

#[test]
fn type_decoding_reports_each_fault() {
    assert_eq!(
        Type::try_from(&scalar_type(TypeCode::Unspecified)).err(),
        Some(Error::Codec("unspecified type".to_string()))
    );
    let unknown = WireType {
        code: 42,
        array_element_type: None,
        struct_type: None,
    };
    assert_eq!(
        Type::try_from(&unknown).err(),
        Some(Error::Codec("unknown type code 42".to_string()))
    );
    let negative = WireType {
        code: -7,
        array_element_type: None,
        struct_type: None,
    };
    assert_eq!(
        Type::try_from(&negative).err(),
        Some(Error::Codec("unknown type code -7".to_string()))
    );
    let array = WireType {
        code: 8,
        array_element_type: None,
        struct_type: None,
    };
    assert_eq!(
        Type::try_from(&array).err(),
        Some(Error::Codec("missing array element type".to_string()))
    );
    let strct = WireType {
        code: 9,
        array_element_type: None,
        struct_type: None,
    };
    assert_eq!(
        Type::try_from(&strct).err(),
        Some(Error::Codec("missing struct type definition".to_string()))
    );
    let untyped_field = WireType {
        code: 9,
        array_element_type: None,
        struct_type: Some(WireStructType {
            fields: vec![
                WireField {
                    name: "good".to_string(),
                    field_type: Some(scalar_type(TypeCode::Bool)),
                },
                WireField {
                    name: "bad".to_string(),
                    field_type: None,
                },
                WireField {
                    name: "worse".to_string(),
                    field_type: Some(scalar_type(TypeCode::Unspecified)),
                },
            ],
        }),
    };
    assert_eq!(
        Type::try_from(&untyped_field).err(),
        Some(Error::Codec("field 'bad' is missing type".to_string()))
    );
}

#[test]
fn a_field_with_the_empty_name_is_decoded_without_a_name() {
    let wire = struct_type(vec![
        ("", scalar_type(TypeCode::Bool)),
        ("b", scalar_type(TypeCode::Int64)),
    ]);
    assert_eq!(
        Type::try_from(&wire).unwrap(),
        Type::Struct(StructType(vec![
            (None, Type::Bool),
            (Some("b".to_string()), Type::Int64)
        ]))
    );
    assert_eq!(
        Type::try_from(&wire).unwrap(),
        Type::strct(vec![("", Type::Bool), ("b", Type::Int64)])
    );
}

#[test]
fn type_encoding_sends_unnamed_fields_with_the_empty_name() {
    let tpe = Type::strct(vec![("", Type::Bool), ("b", Type::array(Type::Int64))]);
    assert_eq!(
        WireType::from(&tpe),
        struct_type(vec![
            ("", scalar_type(TypeCode::Bool)),
            ("b", array_type(scalar_type(TypeCode::Int64)))
        ])
    );
}

#[test]
fn an_array_of_arrays_on_the_wire_is_refused() {
    let wire = array_type(array_type(scalar_type(TypeCode::Bool)));
    assert_eq!(
        Type::try_from(&wire),
        Err(Error::Codec(
            "array of array is not supported by Cloud Spanner".to_string()
        ))
    );
    let in_a_struct = struct_type(vec![("a", wire)]);
    assert_eq!(
        Type::try_from(&in_a_struct),
        Err(Error::Codec(
            "array of array is not supported by Cloud Spanner".to_string()
        ))
    );
    let array_of_struct_of_array = array_type(struct_type(vec![(
        "a",
        array_type(scalar_type(TypeCode::Bool)),
    )]));
    assert!(Type::try_from(&array_of_struct_of_array).is_ok());
}

#[test]
fn a_type_is_read_back_from_its_wire_form() {
    for tpe in [
        Type::Bool,
        Type::Json,
        Type::array(Type::Timestamp),
        Type::strct(vec![]),
        Type::strct(vec![("", Type::Bool)]),
        Type::strct(vec![
            ("a", Type::Int64),
            ("", Type::array(Type::strct(vec![("c", Type::Date), ("", Type::Bytes)]))),
            ("a", Type::Numeric),
            ("", Type::String),
        ]),
    ] {
        assert_eq!(Type::try_from(&WireType::from(&tpe)), Ok(tpe));
    }
}

#[test]
fn a_type_is_written_as_it_is_shown_for_debugging() {
    let samples = [
        Type::Bool,
        Type::Int64,
        Type::Float64,
        Type::String,
        Type::Bytes,
        Type::Json,
        Type::Numeric,
        Type::Timestamp,
        Type::Date,
        Type::array(Type::Bool),
        Type::Array(Box::new(Type::array(Type::Date))),
        Type::strct(vec![]),
        Type::strct(vec![("a", Type::Bool)]),
        Type::strct(vec![("a", Type::Bool), ("", Type::Int64)]),
        Type::strct(vec![
            ("quote\"d", Type::array(Type::String)),
            ("back\\slash", Type::strct(vec![("inner\n", Type::Json), ("", Type::Bytes)])),
            ("ünï ✓", Type::Numeric),
        ]),
    ];
    for tpe in samples {
        assert_eq!(tpe.describe(), format!("{:?}", tpe));
    }
    assert_eq!(Type::array(Type::Bool).describe(), "Array(Bool)");
    assert_eq!(
        Type::strct(vec![("a", Type::Bool), ("", Type::Int64)]).describe(),
        "Struct(StructType([(Some(\"a\"), Bool), (None, Int64)]))"
    );
}
