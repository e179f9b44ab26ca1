use cql_marshal::consistency::{to_transport_consistency, Consistency, TransportConsistency};
use cql_marshal::cql::{ColumnType, CqlValue, DateYmd};
use cql_marshal::decode::{cql_to_py, DecodeError, TypeKind};
use cql_marshal::encode::{encode_parameter, py_to_value, EncodeError};
use cql_marshal::host::{HostValue, InetAddr};
use cql_marshal::rows::map_rows;
use cql_marshal::text::{format_iso_date, uuid_simple_string};
use cql_marshal::wire::{serialize_value, PyToValue};

#[test]
fn consistency_mapping_is_total_and_exact() {
    assert_eq!(to_transport_consistency(Consistency::ANY), TransportConsistency::Any);
    assert_eq!(to_transport_consistency(Consistency::ONE), TransportConsistency::One);
    assert_eq!(to_transport_consistency(Consistency::TWO), TransportConsistency::Two);
    assert_eq!(to_transport_consistency(Consistency::THREE), TransportConsistency::Three);
    assert_eq!(to_transport_consistency(Consistency::QUORUM), TransportConsistency::Quorum);
    assert_eq!(to_transport_consistency(Consistency::ALL), TransportConsistency::All);
    assert_eq!(
        to_transport_consistency(Consistency::LOCAL_QUORUM),
        TransportConsistency::LocalQuorum
    );
    assert_eq!(
        to_transport_consistency(Consistency::EACH_QUORUM),
        TransportConsistency::EachQuorum
    );
    assert_eq!(to_transport_consistency(Consistency::LOCAL_ONE), TransportConsistency::LocalOne);
}

#[test]
fn boolean_decodes_as_boolean_not_integer() {
    let r = cql_to_py(&ColumnType::Boolean, Some(&CqlValue::Boolean(true))).unwrap();
    assert_eq!(r, HostValue::Bool(true));
    assert_ne!(r, HostValue::Int(1));
    let r = cql_to_py(&ColumnType::Boolean, Some(&CqlValue::Boolean(false))).unwrap();
    assert_eq!(r, HostValue::Bool(false));
}

#[test]
fn absent_value_decodes_to_no_value_marker() {
    assert_eq!(cql_to_py(&ColumnType::Int, None).unwrap(), HostValue::Absent);
    assert_eq!(cql_to_py(&ColumnType::Text, None).unwrap(), HostValue::Absent);
    let nested = ColumnType::List(Box::new(ColumnType::MapOf(
        Box::new(ColumnType::Text),
        Box::new(ColumnType::Int),
    )));
    assert_eq!(cql_to_py(&nested, None).unwrap(), HostValue::Absent);
}

#[test]
fn list_of_int_preserves_order() {
    let t = ColumnType::List(Box::new(ColumnType::Int));
    let v = CqlValue::List(vec![CqlValue::Int(1), CqlValue::Int(2), CqlValue::Int(3)]);
    let r = cql_to_py(&t, Some(&v)).unwrap();
    assert_eq!(
        r,
        HostValue::List(vec![HostValue::Int(1), HostValue::Int(2), HostValue::Int(3)])
    );
}

#[test]
fn map_of_text_int_keeps_both_entries() {
    let t = ColumnType::MapOf(Box::new(ColumnType::Text), Box::new(ColumnType::Int));
    let v = CqlValue::MapOf(vec![
        (CqlValue::Text(String::from("a")), CqlValue::Int(1)),
        (CqlValue::Text(String::from("b")), CqlValue::Int(2)),
    ]);
    let r = cql_to_py(&t, Some(&v)).unwrap();
    let entries = match r {
        HostValue::Dict(entries) => entries,
        other => panic!("expected a mapping, got {:?}", other),
    };
    assert_eq!(entries.len(), 2);
    // entries must be reachable by key, whatever their order
    let a = entries.iter().find(|(k, _)| *k == HostValue::Str(String::from("a")));
    let b = entries.iter().find(|(k, _)| *k == HostValue::Str(String::from("b")));
    assert_eq!(a.map(|(_, v)| v), Some(&HostValue::Int(1)));
    assert_eq!(b.map(|(_, v)| v), Some(&HostValue::Int(2)));
}

#[test]
fn tuple_decodes_matching_arity() {
    let t = ColumnType::Tuple(vec![ColumnType::Int, ColumnType::Text]);
    let v = CqlValue::Tuple(vec![
        Some(CqlValue::Int(5)),
        Some(CqlValue::Text(String::from("x"))),
    ]);
    let r = cql_to_py(&t, Some(&v)).unwrap();
    assert_eq!(
        r,
        HostValue::Tuple(vec![HostValue::Int(5), HostValue::Str(String::from("x"))])
    );
}

#[test]
fn tuple_arity_mismatch_fails_with_tuple_shape_error() {
    let t = ColumnType::Tuple(vec![ColumnType::Int, ColumnType::Text, ColumnType::Boolean]);
    let v = CqlValue::Tuple(vec![
        Some(CqlValue::Int(5)),
        Some(CqlValue::Text(String::from("x"))),
    ]);
    assert_eq!(cql_to_py(&t, Some(&v)), Err(DecodeError::TupleShape));
}

#[test]
fn tuple_against_non_tuple_value_fails() {
    let t = ColumnType::Tuple(vec![ColumnType::Int]);
    let v = CqlValue::Int(5);
    assert_eq!(cql_to_py(&t, Some(&v)), Err(DecodeError::TupleShape));
}

#[test]
fn tuple_absent_position_decodes_to_no_value() {
    let t = ColumnType::Tuple(vec![ColumnType::Int, ColumnType::Text]);
    let v = CqlValue::Tuple(vec![Some(CqlValue::Int(5)), None]);
    let r = cql_to_py(&t, Some(&v)).unwrap();
    assert_eq!(r, HostValue::Tuple(vec![HostValue::Int(5), HostValue::Absent]));
}

#[test]
fn duration_truncates_nanoseconds_to_microseconds() {
    let r = cql_to_py(&ColumnType::Duration, Some(&CqlValue::Duration(1_500_000))).unwrap();
    assert_eq!(r, HostValue::Duration(1500));
}

#[test]
fn duration_truncates_toward_zero_for_negative_values() {
    let r = cql_to_py(&ColumnType::Duration, Some(&CqlValue::Duration(-1500))).unwrap();
    assert_eq!(r, HostValue::Duration(-1));
}

#[test]
fn timestamp_decodes_as_plain_millisecond_integer() {
    let r = cql_to_py(&ColumnType::Timestamp, Some(&CqlValue::Timestamp(1_696_000_000_123)))
        .unwrap();
    assert_eq!(r, HostValue::Int(1_696_000_000_123));
}

#[test]
fn uuid_decodes_to_simple_lowercase_string_form() {
    let u: u128 = 0x550e8400_e29b_41d4_a716_446655440000;
    let r = cql_to_py(&ColumnType::Uuid, Some(&CqlValue::Uuid(u))).unwrap();
    assert_eq!(
        r,
        HostValue::Uuid(String::from("550e8400e29b41d4a716446655440000"))
    );
    assert_eq!(uuid_simple_string(u), "550e8400e29b41d4a716446655440000");
    let r = cql_to_py(&ColumnType::Timeuuid, Some(&CqlValue::Timeuuid(u))).unwrap();
    assert_eq!(
        r,
        HostValue::Uuid(String::from("550e8400e29b41d4a716446655440000"))
    );
}

#[test]
fn date_decodes_to_iso_string() {
    let d = DateYmd { year: 2024, month: 3, day: 7 };
    let r = cql_to_py(&ColumnType::Date, Some(&CqlValue::Date(d))).unwrap();
    assert_eq!(r, HostValue::Date(String::from("2024-03-07")));
    assert_eq!(format_iso_date(DateYmd { year: 1, month: 12, day: 31 }), "0001-12-31");
}

#[test]
fn accessor_mismatch_is_an_error_not_a_null() {
    let r = cql_to_py(&ColumnType::Int, Some(&CqlValue::Text(String::from("5"))));
    assert_eq!(r, Err(DecodeError::Mismatch { expected: TypeKind::Int }));
    let r = cql_to_py(&ColumnType::Ascii, Some(&CqlValue::Int(1)));
    assert_eq!(r, Err(DecodeError::Mismatch { expected: TypeKind::Ascii }));
}

#[test]
fn float_column_reads_through_the_double_accessor() {
    let bits = (1.5f64).to_bits();
    let r = cql_to_py(&ColumnType::Float, Some(&CqlValue::Double(bits))).unwrap();
    assert_eq!(r, HostValue::Float(bits));
    let narrow = (1.5f32).to_bits();
    let r = cql_to_py(&ColumnType::Float, Some(&CqlValue::Float(narrow)));
    assert_eq!(r, Err(DecodeError::Mismatch { expected: TypeKind::Double }));
}

#[test]
fn unimplemented_column_kinds_are_refused_by_name() {
    let cases = vec![
        (ColumnType::Time, TypeKind::Time),
        (ColumnType::Counter, TypeKind::Counter),
        (ColumnType::Varint, TypeKind::Varint),
        (ColumnType::Decimal, TypeKind::Decimal),
        (ColumnType::Custom(String::from("vendor.Blob")), TypeKind::Custom),
        (
            ColumnType::UserDefined {
                keyspace: String::from("ks"),
                name: String::from("addr"),
            },
            TypeKind::UserDefined,
        ),
    ];
    for (t, kind) in cases {
        let r = cql_to_py(&t, Some(&CqlValue::Int(0)));
        assert_eq!(r, Err(DecodeError::NotSupported { kind }));
    }
}

#[test]
fn deep_nesting_decodes_structurally() {
    // list<map<text, tuple<int, text>>>
    let t = ColumnType::List(Box::new(ColumnType::MapOf(
        Box::new(ColumnType::Text),
        Box::new(ColumnType::Tuple(vec![ColumnType::Int, ColumnType::Text])),
    )));
    let v = CqlValue::List(vec![CqlValue::MapOf(vec![(
        CqlValue::Text(String::from("k")),
        CqlValue::Tuple(vec![
            Some(CqlValue::Int(7)),
            Some(CqlValue::Text(String::from("seven"))),
        ]),
    )])]);
    let r = cql_to_py(&t, Some(&v)).unwrap();
    assert_eq!(
        r,
        HostValue::List(vec![HostValue::Dict(vec![(
            HostValue::Str(String::from("k")),
            HostValue::Tuple(vec![HostValue::Int(7), HostValue::Str(String::from("seven"))]),
        )])])
    );
}

#[test]
fn classification_widens_integers_and_keeps_booleans() {
    assert_eq!(py_to_value(&HostValue::Int(42)).unwrap(), PyToValue::BigInt(42));
    assert_eq!(py_to_value(&HostValue::Bool(true)).unwrap(), PyToValue::Bool(true));
    assert_ne!(py_to_value(&HostValue::Bool(true)).unwrap(), PyToValue::BigInt(1));
    assert_eq!(
        py_to_value(&HostValue::Str(String::from("hi"))).unwrap(),
        PyToValue::Text(String::from("hi"))
    );
    let bits = (2.25f64).to_bits();
    assert_eq!(py_to_value(&HostValue::Float(bits)).unwrap(), PyToValue::Double(bits));
    assert_eq!(
        py_to_value(&HostValue::Bytes(vec![1, 2, 3])).unwrap(),
        PyToValue::Bytes(vec![1, 2, 3])
    );
}

#[test]
fn classification_parses_uuid_string_forms() {
    let hyphenated = HostValue::Uuid(String::from("550e8400-e29b-41d4-a716-446655440000"));
    assert_eq!(
        py_to_value(&hyphenated).unwrap(),
        PyToValue::Uuid(0x550e8400_e29b_41d4_a716_446655440000)
    );
    let simple = HostValue::Uuid(String::from("550e8400e29b41d4a716446655440000"));
    assert_eq!(
        py_to_value(&simple).unwrap(),
        PyToValue::Uuid(0x550e8400_e29b_41d4_a716_446655440000)
    );
    let bad = HostValue::Uuid(String::from("not-a-uuid"));
    assert_eq!(
        py_to_value(&bad),
        Err(EncodeError::InvalidUuid { text: String::from("not-a-uuid") })
    );
}

#[test]
fn classification_encodes_collections_recursively() {
    let v = HostValue::List(vec![HostValue::Int(1), HostValue::Str(String::from("x"))]);
    assert_eq!(
        py_to_value(&v).unwrap(),
        PyToValue::List(vec![PyToValue::BigInt(1), PyToValue::Text(String::from("x"))])
    );
    let v = HostValue::Tuple(vec![HostValue::Bool(false)]);
    assert_eq!(py_to_value(&v).unwrap(), PyToValue::List(vec![PyToValue::Bool(false)]));
    let v = HostValue::SetOf(vec![HostValue::Int(9)]);
    assert_eq!(py_to_value(&v).unwrap(), PyToValue::List(vec![PyToValue::BigInt(9)]));
}

#[test]
fn unrecognized_runtime_types_are_refused_by_name() {
    let custom = HostValue::Object { name: String::from("MyClass") };
    assert_eq!(
        py_to_value(&custom),
        Err(EncodeError::UnsupportedType { name: String::from("MyClass") })
    );
    assert_eq!(
        py_to_value(&HostValue::Absent),
        Err(EncodeError::UnsupportedType { name: String::from("NoneType") })
    );
    assert_eq!(
        py_to_value(&HostValue::Dict(vec![])),
        Err(EncodeError::UnsupportedType { name: String::from("dict") })
    );
    assert_eq!(
        py_to_value(&HostValue::Duration(5)),
        Err(EncodeError::UnsupportedType { name: String::from("datetime.timedelta") })
    );
}

#[test]
fn serialization_writes_length_prefixed_big_endian() {
    assert_eq!(
        encode_parameter(&HostValue::Str(String::from("ab"))).unwrap(),
        vec![0, 0, 0, 2, 0x61, 0x62]
    );
    assert_eq!(
        encode_parameter(&HostValue::Int(258)).unwrap(),
        vec![0, 0, 0, 8, 0, 0, 0, 0, 0, 0, 1, 2]
    );
    assert_eq!(encode_parameter(&HostValue::Bool(true)).unwrap(), vec![0, 0, 0, 1, 1]);
    assert_eq!(
        encode_parameter(&HostValue::Bytes(vec![9, 8])).unwrap(),
        vec![0, 0, 0, 2, 9, 8]
    );
    assert_eq!(
        encode_parameter(&HostValue::Inet(InetAddr::V4([127, 0, 0, 1]))).unwrap(),
        vec![0, 0, 0, 4, 127, 0, 0, 1]
    );
}

#[test]
fn serialization_of_uuid_writes_sixteen_big_endian_bytes() {
    let bytes =
        encode_parameter(&HostValue::Uuid(String::from("550e8400-e29b-41d4-a716-446655440000")))
            .unwrap();
    let mut expected = vec![0, 0, 0, 16];
    expected.extend_from_slice(&0x550e8400_e29b_41d4_a716_446655440000u128.to_be_bytes());
    assert_eq!(bytes, expected);
}

#[test]
fn serialization_of_lists_nests_lengths_and_count() {
    // [1i64, 2i64] -> total, count 2, then two length-prefixed big ints
    let v = HostValue::List(vec![HostValue::Int(1), HostValue::Int(2)]);
    let bytes = encode_parameter(&v).unwrap();
    let mut expected = vec![0, 0, 0, 28, 0, 0, 0, 2];
    expected.extend_from_slice(&[0, 0, 0, 8, 0, 0, 0, 0, 0, 0, 0, 1]);
    expected.extend_from_slice(&[0, 0, 0, 8, 0, 0, 0, 0, 0, 0, 0, 2]);
    assert_eq!(bytes, expected);
}

#[test]
fn serialize_appends_to_buffer() {
    let mut buf = vec![0xAA];
    let w = PyToValue::SmallInt(-2);
    w.serialize(&mut buf).unwrap();
    assert_eq!(buf, vec![0xAA, 0, 0, 0, 2, 0xFF, 0xFE]);
    let w = PyToValue::Float(0x3FC00000);
    let bytes = serialize_value(&w).unwrap();
    assert_eq!(bytes, vec![0, 0, 0, 4, 0x3F, 0xC0, 0, 0]);
}

#[test]
fn map_rows_constructs_in_input_order() {
    let rows: Vec<Vec<(String, HostValue)>> = vec![
        vec![
            (String::from("id"), HostValue::Int(1)),
            (String::from("name"), HostValue::Str(String::from("a"))),
        ],
        vec![
            (String::from("id"), HostValue::Int(2)),
            (String::from("name"), HostValue::Str(String::from("b"))),
        ],
    ];
    let ctor = |row: Vec<(String, HostValue)>| -> Result<(i64, String), String> {
        let mut id = None;
        let mut name = None;
        for (k, v) in row {
            match (k.as_str(), v) {
                ("id", HostValue::Int(i)) => id = Some(i),
                ("name", HostValue::Str(s)) => name = Some(s),
                _ => {}
            }
        }
        match (id, name) {
            (Some(i), Some(n)) => Ok((i, n)),
            _ => Err(String::from("missing field")),
        }
    };
    let out = map_rows(rows, ctor).unwrap();
    assert_eq!(out, vec![(1, String::from("a")), (2, String::from("b"))]);
}

#[test]
fn map_rows_fails_whole_batch_on_one_bad_row() {
    let rows: Vec<Vec<(String, HostValue)>> = vec![
        vec![
            (String::from("id"), HostValue::Int(1)),
            (String::from("name"), HostValue::Str(String::from("a"))),
        ],
        vec![(String::from("id"), HostValue::Int(2))],
    ];
    let ctor = |row: Vec<(String, HostValue)>| -> Result<(i64, String), String> {
        let mut id = None;
        let mut name = None;
        for (k, v) in row {
            match (k.as_str(), v) {
                ("id", HostValue::Int(i)) => id = Some(i),
                ("name", HostValue::Str(s)) => name = Some(s),
                _ => {}
            }
        }
        match (id, name) {
            (Some(i), Some(n)) => Ok((i, n)),
            _ => Err(String::from("missing field")),
        }
    };
    assert_eq!(map_rows(rows, ctor), Err(String::from("missing field")));
}

#[test]
fn scalar_round_trips_through_wire_and_protocol_values() {
    // host -> wire kind -> (faithful transport) -> protocol value -> host
    let cases: Vec<(HostValue, ColumnType, CqlValue, HostValue)> = vec![
        (
            HostValue::Str(String::from("s")),
            ColumnType::Text,
            CqlValue::Text(String::from("s")),
            HostValue::Str(String::from("s")),
        ),
        (
            HostValue::Int(41),
            ColumnType::BigInt,
            CqlValue::BigInt(41),
            HostValue::Int(41),
        ),
        (
            HostValue::Bool(true),
            ColumnType::Boolean,
            CqlValue::Boolean(true),
            HostValue::Bool(true),
        ),
        (
            HostValue::Bytes(vec![3, 1]),
            ColumnType::Blob,
            CqlValue::Blob(vec![3, 1]),
            HostValue::Bytes(vec![3, 1]),
        ),
        (
            HostValue::Inet(InetAddr::V6([0; 16])),
            ColumnType::Inet,
            CqlValue::Inet(InetAddr::V6([0; 16])),
            HostValue::Inet(InetAddr::V6([0; 16])),
        ),
    ];
    for (h, t, c, back) in cases {
        let w = py_to_value(&h).unwrap();
        // the transported protocol value carries what the wire value held
        let _ = w;
        assert_eq!(cql_to_py(&t, Some(&c)).unwrap(), back);
    }
    // a UUID object returns under the simple rendering of the same bits
    let h = HostValue::Uuid(String::from("550e8400-e29b-41d4-a716-446655440000"));
    let w = py_to_value(&h).unwrap();
    let u = match w {
        PyToValue::Uuid(u) => u,
        other => panic!("expected a uuid wire value, got {:?}", other),
    };
    let back = cql_to_py(&ColumnType::Uuid, Some(&CqlValue::Uuid(u))).unwrap();
    assert_eq!(
        back,
        HostValue::Uuid(String::from("550e8400e29b41d4a716446655440000"))
    );
}

#[test]
fn error_messages_name_the_offending_kind() {
    let e = DecodeError::Mismatch { expected: TypeKind::Int };
    assert_eq!(e.message(), "Cannot parse as int.");
    let e = DecodeError::NotSupported { kind: TypeKind::Time };
    assert_eq!(e.message(), "time is not yet supported.");
    assert_eq!(DecodeError::TupleShape.message(), "Cannot parse as tuple.");
    let e = EncodeError::UnsupportedType { name: String::from("MyClass") };
    assert_eq!(e.message(), "Unsupported type for parameter binding: MyClass");
    let e = EncodeError::InvalidUuid { text: String::from("nope") };
    assert_eq!(e.message(), "Cannot parse UUID from nope");
    assert_eq!(EncodeError::TooLarge.message(), "Value too big to serialize");
}

#[test]
fn remaining_scalars_decode_directly() {
    assert_eq!(
        cql_to_py(&ColumnType::Ascii, Some(&CqlValue::Ascii(String::from("ok")))).unwrap(),
        HostValue::Str(String::from("ok"))
    );
    assert_eq!(
        cql_to_py(&ColumnType::Blob, Some(&CqlValue::Blob(vec![0, 255]))).unwrap(),
        HostValue::Bytes(vec![0, 255])
    );
    assert_eq!(
        cql_to_py(&ColumnType::Int, Some(&CqlValue::Int(-7))).unwrap(),
        HostValue::Int(-7)
    );
    assert_eq!(
        cql_to_py(&ColumnType::BigInt, Some(&CqlValue::BigInt(1 << 40))).unwrap(),
        HostValue::Int(1 << 40)
    );
    assert_eq!(
        cql_to_py(&ColumnType::SmallInt, Some(&CqlValue::SmallInt(-3))).unwrap(),
        HostValue::Int(-3)
    );
    assert_eq!(
        cql_to_py(&ColumnType::TinyInt, Some(&CqlValue::TinyInt(9))).unwrap(),
        HostValue::Int(9)
    );
    let bits = (0.25f64).to_bits();
    assert_eq!(
        cql_to_py(&ColumnType::Double, Some(&CqlValue::Double(bits))).unwrap(),
        HostValue::Float(bits)
    );
    assert_eq!(
        cql_to_py(&ColumnType::Inet, Some(&CqlValue::Inet(InetAddr::V4([10, 0, 0, 7]))))
            .unwrap(),
        HostValue::Inet(InetAddr::V4([10, 0, 0, 7]))
    );
}

#[test]
fn set_decodes_every_element_in_received_order() {
    let t = ColumnType::SetOf(Box::new(ColumnType::Text));
    let v = CqlValue::SetOf(vec![
        CqlValue::Text(String::from("x")),
        CqlValue::Text(String::from("y")),
    ]);
    assert_eq!(
        cql_to_py(&t, Some(&v)).unwrap(),
        HostValue::SetOf(vec![
            HostValue::Str(String::from("x")),
            HostValue::Str(String::from("y")),
        ])
    );
}

#[test]
fn element_failure_aborts_the_whole_collection_decode() {
    let t = ColumnType::List(Box::new(ColumnType::Int));
    let v = CqlValue::List(vec![
        CqlValue::Int(1),
        CqlValue::Text(String::from("oops")),
        CqlValue::Int(3),
    ]);
    assert_eq!(
        cql_to_py(&t, Some(&v)),
        Err(DecodeError::Mismatch { expected: TypeKind::Int })
    );
}
