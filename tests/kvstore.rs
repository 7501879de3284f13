use kvstore::{
    delete, enumerate, get, into_variant, get_bool, get_double, get_int, get_string, has, key_le_exec,
    value_for_put, value_to_owned, DeleteOutcome, InitKeyValueService, KeyValueError,
    KeyValuePair, OwnedValue, SimpleEnumerator, StoredValue, Variant,
};

fn cursor(entries: &[(&str, i64)]) -> Vec<(Vec<u8>, Result<StoredValue, KeyValueError>)> {
    entries
        .iter()
        .map(|(k, v)| (k.as_bytes().to_vec(), Ok(StoredValue::I64(*v))))
        .collect()
}

fn keys_and_ints(mut e: SimpleEnumerator) -> Vec<(String, i64)> {
    let mut out = Vec::new();
    while e.has_more_elements() {
        let pair: KeyValuePair = e.get_next().unwrap();
        let key = String::from_utf8(pair.get_key()).unwrap();
        match pair.get_value() {
            Variant::Int64(n) => out.push((key, n)),
            other => panic!("unexpected value {:?}", other),
        }
    }
    out
}

#[test]
fn put_widens_int32_and_reads_back_as_int64() {
    let stored = value_for_put(&Variant::Int32(-7)).unwrap();
    assert_eq!(stored, OwnedValue::I64(-7));
    let raw = stored.to_stored();
    assert!(matches!(get(Some(raw), &Variant::Empty), Ok(Variant::Int64(-7))));
}

#[test]
fn round_trip_every_shape() {
    let shapes = vec![
        Variant::Int32(42),
        Variant::Double(2.5f64.to_bits()),
        Variant::Bool(true),
        Variant::WString("hello".to_string()),
    ];
    let expected = vec![
        Variant::Int64(42),
        Variant::Double(2.5f64.to_bits()),
        Variant::Bool(true),
        Variant::WString("hello".to_string()),
    ];
    for (v, want) in shapes.iter().zip(expected.iter()) {
        let owned = value_for_put(v).unwrap();
        let back = value_to_owned(&owned.to_stored()).unwrap();
        assert_eq!(back, owned);
        assert_eq!(get(Some(owned.to_stored()), &Variant::Empty).unwrap(), *want);
    }
    assert_eq!(get_int(Some(StoredValue::I64(42)), 0), Ok(42));
    assert_eq!(
        f64::from_bits(get_double(Some(StoredValue::F64(2.5f64.to_bits())), 0).unwrap()),
        2.5
    );
    assert_eq!(get_bool(Some(StoredValue::Bool(true)), false), Ok(true));
    assert_eq!(
        get_string(Some(StoredValue::Str("hello".to_string())), String::new()).unwrap(),
        "hello"
    );
}

#[test]
fn put_refuses_unsupported_types() {
    assert!(matches!(value_for_put(&Variant::Empty), Err(KeyValueError::UnsupportedType(255))));
    assert!(matches!(value_for_put(&Variant::Int64(1)), Err(KeyValueError::UnsupportedType(3))));
    assert!(matches!(value_for_put(&Variant::Other(7)), Err(KeyValueError::UnsupportedType(7))));
    assert_eq!(Variant::WString(String::new()).data_type(), 21);
    assert_eq!(Variant::Double(0).data_type(), 9);
}

#[test]
fn default_on_miss() {
    assert_eq!(get_int(None, 17), Ok(17));
    assert_eq!(get_double(None, 1.5f64.to_bits()), Ok(1.5f64.to_bits()));
    assert_eq!(get_bool(None, true), Ok(true));
    assert_eq!(get_string(None, "dflt".to_string()).unwrap(), "dflt");
    assert_eq!(get(None, &Variant::Int32(3)).unwrap(), Variant::Int32(3));
    assert_eq!(get(None, &Variant::Empty).unwrap(), Variant::Empty);
    assert!(matches!(get(None, &Variant::Other(40)), Err(KeyValueError::UnsupportedType(40))));
    assert!(!has(&None));
    assert!(has(&Some(StoredValue::Bool(false))));
}

#[test]
fn type_mismatch_fails() {
    let s = || Some(StoredValue::Str("x".to_string()));
    assert_eq!(get_int(s(), 0), Err(KeyValueError::UnexpectedType));
    assert_eq!(get_double(s(), 0), Err(KeyValueError::UnexpectedType));
    assert_eq!(get_bool(Some(StoredValue::I64(1)), false), Err(KeyValueError::UnexpectedType));
    assert!(get_string(Some(StoredValue::Bool(true)), String::new()).is_err());
    assert!(matches!(get(Some(StoredValue::Other(6)), &Variant::Empty), Err(KeyValueError::UnexpectedType)));
    assert!(value_to_owned(&StoredValue::Other(6)).is_err());
}

#[test]
fn delete_absent_key_succeeds_twice() {
    assert_eq!(delete(DeleteOutcome::Deleted), Ok(()));
    assert_eq!(delete(DeleteOutcome::NotFound), Ok(()));
    assert_eq!(delete(DeleteOutcome::NotFound), Ok(()));
    assert_eq!(delete(DeleteOutcome::Failed), Err(KeyValueError::Store));
}

#[test]
fn enumerate_bounded_range() {
    // The engine's cursor, positioned at "b".
    let c = cursor(&[("b", 2), ("c", 3), ("d", 4)]);
    let got = keys_and_ints(enumerate(&c, b"c"));
    assert_eq!(got, vec![("b".to_string(), 2), ("c".to_string(), 3)]);
}

#[test]
fn enumerate_unbounded_and_empty_ranges() {
    let c = cursor(&[("a", 1), ("b", 2), ("c", 3), ("d", 4)]);
    let got = keys_and_ints(enumerate(&c, b""));
    assert_eq!(got.len(), 4);
    assert_eq!(got[0], ("a".to_string(), 1));
    assert_eq!(got[3], ("d".to_string(), 4));
    // A cursor positioned at "z" holds nothing.
    let none = enumerate(&Vec::new(), b"");
    assert!(!none.has_more_elements());
}

#[test]
fn enumerate_upper_bound_is_inclusive_and_bytewise() {
    let c = cursor(&[("ab", 1), ("abc", 2), ("b", 3)]);
    let got = keys_and_ints(enumerate(&c, b"abc"));
    assert_eq!(got.len(), 2);
    assert!(key_le_exec(b"ab", b"abc"));
    assert!(!key_le_exec(b"abc", b"ab"));
    assert!(key_le_exec(b"", b""));
    assert!(!key_le_exec(b"b", b"a"));
}

#[test]
fn enumerator_defers_value_errors() {
    let c = vec![
        (b"a".to_vec(), Ok(StoredValue::Other(9))),
        (b"b".to_vec(), Err(KeyValueError::Store)),
        (b"c".to_vec(), Ok(StoredValue::Bool(true))),
    ];
    let mut e = enumerate(&c, b"");
    assert!(e.has_more_elements());
    assert!(matches!(e.get_next(), Err(KeyValueError::UnexpectedType)));
    assert!(matches!(e.get_next(), Err(KeyValueError::Store)));
    let pair = e.get_next().unwrap();
    assert_eq!(pair.get_key(), b"c".to_vec());
    assert_eq!(pair.get_value(), Variant::Bool(true));
    assert!(!e.has_more_elements());
    assert!(matches!(e.get_next(), Err(KeyValueError::NoMoreElements)));
}

#[test]
fn service_selects_default_store_for_empty_name() {
    let service = InitKeyValueService::new();
    assert_eq!(service.store_name(String::new()), None);
    assert_eq!(service.store_name("prefs".to_string()), Some("prefs".to_string()));
}

#[test]
fn defaults_must_have_a_supported_type() {
    assert_eq!(into_variant(&Variant::Int32(1)).unwrap(), Variant::Int32(1));
    assert_eq!(into_variant(&Variant::Bool(false)).unwrap(), Variant::Bool(false));
    assert_eq!(
        into_variant(&Variant::WString("s".to_string())).unwrap(),
        Variant::WString("s".to_string())
    );
    assert_eq!(into_variant(&Variant::Empty).unwrap(), Variant::Empty);
    assert!(matches!(into_variant(&Variant::Int64(1)), Err(KeyValueError::UnsupportedType(3))));
    assert!(matches!(get(None, &Variant::Int64(1)), Err(KeyValueError::UnsupportedType(3))));
}
