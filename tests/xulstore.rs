use kvstore::{
    get_data, make_key, migration_writes, split_key, unwrap_value, update_profile_dir,
    StartupAction, StartupEvent, StartupPhase, StoredValue, TaskAction, TaskRunnable, XULStoreError,
    XULStoreNsResult, XulData, XulEntry, XulStoreState, NS_ERROR_FAILURE, NS_ERROR_NOT_AVAILABLE,
    NS_ERROR_UNEXPECTED, NS_OK, SEPARATOR,
};

fn entry(doc: &str, id: &str, attr: &str, value: &str) -> XulEntry {
    XulEntry {
        doc: doc.as_bytes().to_vec(),
        id: id.as_bytes().to_vec(),
        attr: attr.as_bytes().to_vec(),
        value: value.to_string(),
    }
}

fn stored(key: &[u8], value: &str) -> (Vec<u8>, Option<StoredValue>) {
    (key.to_vec(), Some(StoredValue::Str(value.to_string())))
}

#[test]
fn composite_key_joins_with_tabs() {
    assert_eq!(SEPARATOR, b'\t');
    assert_eq!(make_key(b"doc1", b"el1", b"attr1"), b"doc1\tel1\tattr1".to_vec());
    assert_eq!(make_key(b"", b"", b""), b"\t\t".to_vec());
}

#[test]
fn composite_key_splits_back() {
    let key = make_key(b"doc1", b"el1", b"attr1");
    let (a, b, c) = split_key(&key).unwrap();
    assert_eq!(a, b"doc1".to_vec());
    assert_eq!(b, b"el1".to_vec());
    assert_eq!(c, b"attr1".to_vec());
    let (a, b, c) = split_key(b"\t\t").unwrap();
    assert!(a.is_empty() && b.is_empty() && c.is_empty());
}

#[test]
fn composite_key_with_wrong_part_count_fails() {
    assert_eq!(split_key(b"noseparator"), Err(XULStoreError::KeyDecode));
    assert_eq!(split_key(b"a\tb"), Err(XULStoreError::KeyDecode));
    assert_eq!(split_key(b"a\tb\tc\td"), Err(XULStoreError::KeyDecode));
}

#[test]
fn cache_set_get_remove() {
    let mut data = XulData::new();
    data.set_value(b"doc1", b"el1", b"attr1", "v".to_string());
    assert_eq!(data.get_value(b"doc1", b"el1", b"attr1"), "v");
    assert_eq!(data.get_value(b"doc1", b"el1", b"missing"), "");
    assert!(data.has_value(b"doc1", b"el1", b"attr1"));
    data.set_value(b"doc1", b"el1", b"attr1", "w".to_string());
    assert_eq!(data.get_value(b"doc1", b"el1", b"attr1"), "w");
    data.remove_value(b"doc1", b"el1", b"attr1");
    assert!(!data.has_value(b"doc1", b"el1", b"attr1"));
    assert_eq!(data.get_value(b"doc1", b"el1", b"attr1"), "");
    data.remove_value(b"doc1", b"el1", b"attr1");
}

#[test]
fn unwrap_value_shapes() {
    assert_eq!(unwrap_value(&None).unwrap(), "");
    assert_eq!(unwrap_value(&Some(StoredValue::Str("x".to_string()))).unwrap(), "x");
    assert_eq!(unwrap_value(&Some(StoredValue::I64(1))), Err(XULStoreError::UnexpectedValue));
}

#[test]
fn snapshot_from_scan() {
    let scan = vec![
        stored(b"d\te\ta", "v"),
        stored(b"d\te\tb", "w"),
        stored(b"d2\te\ta", "x"),
    ];
    let data = get_data(&scan).unwrap();
    assert_eq!(data.get_value(b"d", b"e", b"a"), "v");
    assert_eq!(data.get_value(b"d", b"e", b"b"), "w");
    assert_eq!(data.get_value(b"d2", b"e", b"a"), "x");
    assert_eq!(data.get_value(b"d2", b"e", b"b"), "");
}

#[test]
fn snapshot_keeps_first_entry_for_a_key() {
    let scan = vec![stored(b"d\te\ta", "first"), stored(b"d\te\ta", "second")];
    let data = get_data(&scan).unwrap();
    assert_eq!(data.get_value(b"d", b"e", b"a"), "first");
}

#[test]
fn snapshot_errors() {
    let bad_key = vec![stored(b"d\te\ta", "v"), stored(b"d\te", "w")];
    assert_eq!(get_data(&bad_key).err(), Some(XULStoreError::KeyDecode));
    let bad_value = vec![(b"d\te\ta".to_vec(), Some(StoredValue::Bool(true)))];
    assert_eq!(get_data(&bad_value).err(), Some(XULStoreError::UnexpectedValue));
}

#[test]
fn migration_then_read() {
    // The legacy file {"d":{"e":{"a":"v"}}}, flattened.
    let legacy = vec![entry("d", "e", "a", "v")];
    let writes = migration_writes(&legacy);
    assert_eq!(writes.len(), 1);
    assert_eq!(writes[0].0, b"d\te\ta".to_vec());
    assert_eq!(writes[0].1, "v");
    let scan: Vec<(Vec<u8>, Option<StoredValue>)> = writes
        .into_iter()
        .map(|(k, v)| (k, Some(StoredValue::Str(v))))
        .collect();
    let data = get_data(&scan).unwrap();
    assert_eq!(data.get_value(b"d", b"e", b"a"), "v");
}

#[test]
fn task_runs_once_and_delivers_once() {
    let mut task: TaskRunnable<u32> = TaskRunnable::new("KVStore".to_string());
    assert_eq!(task.get_name(), "KVStore");
    assert!(matches!(task.run(), TaskAction::RunWork));
    assert!(matches!(task.complete(7), TaskAction::DispatchToSource));
    assert!(matches!(task.complete(8), TaskAction::Nothing));
    assert!(matches!(task.run(), TaskAction::Deliver(7)));
    assert!(matches!(task.run(), TaskAction::Nothing));
    assert!(matches!(task.complete(9), TaskAction::Nothing));
}

#[test]
fn tasks_deliver_in_submission_order() {
    let mut tasks: Vec<TaskRunnable<usize>> =
        (0..3).map(|i| TaskRunnable::new(format!("task{}", i))).collect();
    let mut delivered = Vec::new();
    for (i, t) in tasks.iter_mut().enumerate() {
        assert!(matches!(t.run(), TaskAction::RunWork));
        assert!(matches!(t.complete(i * 10), TaskAction::DispatchToSource));
    }
    for t in tasks.iter_mut() {
        if let TaskAction::Deliver(r) = t.run() {
            delivered.push(r);
        }
    }
    assert_eq!(delivered, vec![0, 10, 20]);
}

#[test]
fn startup_full_sequence() {
    let mut state = XulStoreState::new();
    assert_eq!(state.get_value(b"d", b"e", b"a").err(), Some(XULStoreError::Unavailable));
    assert!(matches!(
        update_profile_dir(&mut state, StartupEvent::ProfileChanged),
        StartupAction::ResolveProfileDir
    ));
    match update_profile_dir(&mut state, StartupEvent::ProfileDir(Some("/p".to_string()))) {
        StartupAction::OpenEnvironment(dir) => assert_eq!(dir, "/p"),
        _ => panic!("expected OpenEnvironment"),
    }
    assert!(matches!(
        update_profile_dir(&mut state, StartupEvent::EnvironmentOpened(true)),
        StartupAction::OpenStore
    ));
    match update_profile_dir(&mut state, StartupEvent::StoreOpened(true)) {
        StartupAction::Migrate(dir) => assert_eq!(dir, "/p"),
        _ => panic!("expected Migrate"),
    }
    assert!(matches!(
        update_profile_dir(&mut state, StartupEvent::Migrated),
        StartupAction::ScanStore
    ));
    let scan = vec![stored(b"d\te\ta", "v")];
    assert!(matches!(
        update_profile_dir(&mut state, StartupEvent::Scanned(Some(scan))),
        StartupAction::Nothing
    ));
    assert_eq!(state.phase, StartupPhase::Idle);
    assert!(state.has_environment && state.has_store);
    assert_eq!(state.get_value(b"d", b"e", b"a").unwrap(), "v");
}

#[test]
fn startup_without_profile_dir_is_unavailable() {
    let mut state = XulStoreState::new();
    update_profile_dir(&mut state, StartupEvent::ProfileChanged);
    assert!(matches!(
        update_profile_dir(&mut state, StartupEvent::ProfileDir(None)),
        StartupAction::Nothing
    ));
    assert_eq!(state.phase, StartupPhase::Idle);
    assert!(!state.has_environment && !state.has_store);
    assert_eq!(state.get_value(b"d", b"e", b"a").err(), Some(XULStoreError::Unavailable));
}

#[test]
fn startup_ignores_out_of_turn_reports() {
    let mut state = XulStoreState::new();
    assert!(matches!(
        update_profile_dir(&mut state, StartupEvent::StoreOpened(true)),
        StartupAction::Nothing
    ));
    assert_eq!(state.phase, StartupPhase::Idle);
    assert!(!state.has_store);
    update_profile_dir(&mut state, StartupEvent::ProfileChanged);
    update_profile_dir(&mut state, StartupEvent::ProfileDir(Some("/p".to_string())));
    assert!(matches!(
        update_profile_dir(&mut state, StartupEvent::EnvironmentOpened(false)),
        StartupAction::Nothing
    ));
    assert!(!state.has_environment);
}

#[test]
fn error_codes() {
    assert_eq!(XULStoreError::Unavailable.nsresult(), NS_ERROR_NOT_AVAILABLE);
    assert_eq!(XULStoreError::PoisonError.nsresult(), NS_ERROR_UNEXPECTED);
    assert_eq!(XULStoreError::IoError.nsresult(), NS_ERROR_FAILURE);
    assert_eq!(XULStoreError::Nsresult(0x8052_0012).nsresult(), 0x8052_0012);
    let ok: Result<(), XULStoreError> = Ok(());
    assert_eq!(XULStoreNsResult::from_result(&ok), XULStoreNsResult(NS_OK));
    let err: Result<(), XULStoreError> = Err(XULStoreError::KeyDecode);
    assert_eq!(XULStoreNsResult::from_result(&err), XULStoreNsResult(NS_ERROR_UNEXPECTED));
}

#[test]
fn cache_lists_attrs_and_ids() {
    let mut data = XulData::new();
    data.set_value(b"doc", b"el1", b"width", "10".to_string());
    data.set_value(b"doc", b"el1", b"height", "20".to_string());
    data.set_value(b"doc", b"el2", b"width", "30".to_string());
    data.set_value(b"other", b"el3", b"width", "40".to_string());
    let mut attrs = data.get_attrs(b"doc", b"el1");
    attrs.sort();
    assert_eq!(attrs, vec![b"height".to_vec(), b"width".to_vec()]);
    let mut ids = data.get_ids(b"doc");
    ids.sort();
    assert_eq!(ids, vec![b"el1".to_vec(), b"el2".to_vec()]);
    assert!(data.get_ids(b"none").is_empty());
    assert!(data.get_attrs(b"doc", b"el3").is_empty());
}

#[test]
fn state_write_through_helpers() {
    let mut state = XulStoreState::new();
    assert_eq!(state.key_for_write(b"d", b"e", b"a"), Err(XULStoreError::Unavailable));
    assert_eq!(state.has_value(b"d", b"e", b"a"), Err(XULStoreError::Unavailable));
    update_profile_dir(&mut state, StartupEvent::ProfileChanged);
    update_profile_dir(&mut state, StartupEvent::ProfileDir(Some("/p".to_string())));
    update_profile_dir(&mut state, StartupEvent::EnvironmentOpened(true));
    update_profile_dir(&mut state, StartupEvent::StoreOpened(true));
    update_profile_dir(&mut state, StartupEvent::Migrated);
    update_profile_dir(&mut state, StartupEvent::Scanned(Some(Vec::new())));
    assert_eq!(state.key_for_write(b"d", b"e", b"a").unwrap(), b"d\te\ta".to_vec());
    assert_eq!(state.has_value(b"d", b"e", b"a"), Ok(false));
    state.record_set(b"d", b"e", b"a", "v".to_string());
    assert_eq!(state.get_value(b"d", b"e", b"a").unwrap(), "v");
    assert_eq!(state.has_value(b"d", b"e", b"a"), Ok(true));
    state.record_remove(b"d", b"e", b"a");
    assert_eq!(state.get_value(b"d", b"e", b"a").unwrap(), "");
}

#[test]
fn startup_with_unreadable_scan_has_no_snapshot() {
    let mut state = XulStoreState::new();
    update_profile_dir(&mut state, StartupEvent::ProfileChanged);
    update_profile_dir(&mut state, StartupEvent::ProfileDir(Some("/p".to_string())));
    update_profile_dir(&mut state, StartupEvent::EnvironmentOpened(true));
    update_profile_dir(&mut state, StartupEvent::StoreOpened(true));
    update_profile_dir(&mut state, StartupEvent::Migrated);
    let scan = vec![stored(b"no-separators", "v")];
    update_profile_dir(&mut state, StartupEvent::Scanned(Some(scan)));
    assert!(state.has_store);
    assert_eq!(state.get_value(b"d", b"e", b"a").err(), Some(XULStoreError::Unavailable));
}

#[test]
fn snapshot_refuses_keys_that_are_not_utf8() {
    let scan = vec![(vec![b'd', 0xff, b'\t', b'e', b'\t', b'a'], Some(StoredValue::I64(1)))];
    assert_eq!(get_data(&scan).err(), Some(XULStoreError::ConvertBytes));
    let ok = vec![stored("dé\te\ta".as_bytes(), "v")];
    assert_eq!(get_data(&ok).unwrap().get_value("dé".as_bytes(), b"e", b"a"), "v");
}
