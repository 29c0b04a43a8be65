use mongoac::client::{
    build_driver_info, captures_command_events, count_command_events, driver_metadata,
    metadata_from_views, optional_text, strings_to_bson, CommandEventLogT,
};
use mongoac::client_options::{
    mongoac_client_options_new, mongoac_client_options_set_capture_command_events,
    mongoac_client_options_set_driver_info,
};
use mongoac::error::ErrorCodeT;
use mongoac::string::StringViewT;

#[test]
fn library_metadata_names_the_library() {
    let info = build_driver_info("1.0.0", "linux");
    assert_eq!(info.name, "mongoac");
    assert_eq!(info.version.as_deref(), Some("1.0.0"));
    assert_eq!(info.platform.as_deref(), Some("linux"));
}

#[test]
fn library_metadata_comes_before_the_callers() {
    let mut o = mongoac_client_options_new();
    assert_eq!(driver_metadata(Some(&o), "1.0.0", "linux").len(), 1);
    assert_eq!(driver_metadata(None, "1.0.0", "linux").len(), 1);
    mongoac_client_options_set_driver_info(&mut o, "app", Some("2"), Some("x"));
    let infos = driver_metadata(Some(&o), "1.0.0", "linux");
    assert_eq!(infos.len(), 2);
    assert_eq!(infos[0].name, "mongoac");
    assert_eq!(infos[1].name, "app");
    assert_eq!(infos[1].version.as_deref(), Some("2"));
}

#[test]
fn only_requested_command_events_are_recorded() {
    let mut o = mongoac_client_options_new();
    assert!(!captures_command_events(None));
    assert!(!captures_command_events(Some(&o)));
    mongoac_client_options_set_capture_command_events(&mut o, true);
    assert!(captures_command_events(Some(&o)));
}

#[test]
fn appended_metadata_from_views() {
    let info = metadata_from_views(&StringViewT::default(), &StringViewT::from_str("3"), &StringViewT::default()).unwrap();
    assert_eq!(info.name, "");
    assert_eq!(info.version.as_deref(), Some("3"));
    assert!(info.platform.is_none());
    let bad = StringViewT { data: Some(vec![0xff]) };
    let e = metadata_from_views(&StringViewT::from_str("n"), &bad, &StringViewT::default()).unwrap_err();
    assert_eq!(e.code(), ErrorCodeT::InvalidArgument);
    assert!(matches!(optional_text(&StringViewT::default()), Ok(None)));
}

#[test]
fn names_become_a_bson_array() {
    let raw = strings_to_bson(&["a".to_string(), "bc".to_string()]).unwrap();
    let expected: Vec<u8> = vec![
        24, 0, 0, 0, 2, b'0', 0, 2, 0, 0, 0, b'a', 0, 2, b'1', 0, 3, 0, 0, 0, b'b', b'c', 0, 0,
    ];
    assert_eq!(raw.as_bytes(), &expected[..]);
    let empty = strings_to_bson(&[]).unwrap();
    assert_eq!(empty.as_bytes(), &[5u8, 0, 0, 0, 0][..]);
}

#[test]
fn eleven_names_use_two_digit_keys() {
    let names: Vec<String> = (0..11).map(|i| format!("n{i}")).collect();
    let raw = strings_to_bson(&names).unwrap();
    let doc = mongodb::bson::Document::from_reader(raw.as_bytes()).unwrap();
    let keys: Vec<&String> = doc.keys().collect();
    assert_eq!(keys.len(), 11);
    assert_eq!(keys[10], "10");
    assert_eq!(doc.get_str("10").unwrap(), "n10");
}

#[test]
fn an_empty_event_log() {
    let mut log = CommandEventLogT::new();
    assert_eq!(log.count(), 0);
    assert!(log.get(0).is_none());
    log.clear(3);
    assert_eq!(log.count(), 0);
    assert_eq!(count_command_events(Some(&log)), 0);
    assert_eq!(count_command_events(None), 0);
}

#[test]
fn a_client_without_capture_has_no_event_log() {
    assert!(mongoac::client::new_command_log(None).is_none());
    let mut o = mongoac_client_options_new();
    mongoac_client_options_set_capture_command_events(&mut o, false);
    let log = mongoac::client::new_command_log(Some(&o));
    assert!(log.is_none());
    assert_eq!(count_command_events(log.as_ref()), 0);
    assert!(mongoac::client::command_event_at(log.as_ref(), 0).is_none());
    mongoac_client_options_set_capture_command_events(&mut o, true);
    let log = mongoac::client::new_command_log(Some(&o)).unwrap();
    assert_eq!(log.count(), 0);
    assert!(mongoac::client::command_event_at(Some(&log), 0).is_none());
}

#[test]
fn names_become_a_string_array() {
    let raw = strings_to_bson(&["admin".to_string(), "local".to_string()]).unwrap();
    let mut expected = mongodb::bson::Document::new();
    expected.insert("0", "admin");
    expected.insert("1", "local");
    let expected = mongodb::bson::RawDocumentBuf::try_from(&expected).unwrap();
    assert_eq!(raw.as_bytes(), expected.as_bytes());
    assert_eq!(strings_to_bson(&[]).unwrap().as_bytes(), &[5u8, 0, 0, 0, 0][..]);
}
