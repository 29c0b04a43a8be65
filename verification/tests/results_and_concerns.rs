use mongoac::bson::BsonViewT;
use mongoac::client::specs_to_bson_array;
use mongoac::collection::{distinct_result_to_raw, insert_many_result_to_raw, inserted_ids_document};
use mongoac::cursor_type::CursorTypeT;
use mongoac::read_concern::{
    mongoac_read_concern_new, mongoac_read_concern_set_level_snapshot,
    mongoac_read_concern_set_level_string, ReadConcernLevelT,
};
use mongoac::server_api::{mongoac_server_api_new, mongoac_server_api_set_strict};
use mongoac::server_info::{
    mongoac_server_info_get_host, mongoac_server_info_get_port, mongoac_server_info_get_type,
    mongoac_server_info_get_average_round_trip_time_nanos, mongoac_server_info_get_tags,
    mongoac_server_info_average_round_trip_time_has_value, server_type_from_driver,
    ServerAddressT, ServerInfoT, ServerTypeT,
};
use mongoac::write_concern::{
    mongoac_write_concern_new, mongoac_write_concern_set_journal, mongoac_write_concern_set_w_custom,
    mongoac_write_concern_set_w_majority, AcknowledgmentT,
};
use mongodb::bson::{Bson, Document};

#[test]
fn inserted_ids_are_keyed_by_index() {
    let ids = vec![(2usize, Bson::Int32(20)), (0, Bson::Int32(0)), (11, Bson::String("x".into()))];
    let d = inserted_ids_document(&ids);
    let keys: Vec<&String> = d.keys().collect();
    assert_eq!(keys, vec!["2", "0", "11"]);
    assert_eq!(d.get_i32("2").unwrap(), 20);
    let raw = insert_many_result_to_raw(&ids).unwrap();
    let outer = Document::from_reader(raw.as_bytes()).unwrap();
    assert_eq!(outer.keys().collect::<Vec<_>>(), vec!["insertedIds"]);
    assert_eq!(outer.get_document("insertedIds").unwrap().get_str("11").unwrap(), "x");
}

#[test]
fn repeated_indices_keep_their_first_place() {
    let ids = vec![(1usize, Bson::Int32(1)), (1, Bson::Int32(2))];
    let d = inserted_ids_document(&ids);
    assert_eq!(d.len(), 1);
    assert_eq!(d.get_i32("1").unwrap(), 2);
}

#[test]
fn distinct_values_under_v() {
    let raw = distinct_result_to_raw(vec![Bson::Int32(1), Bson::String("a".into())]).unwrap();
    let d = Document::from_reader(raw.as_bytes()).unwrap();
    assert_eq!(d.keys().collect::<Vec<_>>(), vec!["v"]);
    assert_eq!(d.get_array("v").unwrap().len(), 2);
}

#[test]
fn database_descriptions_become_an_array() {
    let mut a = Document::new();
    a.insert("name", "admin");
    a.insert("sizeOnDisk", 8192i64);
    a.insert("empty", false);
    let spec: mongodb::results::DatabaseSpecification = mongodb::bson::deserialize_from_document(a).unwrap();
    let raw = specs_to_bson_array(&[spec]).unwrap();
    let d = Document::from_reader(raw.as_bytes()).unwrap();
    assert_eq!(d.get_document("0").unwrap().get_str("name").unwrap(), "admin");
}

#[test]
fn read_concern_levels() {
    let mut rc = mongoac_read_concern_new();
    mongoac_read_concern_set_level_snapshot(&mut rc);
    assert!(matches!(rc.level, ReadConcernLevelT::Snapshot));
    mongoac_read_concern_set_level_string(&mut rc, "majority");
    assert!(matches!(rc.level, ReadConcernLevelT::Majority));
    mongoac_read_concern_set_level_string(&mut rc, "eventual");
    assert!(matches!(&rc.level, ReadConcernLevelT::Custom(s) if s == "eventual"));
}

#[test]
fn write_concern_settings() {
    let mut wc = mongoac_write_concern_new();
    assert!(wc.w.is_none());
    mongoac_write_concern_set_w_majority(&mut wc);
    assert!(matches!(wc.w, Some(AcknowledgmentT::Majority)));
    mongoac_write_concern_set_w_custom(&mut wc, "dcs");
    assert!(matches!(&wc.w, Some(AcknowledgmentT::Custom(s)) if s == "dcs"));
    mongoac_write_concern_set_journal(&mut wc, true);
    assert_eq!(wc.journal, Some(true));
}

#[test]
fn server_api_flags() {
    let mut api = mongoac_server_api_new();
    mongoac_server_api_set_strict(&mut api, true);
    assert_eq!(api.strict, Some(true));
    assert!(api.deprecation_errors.is_none());
}

#[test]
fn cursor_types() {
    assert_eq!(CursorTypeT::from(1), CursorTypeT::Tailable);
    assert_eq!(CursorTypeT::from(-4).effective(), CursorTypeT::NonTailable);
    assert!(matches!(CursorTypeT::Tailable.to_driver(), mongodb::options::CursorType::Tailable));
    assert!(matches!(CursorTypeT::from(50).to_driver(), mongodb::options::CursorType::NonTailable));
    for v in [-1, 0, 1, 2, 3] {
        assert_eq!(i32::from(CursorTypeT::from(v)), v);
    }
}

#[test]
fn server_descriptions() {
    let info = ServerInfoT {
        server_type: server_type_from_driver(mongodb::ServerType::RsSecondary),
        address: ServerAddressT::Tcp { host: "db.example".to_string(), port: None },
        average_round_trip_time: Some((1, 500)),
        last_update_time_ms: None,
        max_wire_version: Some(21),
        min_wire_version: None,
        replica_set_name: Some("rs0".to_string()),
        replica_set_version: None,
        tags: Some(vec![5, 0, 0, 0, 0]),
        has_error: false,
    };
    assert_eq!(info.server_type, ServerTypeT::RsSecondary);
    assert_eq!(mongoac_server_info_get_type(&info), 4);
    assert_eq!(mongoac_server_info_get_port(&info), 27017);
    assert_eq!(mongoac_server_info_get_host(&info).to_string_checked().unwrap(), "db.example");
    assert!(mongoac_server_info_average_round_trip_time_has_value(&info));
    assert_eq!(mongoac_server_info_get_average_round_trip_time_nanos(&info), 500);
    assert_eq!(mongoac_server_info_get_tags(&info).as_bytes(), &[5u8, 0, 0, 0, 0][..]);
    let unix = ServerInfoT { address: ServerAddressT::Unix { path: b"/tmp/s".to_vec() }, ..info };
    assert_eq!(mongoac_server_info_get_port(&unix), 0);
    let _ = BsonViewT::default();
}

#[test]
fn driver_server_types_keep_their_names() {
    assert_eq!(server_type_from_driver(mongodb::ServerType::Mongos), ServerTypeT::Mongos);
    assert_eq!(server_type_from_driver(mongodb::ServerType::Standalone), ServerTypeT::Standalone);
    assert_eq!(server_type_from_driver(mongodb::ServerType::Unknown), ServerTypeT::Unknown);
}

#[test]
fn a_database_size_beyond_i64_is_refused() {
    let mut a = Document::new();
    a.insert("name", "big");
    a.insert("sizeOnDisk", 1i64);
    a.insert("empty", false);
    let mut spec: mongodb::results::DatabaseSpecification = mongodb::bson::deserialize_from_document(a).unwrap();
    spec.size_on_disk = u64::MAX;
    let e = specs_to_bson_array(&[spec]).unwrap_err();
    assert_eq!(e.category(), mongoac::error::ErrorCategoryT::Bson);
}

#[test]
fn write_results_become_documents() {
    let mut del = mongodb::results::DeleteResult::default();
    del.deleted_count = 3;
    let raw = mongoac::collection::delete_result_to_raw(&del).unwrap();
    let d = Document::from_reader(raw.as_bytes()).unwrap();
    assert_eq!(d.get_i64("deletedCount").unwrap(), 3);
    del.deleted_count = u64::MAX;
    assert!(mongoac::collection::delete_result_to_raw(&del).is_err());
    let mut upd = mongodb::results::UpdateResult::default();
    upd.matched_count = 2;
    upd.modified_count = 1;
    let d = Document::from_reader(mongoac::collection::update_result_to_raw(&upd).unwrap().as_bytes()).unwrap();
    assert_eq!(d.get_i64("matchedCount").unwrap(), 2);
    assert_eq!(d.get_i64("modifiedCount").unwrap(), 1);
    let mut ins = mongodb::results::InsertOneResult::default();
    ins.inserted_id = Bson::Int32(7);
    let d = Document::from_reader(mongoac::collection::insert_one_result_to_raw(&ins).unwrap().as_bytes()).unwrap();
    assert_eq!(d.get_i32("insertedId").unwrap(), 7);
}
