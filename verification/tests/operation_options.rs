use mongoac::aggregate_options::{mongoac_aggregate_options_new, mongoac_aggregate_options_set_allow_disk_use, mongoac_aggregate_options_set_batch_size, mongoac_aggregate_options_set_comment, mongoac_aggregate_options_set_hint, mongoac_aggregate_options_set_let, mongoac_aggregate_options_set_max_time_ms};
use mongoac::bson::BsonViewT;
use mongoac::collection_options::{CollectionOptionsT, mongoac_collection_options_new, mongoac_collection_options_set_read_preference, mongoac_collection_options_set_server_selector};
use mongoac::cursor_type::CursorTypeT;
use mongoac::error::{ErrorCategoryT, ErrorCodeT};
use mongoac::find_options::mongoac_find_options_new_from_bson;
use mongoac::insert_one_options::{mongoac_insert_one_options_new, mongoac_insert_one_options_set_comment};
use mongoac::private::bson::{bson_t, ConstBsonT};
use mongoac::read_preference::{mongoac_read_preference_new, SelectionCriteriaT};
use mongoac::run_cursor_command_options::{RunCursorCommandOptionsT, mongoac_run_cursor_command_options_new, mongoac_run_cursor_command_options_set_cursor_type};
use mongoac::session_options::{mongoac_session_options_new, mongoac_session_options_set_causal_consistency, mongoac_session_options_set_default_transaction_options, mongoac_session_options_set_snapshot_time};
use mongoac::transaction_options::{mongoac_transaction_options_new, mongoac_transaction_options_set_max_commit_time_ms, mongoac_transaction_options_set_write_concern};
use mongoac::update_options::{mongoac_update_options_add_array_filter, mongoac_update_options_new, mongoac_update_options_set_upsert};
use mongoac::write_concern::{mongoac_write_concern_new, mongoac_write_concern_set_w_nodes};

fn key_doc() -> BsonViewT {
    let mut d = mongodb::bson::Document::new();
    d.insert("x", 1);
    BsonViewT { data: Some(d.to_vec().unwrap()) }
}

#[test]
fn aggregate_settings() {
    let mut o = mongoac_aggregate_options_new();
    mongoac_aggregate_options_set_allow_disk_use(&mut o, true);
    mongoac_aggregate_options_set_batch_size(&mut o, 100);
    mongoac_aggregate_options_set_max_time_ms(&mut o, 2500);
    assert_eq!(o.allow_disk_use, Some(true));
    assert_eq!(o.batch_size, Some(100));
    assert_eq!(o.max_time_ms, Some(2500));
    mongoac_aggregate_options_set_hint(&mut o, &key_doc()).unwrap();
    assert_eq!(o.hint.as_ref().unwrap().get_i32("x").unwrap(), 1);
    mongoac_aggregate_options_set_hint(&mut o, &BsonViewT::default()).unwrap();
    assert!(o.hint.is_none());
}

#[test]
fn bad_documents_leave_options_unchanged() {
    let mut o = mongoac_aggregate_options_new();
    mongoac_aggregate_options_set_comment(&mut o, &key_doc()).unwrap();
    let bad = BsonViewT { data: Some(vec![3, 0, 0]) };
    let e = mongoac_aggregate_options_set_comment(&mut o, &bad).unwrap_err();
    assert_eq!(e.category(), ErrorCategoryT::Bson);
    assert!(o.comment.is_some());
    let e = mongoac_aggregate_options_set_let(&mut o, &bad).unwrap_err();
    assert_eq!(e.category(), ErrorCategoryT::Bson);
    assert!(o.let_vars.is_none());
}

#[test]
fn array_filters_are_appended() {
    let mut o = mongoac_update_options_new();
    let e = mongoac_update_options_add_array_filter(&mut o, &BsonViewT::default()).unwrap_err();
    assert_eq!(e.code(), ErrorCodeT::InvalidArgument);
    assert_eq!(e.message(), Some("invalid argument: filter: must not be null".to_string()));
    assert!(o.array_filters.is_none());
    mongoac_update_options_add_array_filter(&mut o, &key_doc()).unwrap();
    mongoac_update_options_add_array_filter(&mut o, &BsonViewT::empty_doc()).unwrap();
    let f = o.array_filters.as_ref().unwrap();
    assert_eq!(f.len(), 2);
    assert!(f[1].is_empty());
    mongoac_update_options_set_upsert(&mut o, true);
    assert_eq!(o.upsert, Some(true));
}

#[test]
fn comments_from_c_documents() {
    let mut o = mongoac_insert_one_options_new();
    let c = ConstBsonT(bson_t { data: vec![5, 0, 0, 0, 0] });
    mongoac_insert_one_options_set_comment(&mut o, Some(&c)).unwrap();
    assert!(o.comment.as_ref().unwrap().is_empty());
    mongoac_insert_one_options_set_comment(&mut o, None).unwrap();
    assert!(o.comment.is_none());
}

#[test]
fn selection_by_read_preference_or_predicate() {
    let mut o: CollectionOptionsT<u32> = mongoac_collection_options_new();
    let rp = mongoac_read_preference_new();
    mongoac_collection_options_set_read_preference(&mut o, Some(&rp));
    assert!(matches!(o.selection_criteria, Some(SelectionCriteriaT::ReadPreference(_))));
    mongoac_collection_options_set_server_selector(&mut o, Some(5));
    assert!(matches!(o.selection_criteria, Some(SelectionCriteriaT::Predicate(5))));
    mongoac_collection_options_set_server_selector(&mut o, None);
    assert!(o.selection_criteria.is_none());
}

#[test]
fn unknown_cursor_types_are_non_tailable() {
    let mut o: RunCursorCommandOptionsT<()> = mongoac_run_cursor_command_options_new();
    mongoac_run_cursor_command_options_set_cursor_type(&mut o, CursorTypeT::from(9));
    assert_eq!(o.cursor_type, Some(CursorTypeT::NonTailable));
    mongoac_run_cursor_command_options_set_cursor_type(&mut o, CursorTypeT::from(2));
    assert_eq!(o.cursor_type, Some(CursorTypeT::TailableAwait));
}

#[test]
fn session_and_transaction_defaults() {
    let mut t = mongoac_transaction_options_new();
    let mut wc = mongoac_write_concern_new();
    mongoac_write_concern_set_w_nodes(&mut wc, 2);
    mongoac_transaction_options_set_write_concern(&mut t, Some(&wc));
    mongoac_transaction_options_set_max_commit_time_ms(&mut t, 900);
    let mut s = mongoac_session_options_new();
    mongoac_session_options_set_snapshot_time(&mut s, 1700000000, 3);
    mongoac_session_options_set_causal_consistency(&mut s, false);
    mongoac_session_options_set_default_transaction_options(&mut s, Some(&t));
    assert_eq!(s.snapshot_time, Some((1700000000, 3)));
    assert_eq!(s.causal_consistency, Some(false));
    let d = s.default_transaction_options.as_ref().unwrap();
    assert_eq!(d.max_commit_time_ms, Some(900));
    assert!(d.write_concern.is_some());
}

#[test]
fn options_read_from_bson() {
    let o = mongoac_find_options_new_from_bson(&BsonViewT::default()).unwrap();
    assert!(o.inner.is_none());
    let mut d = mongodb::bson::Document::new();
    d.insert("limit", 3i64);
    let o = mongoac_find_options_new_from_bson(&BsonViewT { data: Some(d.to_vec().unwrap()) }).unwrap();
    assert_eq!(o.inner.unwrap().limit, Some(3));
    let mut bad = mongodb::bson::Document::new();
    bad.insert("limit", "three");
    let e = mongoac_find_options_new_from_bson(&BsonViewT { data: Some(bad.to_vec().unwrap()) }).unwrap_err();
    assert_eq!(e.category(), ErrorCategoryT::Bson);
}
