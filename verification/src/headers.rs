//! Decisions of the C header generator: which source files get headers, the
//! include guards, the includes of each header and the generator settings.
//! Reading sources and writing headers is left to the caller.

use crate::text::str_eq;
use vstd::prelude::*;

verus! {

/// The text of each string slice of a sequence.
pub open spec fn strs_view(s: Seq<&str>) -> Seq<Seq<char>> {
    s.map_values(|x: &str| x@)
}

/// The text of each string of a sequence.
pub open spec fn strings_view(s: Seq<String>) -> Seq<Seq<char>> {
    s.map_values(|x: String| x@)
}

/// The text of each pair of strings of a sequence.
pub open spec fn pairs_view(s: Seq<(String, String)>) -> Seq<(Seq<char>, Seq<char>)> {
    s.map_values(|p: (String, String)| (p.0@, p.1@))
}

/// Appends a copy of each string slice, in order.
pub fn push_all(dst: &mut Vec<String>, items: &[&str])
    ensures
        strings_view(final(dst)@) == strings_view(old(dst)@) + strs_view(items@),
{
    let ghost start = strings_view(dst@);
    let mut i: usize = 0;
    while i < items.len()
        invariant
            i <= items.len(),
            strings_view(dst@) == start + strs_view(items@.take(i as int)),
        decreases items.len() - i,
    {
        let ghost before = dst@;
        let s = String::from_str(items[i]);
        dst.push(s);
        proof {
            assert(strings_view(dst@) =~= strings_view(before).push(items@[i as int]@));
            assert(strs_view(items@.take(i as int + 1)) =~= strs_view(items@.take(i as int)).push(
                items@[i as int]@,
            ));
        }
        i = i + 1;
    }
    assert(items@.take(items.len() as int) =~= items@);
}

/// Whether a source file, by its stem, gets no header at all.
pub open spec fn skipped_cargo_header(stem: Seq<char>) -> bool {
    stem == "lib"@ || stem == "mod"@ || stem == "version"@
}

/// Whether a source file, by its stem, gets no header at all (the crate root,
/// module files and the version module).
pub fn skips_cargo_header(stem: &str) -> (r: bool)
    ensures
        r == skipped_cargo_header(stem@),
{
    str_eq(stem, "lib") || str_eq(stem, "mod") || str_eq(stem, "version")
}

/// Whether a header, by its file stem, has no forward header beside it.
pub open spec fn skipped_forward_header(stem: Seq<char>) -> bool {
    stem == "bson"@ || stem == "cursor_type"@ || stem == "string"@
}

/// Whether a header, by its file stem, has no forward header beside it (those
/// whose types are all complete in the header itself).
pub fn skips_forward_header(stem: &str) -> (r: bool)
    ensures
        r == skipped_forward_header(stem@),
{
    str_eq(stem, "bson") || str_eq(stem, "cursor_type") || str_eq(stem, "string")
}

/// Whether the search for sources descends into a directory of this name:
/// private modules get no headers.
pub fn descends_into(dir_name: Option<&str>) -> (r: bool)
    ensures
        r == !(dir_name matches Some(n) && n@ == "private"@),
{
    match dir_name {
        Some(n) => !str_eq(n, "private"),
        None => true,
    }
}

/// Whether a file, by its extension, is a Rust source that gets a header.
pub fn is_crate_source(extension: Option<&str>) -> (r: bool)
    ensures
        r == (extension matches Some(e) && e@ == "rs"@),
{
    match extension {
        Some(e) => str_eq(e, "rs"),
        None => false,
    }
}

/// Which struct names the headers rename, and to what: `ExampleT` becomes
/// `mongoac_example_t`.
pub open spec fn struct_renames() -> Seq<(Seq<char>, Seq<char>)> {
    seq![
        ("AggregateOptionsT"@, "mongoac_aggregate_options_t"@),
        ("BsonT"@, "mongoac_bson_t"@),
        ("BsonViewT"@, "mongoac_bson_view_t"@),
        ("ClientOptionsT"@, "mongoac_client_options_t"@),
        ("ClientSessionT"@, "mongoac_client_session_t"@),
        ("ClientT"@, "mongoac_client_t"@),
        ("CollectionT"@, "mongoac_collection_t"@),
        ("CollectionOptionsT"@, "mongoac_collection_options_t"@),
        ("CountOptionsT"@, "mongoac_count_options_t"@),
        ("CredentialT"@, "mongoac_credential_t"@),
        ("CreateCollectionOptionsT"@, "mongoac_create_collection_options_t"@),
        ("CursorT"@, "mongoac_cursor_t"@),
        ("CursorTypeT"@, "mongoac_cursor_type_t"@),
        ("DatabaseT"@, "mongoac_database_t"@),
        ("DatabaseOptionsT"@, "mongoac_database_options_t"@),
        ("DeleteOptionsT"@, "mongoac_delete_options_t"@),
        ("DistinctOptionsT"@, "mongoac_distinct_options_t"@),
        ("DropDatabaseOptionsT"@, "mongoac_drop_database_options_t"@),
        ("DropCollectionOptionsT"@, "mongoac_drop_collection_options_t"@),
        ("EstimatedDocumentCountOptionsT"@, "mongoac_estimated_document_count_options_t"@),
        ("ErrorT"@, "mongoac_error_t"@),
        ("FindOptionsT"@, "mongoac_find_options_t"@),
        ("FindOneOptionsT"@, "mongoac_find_one_options_t"@),
        ("FutureT"@, "mongoac_future_t"@),
        ("InsertManyOptionsT"@, "mongoac_insert_many_options_t"@),
        ("InsertOneOptionsT"@, "mongoac_insert_one_options_t"@),
        ("ListDatabasesOptionsT"@, "mongoac_list_databases_options_t"@),
        ("ListCollectionsOptionsT"@, "mongoac_list_collections_options_t"@),
        ("ReadConcernT"@, "mongoac_read_concern_t"@),
        ("ReadPreferenceT"@, "mongoac_read_preference_t"@),
        ("ReplaceOptionsT"@, "mongoac_replace_options_t"@),
        ("RunCommandOptionsT"@, "mongoac_run_command_options_t"@),
        ("RunCursorCommandOptionsT"@, "mongoac_run_cursor_command_options_t"@),
        ("RuntimeT"@, "mongoac_runtime_t"@),
        ("ServerApiT"@, "mongoac_server_api_t"@),
        ("ServerInfoT"@, "mongoac_server_info_t"@),
        ("ServerSelectorT"@, "mongoac_server_selector_t"@),
        ("ServerTypeT"@, "mongoac_server_type_t"@),
        ("SessionOptionsT"@, "mongoac_session_options_t"@),
        ("StringT"@, "mongoac_string_t"@),
        ("StringViewT"@, "mongoac_string_view_t"@),
        ("TransactionOptionsT"@, "mongoac_transaction_options_t"@),
        ("TlsOptionsT"@, "mongoac_tls_options_t"@),
        ("UpdateOptionsT"@, "mongoac_update_options_t"@),
        ("WriteConcernT"@, "mongoac_write_concern_t"@),
    ]
}

/// Whether a character is an ASCII capital letter.
pub open spec fn is_ascii_upper(c: char) -> bool {
    'A' <= c && c <= 'Z'
}

/// The ASCII lowercase of a character; other characters are unchanged.
pub open spec fn ascii_lower(c: char) -> char {
    if is_ascii_upper(c) {
        ((c as u32) + 32) as char
    } else {
        c
    }
}

/// A camel-case name in snake case: each capital but a leading one starts a
/// new word after an underscore, and every letter is lowercase.
pub open spec fn snake_case(s: Seq<char>) -> Seq<char>
    decreases s.len(),
{
    if s.len() == 0 {
        seq![]
    } else {
        let c = s.last();
        let init = s.drop_last();
        snake_case(init) + if is_ascii_upper(c) && init.len() > 0 {
            seq!['_', ascii_lower(c)]
        } else {
            seq![ascii_lower(c)]
        }
    }
}

/// The C name of a struct named `ExampleT`: `mongoac_example_t`.
pub open spec fn c_type_name(rust_name: Seq<char>) -> Seq<char> {
    "mongoac_"@ + snake_case(rust_name.drop_last()) + "_t"@
}

/// Every struct rename follows one rule: `ExampleT` becomes
/// `mongoac_example_t`.
pub proof fn lemma_struct_renames_follow_rule()
    ensures
        forall|i: int|
            0 <= i < struct_renames().len() ==> (#[trigger] struct_renames()[i]).1 == c_type_name(
                struct_renames()[i].0,
            ),
{
    rename_follows_rule_0();
    rename_follows_rule_1();
    rename_follows_rule_2();
    rename_follows_rule_3();
    rename_follows_rule_4();
    rename_follows_rule_5();
    rename_follows_rule_6();
    rename_follows_rule_7();
    rename_follows_rule_8();
    rename_follows_rule_9();
    rename_follows_rule_10();
    rename_follows_rule_11();
    rename_follows_rule_12();
    rename_follows_rule_13();
    rename_follows_rule_14();
    rename_follows_rule_15();
    rename_follows_rule_16();
    rename_follows_rule_17();
    rename_follows_rule_18();
    rename_follows_rule_19();
    rename_follows_rule_20();
    rename_follows_rule_21();
    rename_follows_rule_22();
    rename_follows_rule_23();
    rename_follows_rule_24();
    rename_follows_rule_25();
    rename_follows_rule_26();
    rename_follows_rule_27();
    rename_follows_rule_28();
    rename_follows_rule_29();
    rename_follows_rule_30();
    rename_follows_rule_31();
    rename_follows_rule_32();
    rename_follows_rule_33();
    rename_follows_rule_34();
    rename_follows_rule_35();
    rename_follows_rule_36();
    rename_follows_rule_37();
    rename_follows_rule_38();
    rename_follows_rule_39();
    rename_follows_rule_40();
    rename_follows_rule_41();
    rename_follows_rule_42();
    rename_follows_rule_43();
    rename_follows_rule_44();
}

proof fn rename_follows_rule_0()
    ensures
        c_type_name("AggregateOptionsT"@) == "mongoac_aggregate_options_t"@,
{
    reveal_with_fuel(snake_case, 17);
    reveal_strlit("mongoac_");
    reveal_strlit("_t");
    reveal_strlit("AggregateOptionsT");
    reveal_strlit("mongoac_aggregate_options_t");
    assert(c_type_name("AggregateOptionsT"@) =~= "mongoac_aggregate_options_t"@);
}

proof fn rename_follows_rule_1()
    ensures
        c_type_name("BsonT"@) == "mongoac_bson_t"@,
{
    reveal_with_fuel(snake_case, 5);
    reveal_strlit("mongoac_");
    reveal_strlit("_t");
    reveal_strlit("BsonT");
    reveal_strlit("mongoac_bson_t");
    assert(c_type_name("BsonT"@) =~= "mongoac_bson_t"@);
}

proof fn rename_follows_rule_2()
    ensures
        c_type_name("BsonViewT"@) == "mongoac_bson_view_t"@,
{
    reveal_with_fuel(snake_case, 9);
    reveal_strlit("mongoac_");
    reveal_strlit("_t");
    reveal_strlit("BsonViewT");
    reveal_strlit("mongoac_bson_view_t");
    assert(c_type_name("BsonViewT"@) =~= "mongoac_bson_view_t"@);
}

proof fn rename_follows_rule_3()
    ensures
        c_type_name("ClientOptionsT"@) == "mongoac_client_options_t"@,
{
    reveal_with_fuel(snake_case, 14);
    reveal_strlit("mongoac_");
    reveal_strlit("_t");
    reveal_strlit("ClientOptionsT");
    reveal_strlit("mongoac_client_options_t");
    assert(c_type_name("ClientOptionsT"@) =~= "mongoac_client_options_t"@);
}

proof fn rename_follows_rule_4()
    ensures
        c_type_name("ClientSessionT"@) == "mongoac_client_session_t"@,
{
    reveal_with_fuel(snake_case, 14);
    reveal_strlit("mongoac_");
    reveal_strlit("_t");
    reveal_strlit("ClientSessionT");
    reveal_strlit("mongoac_client_session_t");
    assert(c_type_name("ClientSessionT"@) =~= "mongoac_client_session_t"@);
}

proof fn rename_follows_rule_5()
    ensures
        c_type_name("ClientT"@) == "mongoac_client_t"@,
{
    reveal_with_fuel(snake_case, 7);
    reveal_strlit("mongoac_");
    reveal_strlit("_t");
    reveal_strlit("ClientT");
    reveal_strlit("mongoac_client_t");
    assert(c_type_name("ClientT"@) =~= "mongoac_client_t"@);
}

proof fn rename_follows_rule_6()
    ensures
        c_type_name("CollectionT"@) == "mongoac_collection_t"@,
{
    reveal_with_fuel(snake_case, 11);
    reveal_strlit("mongoac_");
    reveal_strlit("_t");
    reveal_strlit("CollectionT");
    reveal_strlit("mongoac_collection_t");
    assert(c_type_name("CollectionT"@) =~= "mongoac_collection_t"@);
}

proof fn rename_follows_rule_7()
    ensures
        c_type_name("CollectionOptionsT"@) == "mongoac_collection_options_t"@,
{
    reveal_with_fuel(snake_case, 18);
    reveal_strlit("mongoac_");
    reveal_strlit("_t");
    reveal_strlit("CollectionOptionsT");
    reveal_strlit("mongoac_collection_options_t");
    assert(c_type_name("CollectionOptionsT"@) =~= "mongoac_collection_options_t"@);
}

proof fn rename_follows_rule_8()
    ensures
        c_type_name("CountOptionsT"@) == "mongoac_count_options_t"@,
{
    reveal_with_fuel(snake_case, 13);
    reveal_strlit("mongoac_");
    reveal_strlit("_t");
    reveal_strlit("CountOptionsT");
    reveal_strlit("mongoac_count_options_t");
    assert(c_type_name("CountOptionsT"@) =~= "mongoac_count_options_t"@);
}

proof fn rename_follows_rule_9()
    ensures
        c_type_name("CredentialT"@) == "mongoac_credential_t"@,
{
    reveal_with_fuel(snake_case, 11);
    reveal_strlit("mongoac_");
    reveal_strlit("_t");
    reveal_strlit("CredentialT");
    reveal_strlit("mongoac_credential_t");
    assert(c_type_name("CredentialT"@) =~= "mongoac_credential_t"@);
}

proof fn rename_follows_rule_10()
    ensures
        c_type_name("CreateCollectionOptionsT"@) == "mongoac_create_collection_options_t"@,
{
    reveal_with_fuel(snake_case, 24);
    reveal_strlit("mongoac_");
    reveal_strlit("_t");
    reveal_strlit("CreateCollectionOptionsT");
    reveal_strlit("mongoac_create_collection_options_t");
    assert(c_type_name("CreateCollectionOptionsT"@) =~= "mongoac_create_collection_options_t"@);
}

proof fn rename_follows_rule_11()
    ensures
        c_type_name("CursorT"@) == "mongoac_cursor_t"@,
{
    reveal_with_fuel(snake_case, 7);
    reveal_strlit("mongoac_");
    reveal_strlit("_t");
    reveal_strlit("CursorT");
    reveal_strlit("mongoac_cursor_t");
    assert(c_type_name("CursorT"@) =~= "mongoac_cursor_t"@);
}

proof fn rename_follows_rule_12()
    ensures
        c_type_name("CursorTypeT"@) == "mongoac_cursor_type_t"@,
{
    reveal_with_fuel(snake_case, 11);
    reveal_strlit("mongoac_");
    reveal_strlit("_t");
    reveal_strlit("CursorTypeT");
    reveal_strlit("mongoac_cursor_type_t");
    assert(c_type_name("CursorTypeT"@) =~= "mongoac_cursor_type_t"@);
}

proof fn rename_follows_rule_13()
    ensures
        c_type_name("DatabaseT"@) == "mongoac_database_t"@,
{
    reveal_with_fuel(snake_case, 9);
    reveal_strlit("mongoac_");
    reveal_strlit("_t");
    reveal_strlit("DatabaseT");
    reveal_strlit("mongoac_database_t");
    assert(c_type_name("DatabaseT"@) =~= "mongoac_database_t"@);
}

proof fn rename_follows_rule_14()
    ensures
        c_type_name("DatabaseOptionsT"@) == "mongoac_database_options_t"@,
{
    reveal_with_fuel(snake_case, 16);
    reveal_strlit("mongoac_");
    reveal_strlit("_t");
    reveal_strlit("DatabaseOptionsT");
    reveal_strlit("mongoac_database_options_t");
    assert(c_type_name("DatabaseOptionsT"@) =~= "mongoac_database_options_t"@);
}

proof fn rename_follows_rule_15()
    ensures
        c_type_name("DeleteOptionsT"@) == "mongoac_delete_options_t"@,
{
    reveal_with_fuel(snake_case, 14);
    reveal_strlit("mongoac_");
    reveal_strlit("_t");
    reveal_strlit("DeleteOptionsT");
    reveal_strlit("mongoac_delete_options_t");
    assert(c_type_name("DeleteOptionsT"@) =~= "mongoac_delete_options_t"@);
}

proof fn rename_follows_rule_16()
    ensures
        c_type_name("DistinctOptionsT"@) == "mongoac_distinct_options_t"@,
{
    reveal_with_fuel(snake_case, 16);
    reveal_strlit("mongoac_");
    reveal_strlit("_t");
    reveal_strlit("DistinctOptionsT");
    reveal_strlit("mongoac_distinct_options_t");
    assert(c_type_name("DistinctOptionsT"@) =~= "mongoac_distinct_options_t"@);
}

proof fn rename_follows_rule_17()
    ensures
        c_type_name("DropDatabaseOptionsT"@) == "mongoac_drop_database_options_t"@,
{
    reveal_with_fuel(snake_case, 20);
    reveal_strlit("mongoac_");
    reveal_strlit("_t");
    reveal_strlit("DropDatabaseOptionsT");
    reveal_strlit("mongoac_drop_database_options_t");
    assert(c_type_name("DropDatabaseOptionsT"@) =~= "mongoac_drop_database_options_t"@);
}

proof fn rename_follows_rule_18()
    ensures
        c_type_name("DropCollectionOptionsT"@) == "mongoac_drop_collection_options_t"@,
{
    reveal_with_fuel(snake_case, 22);
    reveal_strlit("mongoac_");
    reveal_strlit("_t");
    reveal_strlit("DropCollectionOptionsT");
    reveal_strlit("mongoac_drop_collection_options_t");
    assert(c_type_name("DropCollectionOptionsT"@) =~= "mongoac_drop_collection_options_t"@);
}

proof fn rename_follows_rule_19()
    ensures
        c_type_name("EstimatedDocumentCountOptionsT"@) == "mongoac_estimated_document_count_options_t"@,
{
    reveal_with_fuel(snake_case, 30);
    reveal_strlit("mongoac_");
    reveal_strlit("_t");
    reveal_strlit("EstimatedDocumentCountOptionsT");
    reveal_strlit("mongoac_estimated_document_count_options_t");
    assert(c_type_name("EstimatedDocumentCountOptionsT"@) =~= "mongoac_estimated_document_count_options_t"@);
}

proof fn rename_follows_rule_20()
    ensures
        c_type_name("ErrorT"@) == "mongoac_error_t"@,
{
    reveal_with_fuel(snake_case, 6);
    reveal_strlit("mongoac_");
    reveal_strlit("_t");
    reveal_strlit("ErrorT");
    reveal_strlit("mongoac_error_t");
    assert(c_type_name("ErrorT"@) =~= "mongoac_error_t"@);
}

proof fn rename_follows_rule_21()
    ensures
        c_type_name("FindOptionsT"@) == "mongoac_find_options_t"@,
{
    reveal_with_fuel(snake_case, 12);
    reveal_strlit("mongoac_");
    reveal_strlit("_t");
    reveal_strlit("FindOptionsT");
    reveal_strlit("mongoac_find_options_t");
    assert(c_type_name("FindOptionsT"@) =~= "mongoac_find_options_t"@);
}

proof fn rename_follows_rule_22()
    ensures
        c_type_name("FindOneOptionsT"@) == "mongoac_find_one_options_t"@,
{
    reveal_with_fuel(snake_case, 15);
    reveal_strlit("mongoac_");
    reveal_strlit("_t");
    reveal_strlit("FindOneOptionsT");
    reveal_strlit("mongoac_find_one_options_t");
    assert(c_type_name("FindOneOptionsT"@) =~= "mongoac_find_one_options_t"@);
}

proof fn rename_follows_rule_23()
    ensures
        c_type_name("FutureT"@) == "mongoac_future_t"@,
{
    reveal_with_fuel(snake_case, 7);
    reveal_strlit("mongoac_");
    reveal_strlit("_t");
    reveal_strlit("FutureT");
    reveal_strlit("mongoac_future_t");
    assert(c_type_name("FutureT"@) =~= "mongoac_future_t"@);
}

proof fn rename_follows_rule_24()
    ensures
        c_type_name("InsertManyOptionsT"@) == "mongoac_insert_many_options_t"@,
{
    reveal_with_fuel(snake_case, 18);
    reveal_strlit("mongoac_");
    reveal_strlit("_t");
    reveal_strlit("InsertManyOptionsT");
    reveal_strlit("mongoac_insert_many_options_t");
    assert(c_type_name("InsertManyOptionsT"@) =~= "mongoac_insert_many_options_t"@);
}

proof fn rename_follows_rule_25()
    ensures
        c_type_name("InsertOneOptionsT"@) == "mongoac_insert_one_options_t"@,
{
    reveal_with_fuel(snake_case, 17);
    reveal_strlit("mongoac_");
    reveal_strlit("_t");
    reveal_strlit("InsertOneOptionsT");
    reveal_strlit("mongoac_insert_one_options_t");
    assert(c_type_name("InsertOneOptionsT"@) =~= "mongoac_insert_one_options_t"@);
}

proof fn rename_follows_rule_26()
    ensures
        c_type_name("ListDatabasesOptionsT"@) == "mongoac_list_databases_options_t"@,
{
    reveal_with_fuel(snake_case, 21);
    reveal_strlit("mongoac_");
    reveal_strlit("_t");
    reveal_strlit("ListDatabasesOptionsT");
    reveal_strlit("mongoac_list_databases_options_t");
    assert(c_type_name("ListDatabasesOptionsT"@) =~= "mongoac_list_databases_options_t"@);
}

proof fn rename_follows_rule_27()
    ensures
        c_type_name("ListCollectionsOptionsT"@) == "mongoac_list_collections_options_t"@,
{
    reveal_with_fuel(snake_case, 23);
    reveal_strlit("mongoac_");
    reveal_strlit("_t");
    reveal_strlit("ListCollectionsOptionsT");
    reveal_strlit("mongoac_list_collections_options_t");
    assert(c_type_name("ListCollectionsOptionsT"@) =~= "mongoac_list_collections_options_t"@);
}

proof fn rename_follows_rule_28()
    ensures
        c_type_name("ReadConcernT"@) == "mongoac_read_concern_t"@,
{
    reveal_with_fuel(snake_case, 12);
    reveal_strlit("mongoac_");
    reveal_strlit("_t");
    reveal_strlit("ReadConcernT");
    reveal_strlit("mongoac_read_concern_t");
    assert(c_type_name("ReadConcernT"@) =~= "mongoac_read_concern_t"@);
}

proof fn rename_follows_rule_29()
    ensures
        c_type_name("ReadPreferenceT"@) == "mongoac_read_preference_t"@,
{
    reveal_with_fuel(snake_case, 15);
    reveal_strlit("mongoac_");
    reveal_strlit("_t");
    reveal_strlit("ReadPreferenceT");
    reveal_strlit("mongoac_read_preference_t");
    assert(c_type_name("ReadPreferenceT"@) =~= "mongoac_read_preference_t"@);
}

proof fn rename_follows_rule_30()
    ensures
        c_type_name("ReplaceOptionsT"@) == "mongoac_replace_options_t"@,
{
    reveal_with_fuel(snake_case, 15);
    reveal_strlit("mongoac_");
    reveal_strlit("_t");
    reveal_strlit("ReplaceOptionsT");
    reveal_strlit("mongoac_replace_options_t");
    assert(c_type_name("ReplaceOptionsT"@) =~= "mongoac_replace_options_t"@);
}

proof fn rename_follows_rule_31()
    ensures
        c_type_name("RunCommandOptionsT"@) == "mongoac_run_command_options_t"@,
{
    reveal_with_fuel(snake_case, 18);
    reveal_strlit("mongoac_");
    reveal_strlit("_t");
    reveal_strlit("RunCommandOptionsT");
    reveal_strlit("mongoac_run_command_options_t");
    assert(c_type_name("RunCommandOptionsT"@) =~= "mongoac_run_command_options_t"@);
}

proof fn rename_follows_rule_32()
    ensures
        c_type_name("RunCursorCommandOptionsT"@) == "mongoac_run_cursor_command_options_t"@,
{
    reveal_with_fuel(snake_case, 24);
    reveal_strlit("mongoac_");
    reveal_strlit("_t");
    reveal_strlit("RunCursorCommandOptionsT");
    reveal_strlit("mongoac_run_cursor_command_options_t");
    assert(c_type_name("RunCursorCommandOptionsT"@) =~= "mongoac_run_cursor_command_options_t"@);
}

proof fn rename_follows_rule_33()
    ensures
        c_type_name("RuntimeT"@) == "mongoac_runtime_t"@,
{
    reveal_with_fuel(snake_case, 8);
    reveal_strlit("mongoac_");
    reveal_strlit("_t");
    reveal_strlit("RuntimeT");
    reveal_strlit("mongoac_runtime_t");
    assert(c_type_name("RuntimeT"@) =~= "mongoac_runtime_t"@);
}

proof fn rename_follows_rule_34()
    ensures
        c_type_name("ServerApiT"@) == "mongoac_server_api_t"@,
{
    reveal_with_fuel(snake_case, 10);
    reveal_strlit("mongoac_");
    reveal_strlit("_t");
    reveal_strlit("ServerApiT");
    reveal_strlit("mongoac_server_api_t");
    assert(c_type_name("ServerApiT"@) =~= "mongoac_server_api_t"@);
}

proof fn rename_follows_rule_35()
    ensures
        c_type_name("ServerInfoT"@) == "mongoac_server_info_t"@,
{
    reveal_with_fuel(snake_case, 11);
    reveal_strlit("mongoac_");
    reveal_strlit("_t");
    reveal_strlit("ServerInfoT");
    reveal_strlit("mongoac_server_info_t");
    assert(c_type_name("ServerInfoT"@) =~= "mongoac_server_info_t"@);
}

proof fn rename_follows_rule_36()
    ensures
        c_type_name("ServerSelectorT"@) == "mongoac_server_selector_t"@,
{
    reveal_with_fuel(snake_case, 15);
    reveal_strlit("mongoac_");
    reveal_strlit("_t");
    reveal_strlit("ServerSelectorT");
    reveal_strlit("mongoac_server_selector_t");
    assert(c_type_name("ServerSelectorT"@) =~= "mongoac_server_selector_t"@);
}

proof fn rename_follows_rule_37()
    ensures
        c_type_name("ServerTypeT"@) == "mongoac_server_type_t"@,
{
    reveal_with_fuel(snake_case, 11);
    reveal_strlit("mongoac_");
    reveal_strlit("_t");
    reveal_strlit("ServerTypeT");
    reveal_strlit("mongoac_server_type_t");
    assert(c_type_name("ServerTypeT"@) =~= "mongoac_server_type_t"@);
}

proof fn rename_follows_rule_38()
    ensures
        c_type_name("SessionOptionsT"@) == "mongoac_session_options_t"@,
{
    reveal_with_fuel(snake_case, 15);
    reveal_strlit("mongoac_");
    reveal_strlit("_t");
    reveal_strlit("SessionOptionsT");
    reveal_strlit("mongoac_session_options_t");
    assert(c_type_name("SessionOptionsT"@) =~= "mongoac_session_options_t"@);
}

proof fn rename_follows_rule_39()
    ensures
        c_type_name("StringT"@) == "mongoac_string_t"@,
{
    reveal_with_fuel(snake_case, 7);
    reveal_strlit("mongoac_");
    reveal_strlit("_t");
    reveal_strlit("StringT");
    reveal_strlit("mongoac_string_t");
    assert(c_type_name("StringT"@) =~= "mongoac_string_t"@);
}

proof fn rename_follows_rule_40()
    ensures
        c_type_name("StringViewT"@) == "mongoac_string_view_t"@,
{
    reveal_with_fuel(snake_case, 11);
    reveal_strlit("mongoac_");
    reveal_strlit("_t");
    reveal_strlit("StringViewT");
    reveal_strlit("mongoac_string_view_t");
    assert(c_type_name("StringViewT"@) =~= "mongoac_string_view_t"@);
}

proof fn rename_follows_rule_41()
    ensures
        c_type_name("TransactionOptionsT"@) == "mongoac_transaction_options_t"@,
{
    reveal_with_fuel(snake_case, 19);
    reveal_strlit("mongoac_");
    reveal_strlit("_t");
    reveal_strlit("TransactionOptionsT");
    reveal_strlit("mongoac_transaction_options_t");
    assert(c_type_name("TransactionOptionsT"@) =~= "mongoac_transaction_options_t"@);
}

proof fn rename_follows_rule_42()
    ensures
        c_type_name("TlsOptionsT"@) == "mongoac_tls_options_t"@,
{
    reveal_with_fuel(snake_case, 11);
    reveal_strlit("mongoac_");
    reveal_strlit("_t");
    reveal_strlit("TlsOptionsT");
    reveal_strlit("mongoac_tls_options_t");
    assert(c_type_name("TlsOptionsT"@) =~= "mongoac_tls_options_t"@);
}

proof fn rename_follows_rule_43()
    ensures
        c_type_name("UpdateOptionsT"@) == "mongoac_update_options_t"@,
{
    reveal_with_fuel(snake_case, 14);
    reveal_strlit("mongoac_");
    reveal_strlit("_t");
    reveal_strlit("UpdateOptionsT");
    reveal_strlit("mongoac_update_options_t");
    assert(c_type_name("UpdateOptionsT"@) =~= "mongoac_update_options_t"@);
}

proof fn rename_follows_rule_44()
    ensures
        c_type_name("WriteConcernT"@) == "mongoac_write_concern_t"@,
{
    reveal_with_fuel(snake_case, 13);
    reveal_strlit("mongoac_");
    reveal_strlit("_t");
    reveal_strlit("WriteConcernT");
    reveal_strlit("mongoac_write_concern_t");
    assert(c_type_name("WriteConcernT"@) =~= "mongoac_write_concern_t"@);
}

/// The struct renames, as pairs of old and new name.
pub fn rename_structs() -> (r: Vec<(String, String)>)
    ensures
        pairs_view(r@) == struct_renames(),
{
    let pairs: &[(&str, &str)] = &[
        ("AggregateOptionsT", "mongoac_aggregate_options_t"),
        ("BsonT", "mongoac_bson_t"),
        ("BsonViewT", "mongoac_bson_view_t"),
        ("ClientOptionsT", "mongoac_client_options_t"),
        ("ClientSessionT", "mongoac_client_session_t"),
        ("ClientT", "mongoac_client_t"),
        ("CollectionT", "mongoac_collection_t"),
        ("CollectionOptionsT", "mongoac_collection_options_t"),
        ("CountOptionsT", "mongoac_count_options_t"),
        ("CredentialT", "mongoac_credential_t"),
        ("CreateCollectionOptionsT", "mongoac_create_collection_options_t"),
        ("CursorT", "mongoac_cursor_t"),
        ("CursorTypeT", "mongoac_cursor_type_t"),
        ("DatabaseT", "mongoac_database_t"),
        ("DatabaseOptionsT", "mongoac_database_options_t"),
        ("DeleteOptionsT", "mongoac_delete_options_t"),
        ("DistinctOptionsT", "mongoac_distinct_options_t"),
        ("DropDatabaseOptionsT", "mongoac_drop_database_options_t"),
        ("DropCollectionOptionsT", "mongoac_drop_collection_options_t"),
        ("EstimatedDocumentCountOptionsT", "mongoac_estimated_document_count_options_t"),
        ("ErrorT", "mongoac_error_t"),
        ("FindOptionsT", "mongoac_find_options_t"),
        ("FindOneOptionsT", "mongoac_find_one_options_t"),
        ("FutureT", "mongoac_future_t"),
        ("InsertManyOptionsT", "mongoac_insert_many_options_t"),
        ("InsertOneOptionsT", "mongoac_insert_one_options_t"),
        ("ListDatabasesOptionsT", "mongoac_list_databases_options_t"),
        ("ListCollectionsOptionsT", "mongoac_list_collections_options_t"),
        ("ReadConcernT", "mongoac_read_concern_t"),
        ("ReadPreferenceT", "mongoac_read_preference_t"),
        ("ReplaceOptionsT", "mongoac_replace_options_t"),
        ("RunCommandOptionsT", "mongoac_run_command_options_t"),
        ("RunCursorCommandOptionsT", "mongoac_run_cursor_command_options_t"),
        ("RuntimeT", "mongoac_runtime_t"),
        ("ServerApiT", "mongoac_server_api_t"),
        ("ServerInfoT", "mongoac_server_info_t"),
        ("ServerSelectorT", "mongoac_server_selector_t"),
        ("ServerTypeT", "mongoac_server_type_t"),
        ("SessionOptionsT", "mongoac_session_options_t"),
        ("StringT", "mongoac_string_t"),
        ("StringViewT", "mongoac_string_view_t"),
        ("TransactionOptionsT", "mongoac_transaction_options_t"),
        ("TlsOptionsT", "mongoac_tls_options_t"),
        ("UpdateOptionsT", "mongoac_update_options_t"),
        ("WriteConcernT", "mongoac_write_concern_t"),
    ];
    let mut r: Vec<(String, String)> = Vec::new();
    let mut i: usize = 0;
    while i < pairs.len()
        invariant
            i <= pairs.len(),
            r@.len() == i,
            forall|j: int| 0 <= j < i ==> (#[trigger] r@[j]).0@ == pairs@[j].0@ && r@[j].1@ == pairs@[j].1@,
        decreases pairs.len() - i,
    {
        let (a, b) = pairs[i];
        r.push((String::from_str(a), String::from_str(b)));
        i = i + 1;
    }
    assert(pairs_view(r@) =~= struct_renames());
    r
}

/// The includes that each header needs besides its forward header and the
/// export header, by the header's relative name.
pub open spec fn crate_includes(name: Seq<char>) -> Seq<Seq<char>> {
    if name == "bson"@ {
        seq!["stdint.h"@]
    } else if name == "aggregate_options"@ {
        seq!["mongoac/error-fwd.h"@, "mongoac/read_concern-fwd.h"@, "mongoac/write_concern-fwd.h"@, "mongoac/bson.h"@, "stdbool.h"@, "stdint.h"@]
    } else if name == "client"@ {
        seq!["mongoac/client_options-fwd.h"@, "mongoac/client_session-fwd.h"@, "mongoac/error-fwd.h"@, "mongoac/future-fwd.h"@, "mongoac/list_databases_options-fwd.h"@, "mongoac/session_options-fwd.h"@, "mongoac/runtime-fwd.h"@, "mongoac/bson.h"@, "mongoac/string.h"@, "stdint.h"@]
    } else if name == "client_options"@ {
        seq!["mongoac/error-fwd.h"@, "mongoac/server_api-fwd.h"@, "mongoac/read_concern-fwd.h"@, "mongoac/write_concern-fwd.h"@, "mongoac/read_preference-fwd.h"@, "mongoac/server_selector-fwd.h"@, "mongoac/tls_options-fwd.h"@, "mongoac/credential-fwd.h"@, "mongoac/string.h"@, "stdbool.h"@, "stdint.h"@]
    } else if name == "client_session"@ {
        seq!["mongoac/error-fwd.h"@, "mongoac/future-fwd.h"@]
    } else if name == "collection"@ {
        seq!["mongoac/database-fwd.h"@, "mongoac/client_session-fwd.h"@, "mongoac/cursor-fwd.h"@, "mongoac/error-fwd.h"@, "mongoac/future-fwd.h"@, "mongoac/drop_collection_options-fwd.h"@, "mongoac/insert_one_options-fwd.h"@, "mongoac/insert_many_options-fwd.h"@, "mongoac/find_options-fwd.h"@, "mongoac/find_one_options-fwd.h"@, "mongoac/delete_options-fwd.h"@, "mongoac/replace_options-fwd.h"@, "mongoac/update_options-fwd.h"@, "mongoac/count_options-fwd.h"@, "mongoac/estimated_document_count_options-fwd.h"@, "mongoac/distinct_options-fwd.h"@, "mongoac/aggregate_options-fwd.h"@, "mongoac/collection_options-fwd.h"@, "mongoac/bson.h"@, "mongoac/string.h"@, "stdint.h"@]
    } else if name == "create_collection_options"@ {
        seq!["mongoac/error-fwd.h"@, "mongoac/bson.h"@]
    } else if name == "collection_options"@ {
        seq!["mongoac/read_concern-fwd.h"@, "mongoac/write_concern-fwd.h"@, "mongoac/read_preference-fwd.h"@, "mongoac/server_selector-fwd.h"@]
    } else if name == "credential"@ {
        seq!["mongoac/error-fwd.h"@, "mongoac/bson.h"@, "mongoac/string.h"@, "stdint.h"@]
    } else if name == "cursor_type"@ {
        seq!["stdint.h"@]
    } else if name == "cursor"@ {
        seq!["mongoac/error-fwd.h"@, "mongoac/future-fwd.h"@, "mongoac/bson.h"@, "stdbool.h"@]
    } else if name == "database"@ {
        seq!["mongoac/client-fwd.h"@, "mongoac/client_session-fwd.h"@, "mongoac/cursor-fwd.h"@, "mongoac/error-fwd.h"@, "mongoac/future-fwd.h"@, "mongoac/list_collections_options-fwd.h"@, "mongoac/drop_database_options-fwd.h"@, "mongoac/database_options-fwd.h"@, "mongoac/create_collection_options-fwd.h"@, "mongoac/run_command_options-fwd.h"@, "mongoac/run_cursor_command_options-fwd.h"@, "mongoac/bson.h"@, "mongoac/string.h"@]
    } else if name == "database_options"@ {
        seq!["mongoac/read_concern-fwd.h"@, "mongoac/write_concern-fwd.h"@, "mongoac/read_preference-fwd.h"@, "mongoac/server_selector-fwd.h"@]
    } else if name == "delete_options"@ {
        seq!["mongoac/error-fwd.h"@, "mongoac/write_concern-fwd.h"@, "mongoac/bson.h"@]
    } else if name == "replace_options"@ {
        seq!["mongoac/error-fwd.h"@, "mongoac/write_concern-fwd.h"@, "mongoac/bson.h"@, "stdbool.h"@]
    } else if name == "update_options"@ {
        seq!["mongoac/error-fwd.h"@, "mongoac/write_concern-fwd.h"@, "mongoac/bson.h"@, "stdbool.h"@]
    } else if name == "count_options"@ {
        seq!["mongoac/error-fwd.h"@, "mongoac/read_concern-fwd.h"@, "mongoac/bson.h"@, "stdint.h"@]
    } else if name == "estimated_document_count_options"@ {
        seq!["mongoac/error-fwd.h"@, "mongoac/read_concern-fwd.h"@, "mongoac/bson.h"@, "stdint.h"@]
    } else if name == "distinct_options"@ {
        seq!["mongoac/error-fwd.h"@, "mongoac/read_concern-fwd.h"@, "mongoac/bson.h"@, "stdint.h"@]
    } else if name == "drop_collection_options"@ {
        seq!["mongoac/write_concern-fwd.h"@]
    } else if name == "drop_database_options"@ {
        seq!["mongoac/write_concern-fwd.h"@]
    } else if name == "error"@ {
        seq!["mongoac/string.h"@, "stdbool.h"@, "stdint.h"@]
    } else if name == "find_options"@ {
        seq!["mongoac/error-fwd.h"@, "mongoac/bson.h"@]
    } else if name == "find_one_options"@ {
        seq!["mongoac/error-fwd.h"@, "mongoac/bson.h"@]
    } else if name == "future"@ {
        seq!["mongoac/error-fwd.h"@, "mongoac/runtime-fwd.h"@, "mongoac/bson.h"@, "stdbool.h"@, "stdint.h"@]
    } else if name == "insert_many_options"@ {
        seq!["mongoac/error-fwd.h"@, "mongoac/write_concern-fwd.h"@, "mongoac/bson.h"@, "stdbool.h"@]
    } else if name == "insert_one_options"@ {
        seq!["mongoac/error-fwd.h"@, "mongoac/write_concern-fwd.h"@, "mongoac/bson.h"@, "stdbool.h"@]
    } else if name == "list_collections_options"@ {
        seq!["mongoac/error-fwd.h"@, "mongoac/bson.h"@, "stdbool.h"@, "stdint.h"@]
    } else if name == "list_databases_options"@ {
        seq!["mongoac/error-fwd.h"@, "mongoac/bson.h"@, "stdbool.h"@]
    } else if name == "read_concern"@ {
        seq!["mongoac/error-fwd.h"@, "mongoac/string.h"@]
    } else if name == "run_command_options"@ {
        seq!["mongoac/read_preference-fwd.h"@, "mongoac/server_selector-fwd.h"@]
    } else if name == "run_cursor_command_options"@ {
        seq!["mongoac/cursor_type.h"@, "mongoac/read_preference-fwd.h"@, "mongoac/server_selector-fwd.h"@, "mongoac/error-fwd.h"@, "mongoac/bson.h"@, "stdint.h"@]
    } else if name == "read_preference"@ {
        seq!["mongoac/error-fwd.h"@, "mongoac/bson.h"@, "stdbool.h"@, "stdint.h"@]
    } else if name == "runtime"@ {
        seq!["mongoac/error-fwd.h"@, "mongoac/future-fwd.h"@, "stdint.h"@]
    } else if name == "server_api"@ {
        seq!["stdbool.h"@]
    } else if name == "server_info"@ {
        seq!["mongoac/bson.h"@, "mongoac/string.h"@, "stdbool.h"@, "stdint.h"@]
    } else if name == "server_selector"@ {
        seq!["mongoac/server_info-fwd.h"@, "stdbool.h"@]
    } else if name == "session_options"@ {
        seq!["mongoac/transaction_options-fwd.h"@, "stdbool.h"@, "stdint.h"@]
    } else if name == "string"@ {
        seq!["stdint.h"@]
    } else if name == "tls_options"@ {
        seq!["mongoac/error-fwd.h"@, "mongoac/string.h"@, "stdbool.h"@]
    } else if name == "transaction_options"@ {
        seq!["mongoac/read_concern-fwd.h"@, "mongoac/write_concern-fwd.h"@, "mongoac/read_preference-fwd.h"@, "stdint.h"@]
    } else if name == "write_concern"@ {
        seq!["mongoac/error-fwd.h"@, "mongoac/string.h"@, "stdbool.h"@, "stdint.h"@]
    } else {
        seq![]
    }
}

/// The forward header of the header of the given relative name.
pub open spec fn forward_header(name: Seq<char>) -> Seq<char> {
    "mongoac/"@ + name + "-fwd.h"@
}

/// Whether a list of includes names no header twice, not the forward header of
/// its own header, and none of the forward headers that are never generated
/// (those of `bson`, `cursor_type` and `string`, whose full headers are
/// included instead).
pub open spec fn includes_are_sound(includes: Seq<Seq<char>>, name: Seq<char>) -> bool {
    &&& includes.no_duplicates()
    &&& !includes.contains(forward_header(name))
    &&& !includes.contains("mongoac/bson-fwd.h"@)
    &&& !includes.contains("mongoac/cursor_type-fwd.h"@)
    &&& !includes.contains("mongoac/string-fwd.h"@)
}

/// What `configure` adds for any header: no include twice, never the header's
/// own forward header, and never a forward header that is not generated.
pub proof fn lemma_crate_includes_are_sound(name: Seq<char>)
    ensures
        includes_are_sound(crate_includes(name), name),
{
    if name == "bson"@ {
        includes_sound_0();
    } else if name == "aggregate_options"@ {
        includes_sound_1();
    } else if name == "client"@ {
        includes_sound_2();
    } else if name == "client_options"@ {
        includes_sound_3();
    } else if name == "client_session"@ {
        includes_sound_4();
    } else if name == "collection"@ {
        includes_sound_5();
    } else if name == "create_collection_options"@ {
        includes_sound_6();
    } else if name == "collection_options"@ {
        includes_sound_7();
    } else if name == "credential"@ {
        includes_sound_8();
    } else if name == "cursor_type"@ {
        includes_sound_9();
    } else if name == "cursor"@ {
        includes_sound_10();
    } else if name == "database"@ {
        includes_sound_11();
    } else if name == "database_options"@ {
        includes_sound_12();
    } else if name == "delete_options"@ {
        includes_sound_13();
    } else if name == "replace_options"@ {
        includes_sound_14();
    } else if name == "update_options"@ {
        includes_sound_15();
    } else if name == "count_options"@ {
        includes_sound_16();
    } else if name == "estimated_document_count_options"@ {
        includes_sound_17();
    } else if name == "distinct_options"@ {
        includes_sound_18();
    } else if name == "drop_collection_options"@ {
        includes_sound_19();
    } else if name == "drop_database_options"@ {
        includes_sound_20();
    } else if name == "error"@ {
        includes_sound_21();
    } else if name == "find_options"@ {
        includes_sound_22();
    } else if name == "find_one_options"@ {
        includes_sound_23();
    } else if name == "future"@ {
        includes_sound_24();
    } else if name == "insert_many_options"@ {
        includes_sound_25();
    } else if name == "insert_one_options"@ {
        includes_sound_26();
    } else if name == "list_collections_options"@ {
        includes_sound_27();
    } else if name == "list_databases_options"@ {
        includes_sound_28();
    } else if name == "read_concern"@ {
        includes_sound_29();
    } else if name == "run_command_options"@ {
        includes_sound_30();
    } else if name == "run_cursor_command_options"@ {
        includes_sound_31();
    } else if name == "read_preference"@ {
        includes_sound_32();
    } else if name == "runtime"@ {
        includes_sound_33();
    } else if name == "server_api"@ {
        includes_sound_34();
    } else if name == "server_info"@ {
        includes_sound_35();
    } else if name == "server_selector"@ {
        includes_sound_36();
    } else if name == "session_options"@ {
        includes_sound_37();
    } else if name == "string"@ {
        includes_sound_38();
    } else if name == "tls_options"@ {
        includes_sound_39();
    } else if name == "transaction_options"@ {
        includes_sound_40();
    } else if name == "write_concern"@ {
        includes_sound_41();
    } else {
        assert(crate_includes(name) =~= Seq::<Seq<char>>::empty());
    }
}

proof fn includes_sound_0()
    ensures
        includes_are_sound(seq!["stdint.h"@], "bson"@),
{
    reveal_strlit("-fwd.h");
    reveal_strlit("bson");
    reveal_strlit("mongoac/");
    reveal_strlit("mongoac/bson-fwd.h");
    reveal_strlit("mongoac/cursor_type-fwd.h");
    reveal_strlit("mongoac/string-fwd.h");
    reveal_strlit("stdint.h");
    assert("-fwd.h"@.len() == 6);
    assert("bson"@.len() == 4);
    assert("mongoac/"@.len() == 8);
    assert("mongoac/bson-fwd.h"@.len() == 18);
    assert("mongoac/cursor_type-fwd.h"@.len() == 25);
    assert("mongoac/string-fwd.h"@.len() == 20);
    assert("stdint.h"@.len() == 8);
    reveal_strlit("mongoac/bson-fwd.h");
    assert("mongoac/bson-fwd.h"@.len() == 18);
    assert(forward_header("bson"@) =~= "mongoac/bson-fwd.h"@);
    let s = seq!["stdint.h"@];
    assert(s.no_duplicates());
    assert(!s.contains("mongoac/bson-fwd.h"@));
}

proof fn includes_sound_1()
    ensures
        includes_are_sound(seq!["mongoac/error-fwd.h"@, "mongoac/read_concern-fwd.h"@, "mongoac/write_concern-fwd.h"@, "mongoac/bson.h"@, "stdbool.h"@, "stdint.h"@], "aggregate_options"@),
{
    reveal_strlit("-fwd.h");
    reveal_strlit("aggregate_options");
    reveal_strlit("mongoac/");
    reveal_strlit("mongoac/bson-fwd.h");
    reveal_strlit("mongoac/bson.h");
    reveal_strlit("mongoac/cursor_type-fwd.h");
    reveal_strlit("mongoac/error-fwd.h");
    reveal_strlit("mongoac/read_concern-fwd.h");
    reveal_strlit("mongoac/string-fwd.h");
    reveal_strlit("mongoac/write_concern-fwd.h");
    reveal_strlit("stdbool.h");
    reveal_strlit("stdint.h");
    assert("-fwd.h"@.len() == 6);
    assert("aggregate_options"@.len() == 17);
    assert("mongoac/"@.len() == 8);
    assert("mongoac/bson-fwd.h"@.len() == 18);
    assert("mongoac/bson.h"@.len() == 14);
    assert("mongoac/cursor_type-fwd.h"@.len() == 25);
    assert("mongoac/error-fwd.h"@.len() == 19);
    assert("mongoac/read_concern-fwd.h"@.len() == 26);
    assert("mongoac/string-fwd.h"@.len() == 20);
    assert("mongoac/write_concern-fwd.h"@.len() == 27);
    assert("stdbool.h"@.len() == 9);
    assert("stdint.h"@.len() == 8);
    reveal_strlit("mongoac/aggregate_options-fwd.h");
    assert("mongoac/aggregate_options-fwd.h"@.len() == 31);
    assert(forward_header("aggregate_options"@) =~= "mongoac/aggregate_options-fwd.h"@);
    let s = seq!["mongoac/error-fwd.h"@, "mongoac/read_concern-fwd.h"@, "mongoac/write_concern-fwd.h"@, "mongoac/bson.h"@, "stdbool.h"@, "stdint.h"@];
    assert(s.no_duplicates());
    assert(!s.contains("mongoac/aggregate_options-fwd.h"@));
}

proof fn includes_sound_2()
    ensures
        includes_are_sound(seq!["mongoac/client_options-fwd.h"@, "mongoac/client_session-fwd.h"@, "mongoac/error-fwd.h"@, "mongoac/future-fwd.h"@, "mongoac/list_databases_options-fwd.h"@, "mongoac/session_options-fwd.h"@, "mongoac/runtime-fwd.h"@, "mongoac/bson.h"@, "mongoac/string.h"@, "stdint.h"@], "client"@),
{
    reveal_strlit("-fwd.h");
    reveal_strlit("client");
    reveal_strlit("mongoac/");
    reveal_strlit("mongoac/bson-fwd.h");
    reveal_strlit("mongoac/bson.h");
    reveal_strlit("mongoac/client_options-fwd.h");
    reveal_strlit("mongoac/client_session-fwd.h");
    reveal_strlit("mongoac/cursor_type-fwd.h");
    reveal_strlit("mongoac/error-fwd.h");
    reveal_strlit("mongoac/future-fwd.h");
    reveal_strlit("mongoac/list_databases_options-fwd.h");
    reveal_strlit("mongoac/runtime-fwd.h");
    reveal_strlit("mongoac/session_options-fwd.h");
    reveal_strlit("mongoac/string-fwd.h");
    reveal_strlit("mongoac/string.h");
    reveal_strlit("stdint.h");
    assert("-fwd.h"@.len() == 6);
    assert("client"@.len() == 6);
    assert("mongoac/"@.len() == 8);
    assert("mongoac/bson-fwd.h"@.len() == 18);
    assert("mongoac/bson.h"@.len() == 14);
    assert("mongoac/client_options-fwd.h"@.len() == 28);
    assert("mongoac/client_session-fwd.h"@.len() == 28);
    assert("mongoac/cursor_type-fwd.h"@.len() == 25);
    assert("mongoac/error-fwd.h"@.len() == 19);
    assert("mongoac/future-fwd.h"@.len() == 20);
    assert("mongoac/list_databases_options-fwd.h"@.len() == 36);
    assert("mongoac/runtime-fwd.h"@.len() == 21);
    assert("mongoac/session_options-fwd.h"@.len() == 29);
    assert("mongoac/string-fwd.h"@.len() == 20);
    assert("mongoac/string.h"@.len() == 16);
    assert("stdint.h"@.len() == 8);
    reveal_strlit("mongoac/client-fwd.h");
    assert("mongoac/client-fwd.h"@.len() == 20);
    assert(forward_header("client"@) =~= "mongoac/client-fwd.h"@);
    assert("mongoac/client-fwd.h"@[8] != "mongoac/future-fwd.h"@[8]);
    assert("mongoac/client_options-fwd.h"@[15] != "mongoac/client_session-fwd.h"@[15]);
    assert("mongoac/future-fwd.h"@[8] != "mongoac/string-fwd.h"@[8]);
    let s = seq!["mongoac/client_options-fwd.h"@, "mongoac/client_session-fwd.h"@, "mongoac/error-fwd.h"@, "mongoac/future-fwd.h"@, "mongoac/list_databases_options-fwd.h"@, "mongoac/session_options-fwd.h"@, "mongoac/runtime-fwd.h"@, "mongoac/bson.h"@, "mongoac/string.h"@, "stdint.h"@];
    assert(s.no_duplicates());
    assert(!s.contains("mongoac/client-fwd.h"@));
}

proof fn includes_sound_3()
    ensures
        includes_are_sound(seq!["mongoac/error-fwd.h"@, "mongoac/server_api-fwd.h"@, "mongoac/read_concern-fwd.h"@, "mongoac/write_concern-fwd.h"@, "mongoac/read_preference-fwd.h"@, "mongoac/server_selector-fwd.h"@, "mongoac/tls_options-fwd.h"@, "mongoac/credential-fwd.h"@, "mongoac/string.h"@, "stdbool.h"@, "stdint.h"@], "client_options"@),
{
    reveal_strlit("-fwd.h");
    reveal_strlit("client_options");
    reveal_strlit("mongoac/");
    reveal_strlit("mongoac/bson-fwd.h");
    reveal_strlit("mongoac/credential-fwd.h");
    reveal_strlit("mongoac/cursor_type-fwd.h");
    reveal_strlit("mongoac/error-fwd.h");
    reveal_strlit("mongoac/read_concern-fwd.h");
    reveal_strlit("mongoac/read_preference-fwd.h");
    reveal_strlit("mongoac/server_api-fwd.h");
    reveal_strlit("mongoac/server_selector-fwd.h");
    reveal_strlit("mongoac/string-fwd.h");
    reveal_strlit("mongoac/string.h");
    reveal_strlit("mongoac/tls_options-fwd.h");
    reveal_strlit("mongoac/write_concern-fwd.h");
    reveal_strlit("stdbool.h");
    reveal_strlit("stdint.h");
    assert("-fwd.h"@.len() == 6);
    assert("client_options"@.len() == 14);
    assert("mongoac/"@.len() == 8);
    assert("mongoac/bson-fwd.h"@.len() == 18);
    assert("mongoac/credential-fwd.h"@.len() == 24);
    assert("mongoac/cursor_type-fwd.h"@.len() == 25);
    assert("mongoac/error-fwd.h"@.len() == 19);
    assert("mongoac/read_concern-fwd.h"@.len() == 26);
    assert("mongoac/read_preference-fwd.h"@.len() == 29);
    assert("mongoac/server_api-fwd.h"@.len() == 24);
    assert("mongoac/server_selector-fwd.h"@.len() == 29);
    assert("mongoac/string-fwd.h"@.len() == 20);
    assert("mongoac/string.h"@.len() == 16);
    assert("mongoac/tls_options-fwd.h"@.len() == 25);
    assert("mongoac/write_concern-fwd.h"@.len() == 27);
    assert("stdbool.h"@.len() == 9);
    assert("stdint.h"@.len() == 8);
    reveal_strlit("mongoac/client_options-fwd.h");
    assert("mongoac/client_options-fwd.h"@.len() == 28);
    assert(forward_header("client_options"@) =~= "mongoac/client_options-fwd.h"@);
    assert("mongoac/credential-fwd.h"@[8] != "mongoac/server_api-fwd.h"@[8]);
    assert("mongoac/cursor_type-fwd.h"@[8] != "mongoac/tls_options-fwd.h"@[8]);
    assert("mongoac/read_preference-fwd.h"@[8] != "mongoac/server_selector-fwd.h"@[8]);
    let s = seq!["mongoac/error-fwd.h"@, "mongoac/server_api-fwd.h"@, "mongoac/read_concern-fwd.h"@, "mongoac/write_concern-fwd.h"@, "mongoac/read_preference-fwd.h"@, "mongoac/server_selector-fwd.h"@, "mongoac/tls_options-fwd.h"@, "mongoac/credential-fwd.h"@, "mongoac/string.h"@, "stdbool.h"@, "stdint.h"@];
    assert(s.no_duplicates());
    assert(!s.contains("mongoac/client_options-fwd.h"@));
}

proof fn includes_sound_4()
    ensures
        includes_are_sound(seq!["mongoac/error-fwd.h"@, "mongoac/future-fwd.h"@], "client_session"@),
{
    reveal_strlit("-fwd.h");
    reveal_strlit("client_session");
    reveal_strlit("mongoac/");
    reveal_strlit("mongoac/bson-fwd.h");
    reveal_strlit("mongoac/cursor_type-fwd.h");
    reveal_strlit("mongoac/error-fwd.h");
    reveal_strlit("mongoac/future-fwd.h");
    reveal_strlit("mongoac/string-fwd.h");
    assert("-fwd.h"@.len() == 6);
    assert("client_session"@.len() == 14);
    assert("mongoac/"@.len() == 8);
    assert("mongoac/bson-fwd.h"@.len() == 18);
    assert("mongoac/cursor_type-fwd.h"@.len() == 25);
    assert("mongoac/error-fwd.h"@.len() == 19);
    assert("mongoac/future-fwd.h"@.len() == 20);
    assert("mongoac/string-fwd.h"@.len() == 20);
    reveal_strlit("mongoac/client_session-fwd.h");
    assert("mongoac/client_session-fwd.h"@.len() == 28);
    assert(forward_header("client_session"@) =~= "mongoac/client_session-fwd.h"@);
    assert("mongoac/future-fwd.h"@[8] != "mongoac/string-fwd.h"@[8]);
    let s = seq!["mongoac/error-fwd.h"@, "mongoac/future-fwd.h"@];
    assert(s.no_duplicates());
    assert(!s.contains("mongoac/client_session-fwd.h"@));
}

proof fn includes_sound_5()
    ensures
        includes_are_sound(seq!["mongoac/database-fwd.h"@, "mongoac/client_session-fwd.h"@, "mongoac/cursor-fwd.h"@, "mongoac/error-fwd.h"@, "mongoac/future-fwd.h"@, "mongoac/drop_collection_options-fwd.h"@, "mongoac/insert_one_options-fwd.h"@, "mongoac/insert_many_options-fwd.h"@, "mongoac/find_options-fwd.h"@, "mongoac/find_one_options-fwd.h"@, "mongoac/delete_options-fwd.h"@, "mongoac/replace_options-fwd.h"@, "mongoac/update_options-fwd.h"@, "mongoac/count_options-fwd.h"@, "mongoac/estimated_document_count_options-fwd.h"@, "mongoac/distinct_options-fwd.h"@, "mongoac/aggregate_options-fwd.h"@, "mongoac/collection_options-fwd.h"@, "mongoac/bson.h"@, "mongoac/string.h"@, "stdint.h"@], "collection"@),
{
    reveal_strlit("-fwd.h");
    reveal_strlit("collection");
    reveal_strlit("mongoac/");
    reveal_strlit("mongoac/aggregate_options-fwd.h");
    reveal_strlit("mongoac/bson-fwd.h");
    reveal_strlit("mongoac/bson.h");
    reveal_strlit("mongoac/client_session-fwd.h");
    reveal_strlit("mongoac/collection_options-fwd.h");
    reveal_strlit("mongoac/count_options-fwd.h");
    reveal_strlit("mongoac/cursor-fwd.h");
    reveal_strlit("mongoac/cursor_type-fwd.h");
    reveal_strlit("mongoac/database-fwd.h");
    reveal_strlit("mongoac/delete_options-fwd.h");
    reveal_strlit("mongoac/distinct_options-fwd.h");
    reveal_strlit("mongoac/drop_collection_options-fwd.h");
    reveal_strlit("mongoac/error-fwd.h");
    reveal_strlit("mongoac/estimated_document_count_options-fwd.h");
    reveal_strlit("mongoac/find_one_options-fwd.h");
    reveal_strlit("mongoac/find_options-fwd.h");
    reveal_strlit("mongoac/future-fwd.h");
    reveal_strlit("mongoac/insert_many_options-fwd.h");
    reveal_strlit("mongoac/insert_one_options-fwd.h");
    reveal_strlit("mongoac/replace_options-fwd.h");
    reveal_strlit("mongoac/string-fwd.h");
    reveal_strlit("mongoac/string.h");
    reveal_strlit("mongoac/update_options-fwd.h");
    reveal_strlit("stdint.h");
    assert("-fwd.h"@.len() == 6);
    assert("collection"@.len() == 10);
    assert("mongoac/"@.len() == 8);
    assert("mongoac/aggregate_options-fwd.h"@.len() == 31);
    assert("mongoac/bson-fwd.h"@.len() == 18);
    assert("mongoac/bson.h"@.len() == 14);
    assert("mongoac/client_session-fwd.h"@.len() == 28);
    assert("mongoac/collection_options-fwd.h"@.len() == 32);
    assert("mongoac/count_options-fwd.h"@.len() == 27);
    assert("mongoac/cursor-fwd.h"@.len() == 20);
    assert("mongoac/cursor_type-fwd.h"@.len() == 25);
    assert("mongoac/database-fwd.h"@.len() == 22);
    assert("mongoac/delete_options-fwd.h"@.len() == 28);
    assert("mongoac/distinct_options-fwd.h"@.len() == 30);
    assert("mongoac/drop_collection_options-fwd.h"@.len() == 37);
    assert("mongoac/error-fwd.h"@.len() == 19);
    assert("mongoac/estimated_document_count_options-fwd.h"@.len() == 46);
    assert("mongoac/find_one_options-fwd.h"@.len() == 30);
    assert("mongoac/find_options-fwd.h"@.len() == 26);
    assert("mongoac/future-fwd.h"@.len() == 20);
    assert("mongoac/insert_many_options-fwd.h"@.len() == 33);
    assert("mongoac/insert_one_options-fwd.h"@.len() == 32);
    assert("mongoac/replace_options-fwd.h"@.len() == 29);
    assert("mongoac/string-fwd.h"@.len() == 20);
    assert("mongoac/string.h"@.len() == 16);
    assert("mongoac/update_options-fwd.h"@.len() == 28);
    assert("stdint.h"@.len() == 8);
    reveal_strlit("mongoac/collection-fwd.h");
    assert("mongoac/collection-fwd.h"@.len() == 24);
    assert(forward_header("collection"@) =~= "mongoac/collection-fwd.h"@);
    assert("mongoac/client_session-fwd.h"@[8] != "mongoac/delete_options-fwd.h"@[8]);
    assert("mongoac/client_session-fwd.h"@[8] != "mongoac/update_options-fwd.h"@[8]);
    assert("mongoac/collection_options-fwd.h"@[8] != "mongoac/insert_one_options-fwd.h"@[8]);
    assert("mongoac/cursor-fwd.h"@[8] != "mongoac/future-fwd.h"@[8]);
    assert("mongoac/cursor-fwd.h"@[8] != "mongoac/string-fwd.h"@[8]);
    assert("mongoac/delete_options-fwd.h"@[8] != "mongoac/update_options-fwd.h"@[8]);
    assert("mongoac/distinct_options-fwd.h"@[8] != "mongoac/find_one_options-fwd.h"@[8]);
    assert("mongoac/future-fwd.h"@[8] != "mongoac/string-fwd.h"@[8]);
    let s = seq!["mongoac/database-fwd.h"@, "mongoac/client_session-fwd.h"@, "mongoac/cursor-fwd.h"@, "mongoac/error-fwd.h"@, "mongoac/future-fwd.h"@, "mongoac/drop_collection_options-fwd.h"@, "mongoac/insert_one_options-fwd.h"@, "mongoac/insert_many_options-fwd.h"@, "mongoac/find_options-fwd.h"@, "mongoac/find_one_options-fwd.h"@, "mongoac/delete_options-fwd.h"@, "mongoac/replace_options-fwd.h"@, "mongoac/update_options-fwd.h"@, "mongoac/count_options-fwd.h"@, "mongoac/estimated_document_count_options-fwd.h"@, "mongoac/distinct_options-fwd.h"@, "mongoac/aggregate_options-fwd.h"@, "mongoac/collection_options-fwd.h"@, "mongoac/bson.h"@, "mongoac/string.h"@, "stdint.h"@];
    assert(s.no_duplicates());
    assert(!s.contains("mongoac/collection-fwd.h"@));
}

proof fn includes_sound_6()
    ensures
        includes_are_sound(seq!["mongoac/error-fwd.h"@, "mongoac/bson.h"@], "create_collection_options"@),
{
    reveal_strlit("-fwd.h");
    reveal_strlit("create_collection_options");
    reveal_strlit("mongoac/");
    reveal_strlit("mongoac/bson-fwd.h");
    reveal_strlit("mongoac/bson.h");
    reveal_strlit("mongoac/cursor_type-fwd.h");
    reveal_strlit("mongoac/error-fwd.h");
    reveal_strlit("mongoac/string-fwd.h");
    assert("-fwd.h"@.len() == 6);
    assert("create_collection_options"@.len() == 25);
    assert("mongoac/"@.len() == 8);
    assert("mongoac/bson-fwd.h"@.len() == 18);
    assert("mongoac/bson.h"@.len() == 14);
    assert("mongoac/cursor_type-fwd.h"@.len() == 25);
    assert("mongoac/error-fwd.h"@.len() == 19);
    assert("mongoac/string-fwd.h"@.len() == 20);
    reveal_strlit("mongoac/create_collection_options-fwd.h");
    assert("mongoac/create_collection_options-fwd.h"@.len() == 39);
    assert(forward_header("create_collection_options"@) =~= "mongoac/create_collection_options-fwd.h"@);
    let s = seq!["mongoac/error-fwd.h"@, "mongoac/bson.h"@];
    assert(s.no_duplicates());
    assert(!s.contains("mongoac/create_collection_options-fwd.h"@));
}

proof fn includes_sound_7()
    ensures
        includes_are_sound(seq!["mongoac/read_concern-fwd.h"@, "mongoac/write_concern-fwd.h"@, "mongoac/read_preference-fwd.h"@, "mongoac/server_selector-fwd.h"@], "collection_options"@),
{
    reveal_strlit("-fwd.h");
    reveal_strlit("collection_options");
    reveal_strlit("mongoac/");
    reveal_strlit("mongoac/bson-fwd.h");
    reveal_strlit("mongoac/cursor_type-fwd.h");
    reveal_strlit("mongoac/read_concern-fwd.h");
    reveal_strlit("mongoac/read_preference-fwd.h");
    reveal_strlit("mongoac/server_selector-fwd.h");
    reveal_strlit("mongoac/string-fwd.h");
    reveal_strlit("mongoac/write_concern-fwd.h");
    assert("-fwd.h"@.len() == 6);
    assert("collection_options"@.len() == 18);
    assert("mongoac/"@.len() == 8);
    assert("mongoac/bson-fwd.h"@.len() == 18);
    assert("mongoac/cursor_type-fwd.h"@.len() == 25);
    assert("mongoac/read_concern-fwd.h"@.len() == 26);
    assert("mongoac/read_preference-fwd.h"@.len() == 29);
    assert("mongoac/server_selector-fwd.h"@.len() == 29);
    assert("mongoac/string-fwd.h"@.len() == 20);
    assert("mongoac/write_concern-fwd.h"@.len() == 27);
    reveal_strlit("mongoac/collection_options-fwd.h");
    assert("mongoac/collection_options-fwd.h"@.len() == 32);
    assert(forward_header("collection_options"@) =~= "mongoac/collection_options-fwd.h"@);
    assert("mongoac/read_preference-fwd.h"@[8] != "mongoac/server_selector-fwd.h"@[8]);
    let s = seq!["mongoac/read_concern-fwd.h"@, "mongoac/write_concern-fwd.h"@, "mongoac/read_preference-fwd.h"@, "mongoac/server_selector-fwd.h"@];
    assert(s.no_duplicates());
    assert(!s.contains("mongoac/collection_options-fwd.h"@));
}

proof fn includes_sound_8()
    ensures
        includes_are_sound(seq!["mongoac/error-fwd.h"@, "mongoac/bson.h"@, "mongoac/string.h"@, "stdint.h"@], "credential"@),
{
    reveal_strlit("-fwd.h");
    reveal_strlit("credential");
    reveal_strlit("mongoac/");
    reveal_strlit("mongoac/bson-fwd.h");
    reveal_strlit("mongoac/bson.h");
    reveal_strlit("mongoac/cursor_type-fwd.h");
    reveal_strlit("mongoac/error-fwd.h");
    reveal_strlit("mongoac/string-fwd.h");
    reveal_strlit("mongoac/string.h");
    reveal_strlit("stdint.h");
    assert("-fwd.h"@.len() == 6);
    assert("credential"@.len() == 10);
    assert("mongoac/"@.len() == 8);
    assert("mongoac/bson-fwd.h"@.len() == 18);
    assert("mongoac/bson.h"@.len() == 14);
    assert("mongoac/cursor_type-fwd.h"@.len() == 25);
    assert("mongoac/error-fwd.h"@.len() == 19);
    assert("mongoac/string-fwd.h"@.len() == 20);
    assert("mongoac/string.h"@.len() == 16);
    assert("stdint.h"@.len() == 8);
    reveal_strlit("mongoac/credential-fwd.h");
    assert("mongoac/credential-fwd.h"@.len() == 24);
    assert(forward_header("credential"@) =~= "mongoac/credential-fwd.h"@);
    let s = seq!["mongoac/error-fwd.h"@, "mongoac/bson.h"@, "mongoac/string.h"@, "stdint.h"@];
    assert(s.no_duplicates());
    assert(!s.contains("mongoac/credential-fwd.h"@));
}

proof fn includes_sound_9()
    ensures
        includes_are_sound(seq!["stdint.h"@], "cursor_type"@),
{
    reveal_strlit("-fwd.h");
    reveal_strlit("cursor_type");
    reveal_strlit("mongoac/");
    reveal_strlit("mongoac/bson-fwd.h");
    reveal_strlit("mongoac/cursor_type-fwd.h");
    reveal_strlit("mongoac/string-fwd.h");
    reveal_strlit("stdint.h");
    assert("-fwd.h"@.len() == 6);
    assert("cursor_type"@.len() == 11);
    assert("mongoac/"@.len() == 8);
    assert("mongoac/bson-fwd.h"@.len() == 18);
    assert("mongoac/cursor_type-fwd.h"@.len() == 25);
    assert("mongoac/string-fwd.h"@.len() == 20);
    assert("stdint.h"@.len() == 8);
    reveal_strlit("mongoac/cursor_type-fwd.h");
    assert("mongoac/cursor_type-fwd.h"@.len() == 25);
    assert(forward_header("cursor_type"@) =~= "mongoac/cursor_type-fwd.h"@);
    let s = seq!["stdint.h"@];
    assert(s.no_duplicates());
    assert(!s.contains("mongoac/cursor_type-fwd.h"@));
}

proof fn includes_sound_10()
    ensures
        includes_are_sound(seq!["mongoac/error-fwd.h"@, "mongoac/future-fwd.h"@, "mongoac/bson.h"@, "stdbool.h"@], "cursor"@),
{
    reveal_strlit("-fwd.h");
    reveal_strlit("cursor");
    reveal_strlit("mongoac/");
    reveal_strlit("mongoac/bson-fwd.h");
    reveal_strlit("mongoac/bson.h");
    reveal_strlit("mongoac/cursor_type-fwd.h");
    reveal_strlit("mongoac/error-fwd.h");
    reveal_strlit("mongoac/future-fwd.h");
    reveal_strlit("mongoac/string-fwd.h");
    reveal_strlit("stdbool.h");
    assert("-fwd.h"@.len() == 6);
    assert("cursor"@.len() == 6);
    assert("mongoac/"@.len() == 8);
    assert("mongoac/bson-fwd.h"@.len() == 18);
    assert("mongoac/bson.h"@.len() == 14);
    assert("mongoac/cursor_type-fwd.h"@.len() == 25);
    assert("mongoac/error-fwd.h"@.len() == 19);
    assert("mongoac/future-fwd.h"@.len() == 20);
    assert("mongoac/string-fwd.h"@.len() == 20);
    assert("stdbool.h"@.len() == 9);
    reveal_strlit("mongoac/cursor-fwd.h");
    assert("mongoac/cursor-fwd.h"@.len() == 20);
    assert(forward_header("cursor"@) =~= "mongoac/cursor-fwd.h"@);
    assert("mongoac/cursor-fwd.h"@[8] != "mongoac/future-fwd.h"@[8]);
    assert("mongoac/future-fwd.h"@[8] != "mongoac/string-fwd.h"@[8]);
    let s = seq!["mongoac/error-fwd.h"@, "mongoac/future-fwd.h"@, "mongoac/bson.h"@, "stdbool.h"@];
    assert(s.no_duplicates());
    assert(!s.contains("mongoac/cursor-fwd.h"@));
}

proof fn includes_sound_11()
    ensures
        includes_are_sound(seq!["mongoac/client-fwd.h"@, "mongoac/client_session-fwd.h"@, "mongoac/cursor-fwd.h"@, "mongoac/error-fwd.h"@, "mongoac/future-fwd.h"@, "mongoac/list_collections_options-fwd.h"@, "mongoac/drop_database_options-fwd.h"@, "mongoac/database_options-fwd.h"@, "mongoac/create_collection_options-fwd.h"@, "mongoac/run_command_options-fwd.h"@, "mongoac/run_cursor_command_options-fwd.h"@, "mongoac/bson.h"@, "mongoac/string.h"@], "database"@),
{
    reveal_strlit("-fwd.h");
    reveal_strlit("database");
    reveal_strlit("mongoac/");
    reveal_strlit("mongoac/bson-fwd.h");
    reveal_strlit("mongoac/bson.h");
    reveal_strlit("mongoac/client-fwd.h");
    reveal_strlit("mongoac/client_session-fwd.h");
    reveal_strlit("mongoac/create_collection_options-fwd.h");
    reveal_strlit("mongoac/cursor-fwd.h");
    reveal_strlit("mongoac/cursor_type-fwd.h");
    reveal_strlit("mongoac/database_options-fwd.h");
    reveal_strlit("mongoac/drop_database_options-fwd.h");
    reveal_strlit("mongoac/error-fwd.h");
    reveal_strlit("mongoac/future-fwd.h");
    reveal_strlit("mongoac/list_collections_options-fwd.h");
    reveal_strlit("mongoac/run_command_options-fwd.h");
    reveal_strlit("mongoac/run_cursor_command_options-fwd.h");
    reveal_strlit("mongoac/string-fwd.h");
    reveal_strlit("mongoac/string.h");
    assert("-fwd.h"@.len() == 6);
    assert("database"@.len() == 8);
    assert("mongoac/"@.len() == 8);
    assert("mongoac/bson-fwd.h"@.len() == 18);
    assert("mongoac/bson.h"@.len() == 14);
    assert("mongoac/client-fwd.h"@.len() == 20);
    assert("mongoac/client_session-fwd.h"@.len() == 28);
    assert("mongoac/create_collection_options-fwd.h"@.len() == 39);
    assert("mongoac/cursor-fwd.h"@.len() == 20);
    assert("mongoac/cursor_type-fwd.h"@.len() == 25);
    assert("mongoac/database_options-fwd.h"@.len() == 30);
    assert("mongoac/drop_database_options-fwd.h"@.len() == 35);
    assert("mongoac/error-fwd.h"@.len() == 19);
    assert("mongoac/future-fwd.h"@.len() == 20);
    assert("mongoac/list_collections_options-fwd.h"@.len() == 38);
    assert("mongoac/run_command_options-fwd.h"@.len() == 33);
    assert("mongoac/run_cursor_command_options-fwd.h"@.len() == 40);
    assert("mongoac/string-fwd.h"@.len() == 20);
    assert("mongoac/string.h"@.len() == 16);
    reveal_strlit("mongoac/database-fwd.h");
    assert("mongoac/database-fwd.h"@.len() == 22);
    assert(forward_header("database"@) =~= "mongoac/database-fwd.h"@);
    assert("mongoac/client-fwd.h"@[9] != "mongoac/cursor-fwd.h"@[9]);
    assert("mongoac/client-fwd.h"@[8] != "mongoac/future-fwd.h"@[8]);
    assert("mongoac/client-fwd.h"@[8] != "mongoac/string-fwd.h"@[8]);
    assert("mongoac/cursor-fwd.h"@[8] != "mongoac/future-fwd.h"@[8]);
    assert("mongoac/cursor-fwd.h"@[8] != "mongoac/string-fwd.h"@[8]);
    assert("mongoac/future-fwd.h"@[8] != "mongoac/string-fwd.h"@[8]);
    let s = seq!["mongoac/client-fwd.h"@, "mongoac/client_session-fwd.h"@, "mongoac/cursor-fwd.h"@, "mongoac/error-fwd.h"@, "mongoac/future-fwd.h"@, "mongoac/list_collections_options-fwd.h"@, "mongoac/drop_database_options-fwd.h"@, "mongoac/database_options-fwd.h"@, "mongoac/create_collection_options-fwd.h"@, "mongoac/run_command_options-fwd.h"@, "mongoac/run_cursor_command_options-fwd.h"@, "mongoac/bson.h"@, "mongoac/string.h"@];
    assert(s.no_duplicates());
    assert(!s.contains("mongoac/database-fwd.h"@));
}

proof fn includes_sound_12()
    ensures
        includes_are_sound(seq!["mongoac/read_concern-fwd.h"@, "mongoac/write_concern-fwd.h"@, "mongoac/read_preference-fwd.h"@, "mongoac/server_selector-fwd.h"@], "database_options"@),
{
    reveal_strlit("-fwd.h");
    reveal_strlit("database_options");
    reveal_strlit("mongoac/");
    reveal_strlit("mongoac/bson-fwd.h");
    reveal_strlit("mongoac/cursor_type-fwd.h");
    reveal_strlit("mongoac/read_concern-fwd.h");
    reveal_strlit("mongoac/read_preference-fwd.h");
    reveal_strlit("mongoac/server_selector-fwd.h");
    reveal_strlit("mongoac/string-fwd.h");
    reveal_strlit("mongoac/write_concern-fwd.h");
    assert("-fwd.h"@.len() == 6);
    assert("database_options"@.len() == 16);
    assert("mongoac/"@.len() == 8);
    assert("mongoac/bson-fwd.h"@.len() == 18);
    assert("mongoac/cursor_type-fwd.h"@.len() == 25);
    assert("mongoac/read_concern-fwd.h"@.len() == 26);
    assert("mongoac/read_preference-fwd.h"@.len() == 29);
    assert("mongoac/server_selector-fwd.h"@.len() == 29);
    assert("mongoac/string-fwd.h"@.len() == 20);
    assert("mongoac/write_concern-fwd.h"@.len() == 27);
    reveal_strlit("mongoac/database_options-fwd.h");
    assert("mongoac/database_options-fwd.h"@.len() == 30);
    assert(forward_header("database_options"@) =~= "mongoac/database_options-fwd.h"@);
    assert("mongoac/read_preference-fwd.h"@[8] != "mongoac/server_selector-fwd.h"@[8]);
    let s = seq!["mongoac/read_concern-fwd.h"@, "mongoac/write_concern-fwd.h"@, "mongoac/read_preference-fwd.h"@, "mongoac/server_selector-fwd.h"@];
    assert(s.no_duplicates());
    assert(!s.contains("mongoac/database_options-fwd.h"@));
}

proof fn includes_sound_13()
    ensures
        includes_are_sound(seq!["mongoac/error-fwd.h"@, "mongoac/write_concern-fwd.h"@, "mongoac/bson.h"@], "delete_options"@),
{
    reveal_strlit("-fwd.h");
    reveal_strlit("delete_options");
    reveal_strlit("mongoac/");
    reveal_strlit("mongoac/bson-fwd.h");
    reveal_strlit("mongoac/bson.h");
    reveal_strlit("mongoac/cursor_type-fwd.h");
    reveal_strlit("mongoac/error-fwd.h");
    reveal_strlit("mongoac/string-fwd.h");
    reveal_strlit("mongoac/write_concern-fwd.h");
    assert("-fwd.h"@.len() == 6);
    assert("delete_options"@.len() == 14);
    assert("mongoac/"@.len() == 8);
    assert("mongoac/bson-fwd.h"@.len() == 18);
    assert("mongoac/bson.h"@.len() == 14);
    assert("mongoac/cursor_type-fwd.h"@.len() == 25);
    assert("mongoac/error-fwd.h"@.len() == 19);
    assert("mongoac/string-fwd.h"@.len() == 20);
    assert("mongoac/write_concern-fwd.h"@.len() == 27);
    reveal_strlit("mongoac/delete_options-fwd.h");
    assert("mongoac/delete_options-fwd.h"@.len() == 28);
    assert(forward_header("delete_options"@) =~= "mongoac/delete_options-fwd.h"@);
    let s = seq!["mongoac/error-fwd.h"@, "mongoac/write_concern-fwd.h"@, "mongoac/bson.h"@];
    assert(s.no_duplicates());
    assert(!s.contains("mongoac/delete_options-fwd.h"@));
}

proof fn includes_sound_14()
    ensures
        includes_are_sound(seq!["mongoac/error-fwd.h"@, "mongoac/write_concern-fwd.h"@, "mongoac/bson.h"@, "stdbool.h"@], "replace_options"@),
{
    reveal_strlit("-fwd.h");
    reveal_strlit("mongoac/");
    reveal_strlit("mongoac/bson-fwd.h");
    reveal_strlit("mongoac/bson.h");
    reveal_strlit("mongoac/cursor_type-fwd.h");
    reveal_strlit("mongoac/error-fwd.h");
    reveal_strlit("mongoac/string-fwd.h");
    reveal_strlit("mongoac/write_concern-fwd.h");
    reveal_strlit("replace_options");
    reveal_strlit("stdbool.h");
    assert("-fwd.h"@.len() == 6);
    assert("mongoac/"@.len() == 8);
    assert("mongoac/bson-fwd.h"@.len() == 18);
    assert("mongoac/bson.h"@.len() == 14);
    assert("mongoac/cursor_type-fwd.h"@.len() == 25);
    assert("mongoac/error-fwd.h"@.len() == 19);
    assert("mongoac/string-fwd.h"@.len() == 20);
    assert("mongoac/write_concern-fwd.h"@.len() == 27);
    assert("replace_options"@.len() == 15);
    assert("stdbool.h"@.len() == 9);
    reveal_strlit("mongoac/replace_options-fwd.h");
    assert("mongoac/replace_options-fwd.h"@.len() == 29);
    assert(forward_header("replace_options"@) =~= "mongoac/replace_options-fwd.h"@);
    let s = seq!["mongoac/error-fwd.h"@, "mongoac/write_concern-fwd.h"@, "mongoac/bson.h"@, "stdbool.h"@];
    assert(s.no_duplicates());
    assert(!s.contains("mongoac/replace_options-fwd.h"@));
}

proof fn includes_sound_15()
    ensures
        includes_are_sound(seq!["mongoac/error-fwd.h"@, "mongoac/write_concern-fwd.h"@, "mongoac/bson.h"@, "stdbool.h"@], "update_options"@),
{
    reveal_strlit("-fwd.h");
    reveal_strlit("mongoac/");
    reveal_strlit("mongoac/bson-fwd.h");
    reveal_strlit("mongoac/bson.h");
    reveal_strlit("mongoac/cursor_type-fwd.h");
    reveal_strlit("mongoac/error-fwd.h");
    reveal_strlit("mongoac/string-fwd.h");
    reveal_strlit("mongoac/write_concern-fwd.h");
    reveal_strlit("stdbool.h");
    reveal_strlit("update_options");
    assert("-fwd.h"@.len() == 6);
    assert("mongoac/"@.len() == 8);
    assert("mongoac/bson-fwd.h"@.len() == 18);
    assert("mongoac/bson.h"@.len() == 14);
    assert("mongoac/cursor_type-fwd.h"@.len() == 25);
    assert("mongoac/error-fwd.h"@.len() == 19);
    assert("mongoac/string-fwd.h"@.len() == 20);
    assert("mongoac/write_concern-fwd.h"@.len() == 27);
    assert("stdbool.h"@.len() == 9);
    assert("update_options"@.len() == 14);
    reveal_strlit("mongoac/update_options-fwd.h");
    assert("mongoac/update_options-fwd.h"@.len() == 28);
    assert(forward_header("update_options"@) =~= "mongoac/update_options-fwd.h"@);
    let s = seq!["mongoac/error-fwd.h"@, "mongoac/write_concern-fwd.h"@, "mongoac/bson.h"@, "stdbool.h"@];
    assert(s.no_duplicates());
    assert(!s.contains("mongoac/update_options-fwd.h"@));
}

proof fn includes_sound_16()
    ensures
        includes_are_sound(seq!["mongoac/error-fwd.h"@, "mongoac/read_concern-fwd.h"@, "mongoac/bson.h"@, "stdint.h"@], "count_options"@),
{
    reveal_strlit("-fwd.h");
    reveal_strlit("count_options");
    reveal_strlit("mongoac/");
    reveal_strlit("mongoac/bson-fwd.h");
    reveal_strlit("mongoac/bson.h");
    reveal_strlit("mongoac/cursor_type-fwd.h");
    reveal_strlit("mongoac/error-fwd.h");
    reveal_strlit("mongoac/read_concern-fwd.h");
    reveal_strlit("mongoac/string-fwd.h");
    reveal_strlit("stdint.h");
    assert("-fwd.h"@.len() == 6);
    assert("count_options"@.len() == 13);
    assert("mongoac/"@.len() == 8);
    assert("mongoac/bson-fwd.h"@.len() == 18);
    assert("mongoac/bson.h"@.len() == 14);
    assert("mongoac/cursor_type-fwd.h"@.len() == 25);
    assert("mongoac/error-fwd.h"@.len() == 19);
    assert("mongoac/read_concern-fwd.h"@.len() == 26);
    assert("mongoac/string-fwd.h"@.len() == 20);
    assert("stdint.h"@.len() == 8);
    reveal_strlit("mongoac/count_options-fwd.h");
    assert("mongoac/count_options-fwd.h"@.len() == 27);
    assert(forward_header("count_options"@) =~= "mongoac/count_options-fwd.h"@);
    let s = seq!["mongoac/error-fwd.h"@, "mongoac/read_concern-fwd.h"@, "mongoac/bson.h"@, "stdint.h"@];
    assert(s.no_duplicates());
    assert(!s.contains("mongoac/count_options-fwd.h"@));
}

proof fn includes_sound_17()
    ensures
        includes_are_sound(seq!["mongoac/error-fwd.h"@, "mongoac/read_concern-fwd.h"@, "mongoac/bson.h"@, "stdint.h"@], "estimated_document_count_options"@),
{
    reveal_strlit("-fwd.h");
    reveal_strlit("estimated_document_count_options");
    reveal_strlit("mongoac/");
    reveal_strlit("mongoac/bson-fwd.h");
    reveal_strlit("mongoac/bson.h");
    reveal_strlit("mongoac/cursor_type-fwd.h");
    reveal_strlit("mongoac/error-fwd.h");
    reveal_strlit("mongoac/read_concern-fwd.h");
    reveal_strlit("mongoac/string-fwd.h");
    reveal_strlit("stdint.h");
    assert("-fwd.h"@.len() == 6);
    assert("estimated_document_count_options"@.len() == 32);
    assert("mongoac/"@.len() == 8);
    assert("mongoac/bson-fwd.h"@.len() == 18);
    assert("mongoac/bson.h"@.len() == 14);
    assert("mongoac/cursor_type-fwd.h"@.len() == 25);
    assert("mongoac/error-fwd.h"@.len() == 19);
    assert("mongoac/read_concern-fwd.h"@.len() == 26);
    assert("mongoac/string-fwd.h"@.len() == 20);
    assert("stdint.h"@.len() == 8);
    reveal_strlit("mongoac/estimated_document_count_options-fwd.h");
    assert("mongoac/estimated_document_count_options-fwd.h"@.len() == 46);
    assert(forward_header("estimated_document_count_options"@) =~= "mongoac/estimated_document_count_options-fwd.h"@);
    let s = seq!["mongoac/error-fwd.h"@, "mongoac/read_concern-fwd.h"@, "mongoac/bson.h"@, "stdint.h"@];
    assert(s.no_duplicates());
    assert(!s.contains("mongoac/estimated_document_count_options-fwd.h"@));
}

proof fn includes_sound_18()
    ensures
        includes_are_sound(seq!["mongoac/error-fwd.h"@, "mongoac/read_concern-fwd.h"@, "mongoac/bson.h"@, "stdint.h"@], "distinct_options"@),
{
    reveal_strlit("-fwd.h");
    reveal_strlit("distinct_options");
    reveal_strlit("mongoac/");
    reveal_strlit("mongoac/bson-fwd.h");
    reveal_strlit("mongoac/bson.h");
    reveal_strlit("mongoac/cursor_type-fwd.h");
    reveal_strlit("mongoac/error-fwd.h");
    reveal_strlit("mongoac/read_concern-fwd.h");
    reveal_strlit("mongoac/string-fwd.h");
    reveal_strlit("stdint.h");
    assert("-fwd.h"@.len() == 6);
    assert("distinct_options"@.len() == 16);
    assert("mongoac/"@.len() == 8);
    assert("mongoac/bson-fwd.h"@.len() == 18);
    assert("mongoac/bson.h"@.len() == 14);
    assert("mongoac/cursor_type-fwd.h"@.len() == 25);
    assert("mongoac/error-fwd.h"@.len() == 19);
    assert("mongoac/read_concern-fwd.h"@.len() == 26);
    assert("mongoac/string-fwd.h"@.len() == 20);
    assert("stdint.h"@.len() == 8);
    reveal_strlit("mongoac/distinct_options-fwd.h");
    assert("mongoac/distinct_options-fwd.h"@.len() == 30);
    assert(forward_header("distinct_options"@) =~= "mongoac/distinct_options-fwd.h"@);
    let s = seq!["mongoac/error-fwd.h"@, "mongoac/read_concern-fwd.h"@, "mongoac/bson.h"@, "stdint.h"@];
    assert(s.no_duplicates());
    assert(!s.contains("mongoac/distinct_options-fwd.h"@));
}

proof fn includes_sound_19()
    ensures
        includes_are_sound(seq!["mongoac/write_concern-fwd.h"@], "drop_collection_options"@),
{
    reveal_strlit("-fwd.h");
    reveal_strlit("drop_collection_options");
    reveal_strlit("mongoac/");
    reveal_strlit("mongoac/bson-fwd.h");
    reveal_strlit("mongoac/cursor_type-fwd.h");
    reveal_strlit("mongoac/string-fwd.h");
    reveal_strlit("mongoac/write_concern-fwd.h");
    assert("-fwd.h"@.len() == 6);
    assert("drop_collection_options"@.len() == 23);
    assert("mongoac/"@.len() == 8);
    assert("mongoac/bson-fwd.h"@.len() == 18);
    assert("mongoac/cursor_type-fwd.h"@.len() == 25);
    assert("mongoac/string-fwd.h"@.len() == 20);
    assert("mongoac/write_concern-fwd.h"@.len() == 27);
    reveal_strlit("mongoac/drop_collection_options-fwd.h");
    assert("mongoac/drop_collection_options-fwd.h"@.len() == 37);
    assert(forward_header("drop_collection_options"@) =~= "mongoac/drop_collection_options-fwd.h"@);
    let s = seq!["mongoac/write_concern-fwd.h"@];
    assert(s.no_duplicates());
    assert(!s.contains("mongoac/drop_collection_options-fwd.h"@));
}

proof fn includes_sound_20()
    ensures
        includes_are_sound(seq!["mongoac/write_concern-fwd.h"@], "drop_database_options"@),
{
    reveal_strlit("-fwd.h");
    reveal_strlit("drop_database_options");
    reveal_strlit("mongoac/");
    reveal_strlit("mongoac/bson-fwd.h");
    reveal_strlit("mongoac/cursor_type-fwd.h");
    reveal_strlit("mongoac/string-fwd.h");
    reveal_strlit("mongoac/write_concern-fwd.h");
    assert("-fwd.h"@.len() == 6);
    assert("drop_database_options"@.len() == 21);
    assert("mongoac/"@.len() == 8);
    assert("mongoac/bson-fwd.h"@.len() == 18);
    assert("mongoac/cursor_type-fwd.h"@.len() == 25);
    assert("mongoac/string-fwd.h"@.len() == 20);
    assert("mongoac/write_concern-fwd.h"@.len() == 27);
    reveal_strlit("mongoac/drop_database_options-fwd.h");
    assert("mongoac/drop_database_options-fwd.h"@.len() == 35);
    assert(forward_header("drop_database_options"@) =~= "mongoac/drop_database_options-fwd.h"@);
    let s = seq!["mongoac/write_concern-fwd.h"@];
    assert(s.no_duplicates());
    assert(!s.contains("mongoac/drop_database_options-fwd.h"@));
}

proof fn includes_sound_21()
    ensures
        includes_are_sound(seq!["mongoac/string.h"@, "stdbool.h"@, "stdint.h"@], "error"@),
{
    reveal_strlit("-fwd.h");
    reveal_strlit("error");
    reveal_strlit("mongoac/");
    reveal_strlit("mongoac/bson-fwd.h");
    reveal_strlit("mongoac/cursor_type-fwd.h");
    reveal_strlit("mongoac/string-fwd.h");
    reveal_strlit("mongoac/string.h");
    reveal_strlit("stdbool.h");
    reveal_strlit("stdint.h");
    assert("-fwd.h"@.len() == 6);
    assert("error"@.len() == 5);
    assert("mongoac/"@.len() == 8);
    assert("mongoac/bson-fwd.h"@.len() == 18);
    assert("mongoac/cursor_type-fwd.h"@.len() == 25);
    assert("mongoac/string-fwd.h"@.len() == 20);
    assert("mongoac/string.h"@.len() == 16);
    assert("stdbool.h"@.len() == 9);
    assert("stdint.h"@.len() == 8);
    reveal_strlit("mongoac/error-fwd.h");
    assert("mongoac/error-fwd.h"@.len() == 19);
    assert(forward_header("error"@) =~= "mongoac/error-fwd.h"@);
    let s = seq!["mongoac/string.h"@, "stdbool.h"@, "stdint.h"@];
    assert(s.no_duplicates());
    assert(!s.contains("mongoac/error-fwd.h"@));
}

proof fn includes_sound_22()
    ensures
        includes_are_sound(seq!["mongoac/error-fwd.h"@, "mongoac/bson.h"@], "find_options"@),
{
    reveal_strlit("-fwd.h");
    reveal_strlit("find_options");
    reveal_strlit("mongoac/");
    reveal_strlit("mongoac/bson-fwd.h");
    reveal_strlit("mongoac/bson.h");
    reveal_strlit("mongoac/cursor_type-fwd.h");
    reveal_strlit("mongoac/error-fwd.h");
    reveal_strlit("mongoac/string-fwd.h");
    assert("-fwd.h"@.len() == 6);
    assert("find_options"@.len() == 12);
    assert("mongoac/"@.len() == 8);
    assert("mongoac/bson-fwd.h"@.len() == 18);
    assert("mongoac/bson.h"@.len() == 14);
    assert("mongoac/cursor_type-fwd.h"@.len() == 25);
    assert("mongoac/error-fwd.h"@.len() == 19);
    assert("mongoac/string-fwd.h"@.len() == 20);
    reveal_strlit("mongoac/find_options-fwd.h");
    assert("mongoac/find_options-fwd.h"@.len() == 26);
    assert(forward_header("find_options"@) =~= "mongoac/find_options-fwd.h"@);
    let s = seq!["mongoac/error-fwd.h"@, "mongoac/bson.h"@];
    assert(s.no_duplicates());
    assert(!s.contains("mongoac/find_options-fwd.h"@));
}

proof fn includes_sound_23()
    ensures
        includes_are_sound(seq!["mongoac/error-fwd.h"@, "mongoac/bson.h"@], "find_one_options"@),
{
    reveal_strlit("-fwd.h");
    reveal_strlit("find_one_options");
    reveal_strlit("mongoac/");
    reveal_strlit("mongoac/bson-fwd.h");
    reveal_strlit("mongoac/bson.h");
    reveal_strlit("mongoac/cursor_type-fwd.h");
    reveal_strlit("mongoac/error-fwd.h");
    reveal_strlit("mongoac/string-fwd.h");
    assert("-fwd.h"@.len() == 6);
    assert("find_one_options"@.len() == 16);
    assert("mongoac/"@.len() == 8);
    assert("mongoac/bson-fwd.h"@.len() == 18);
    assert("mongoac/bson.h"@.len() == 14);
    assert("mongoac/cursor_type-fwd.h"@.len() == 25);
    assert("mongoac/error-fwd.h"@.len() == 19);
    assert("mongoac/string-fwd.h"@.len() == 20);
    reveal_strlit("mongoac/find_one_options-fwd.h");
    assert("mongoac/find_one_options-fwd.h"@.len() == 30);
    assert(forward_header("find_one_options"@) =~= "mongoac/find_one_options-fwd.h"@);
    let s = seq!["mongoac/error-fwd.h"@, "mongoac/bson.h"@];
    assert(s.no_duplicates());
    assert(!s.contains("mongoac/find_one_options-fwd.h"@));
}

proof fn includes_sound_24()
    ensures
        includes_are_sound(seq!["mongoac/error-fwd.h"@, "mongoac/runtime-fwd.h"@, "mongoac/bson.h"@, "stdbool.h"@, "stdint.h"@], "future"@),
{
    reveal_strlit("-fwd.h");
    reveal_strlit("future");
    reveal_strlit("mongoac/");
    reveal_strlit("mongoac/bson-fwd.h");
    reveal_strlit("mongoac/bson.h");
    reveal_strlit("mongoac/cursor_type-fwd.h");
    reveal_strlit("mongoac/error-fwd.h");
    reveal_strlit("mongoac/runtime-fwd.h");
    reveal_strlit("mongoac/string-fwd.h");
    reveal_strlit("stdbool.h");
    reveal_strlit("stdint.h");
    assert("-fwd.h"@.len() == 6);
    assert("future"@.len() == 6);
    assert("mongoac/"@.len() == 8);
    assert("mongoac/bson-fwd.h"@.len() == 18);
    assert("mongoac/bson.h"@.len() == 14);
    assert("mongoac/cursor_type-fwd.h"@.len() == 25);
    assert("mongoac/error-fwd.h"@.len() == 19);
    assert("mongoac/runtime-fwd.h"@.len() == 21);
    assert("mongoac/string-fwd.h"@.len() == 20);
    assert("stdbool.h"@.len() == 9);
    assert("stdint.h"@.len() == 8);
    reveal_strlit("mongoac/future-fwd.h");
    assert("mongoac/future-fwd.h"@.len() == 20);
    assert(forward_header("future"@) =~= "mongoac/future-fwd.h"@);
    let s = seq!["mongoac/error-fwd.h"@, "mongoac/runtime-fwd.h"@, "mongoac/bson.h"@, "stdbool.h"@, "stdint.h"@];
    assert(s.no_duplicates());
    assert(!s.contains("mongoac/future-fwd.h"@));
}

proof fn includes_sound_25()
    ensures
        includes_are_sound(seq!["mongoac/error-fwd.h"@, "mongoac/write_concern-fwd.h"@, "mongoac/bson.h"@, "stdbool.h"@], "insert_many_options"@),
{
    reveal_strlit("-fwd.h");
    reveal_strlit("insert_many_options");
    reveal_strlit("mongoac/");
    reveal_strlit("mongoac/bson-fwd.h");
    reveal_strlit("mongoac/bson.h");
    reveal_strlit("mongoac/cursor_type-fwd.h");
    reveal_strlit("mongoac/error-fwd.h");
    reveal_strlit("mongoac/string-fwd.h");
    reveal_strlit("mongoac/write_concern-fwd.h");
    reveal_strlit("stdbool.h");
    assert("-fwd.h"@.len() == 6);
    assert("insert_many_options"@.len() == 19);
    assert("mongoac/"@.len() == 8);
    assert("mongoac/bson-fwd.h"@.len() == 18);
    assert("mongoac/bson.h"@.len() == 14);
    assert("mongoac/cursor_type-fwd.h"@.len() == 25);
    assert("mongoac/error-fwd.h"@.len() == 19);
    assert("mongoac/string-fwd.h"@.len() == 20);
    assert("mongoac/write_concern-fwd.h"@.len() == 27);
    assert("stdbool.h"@.len() == 9);
    reveal_strlit("mongoac/insert_many_options-fwd.h");
    assert("mongoac/insert_many_options-fwd.h"@.len() == 33);
    assert(forward_header("insert_many_options"@) =~= "mongoac/insert_many_options-fwd.h"@);
    let s = seq!["mongoac/error-fwd.h"@, "mongoac/write_concern-fwd.h"@, "mongoac/bson.h"@, "stdbool.h"@];
    assert(s.no_duplicates());
    assert(!s.contains("mongoac/insert_many_options-fwd.h"@));
}

proof fn includes_sound_26()
    ensures
        includes_are_sound(seq!["mongoac/error-fwd.h"@, "mongoac/write_concern-fwd.h"@, "mongoac/bson.h"@, "stdbool.h"@], "insert_one_options"@),
{
    reveal_strlit("-fwd.h");
    reveal_strlit("insert_one_options");
    reveal_strlit("mongoac/");
    reveal_strlit("mongoac/bson-fwd.h");
    reveal_strlit("mongoac/bson.h");
    reveal_strlit("mongoac/cursor_type-fwd.h");
    reveal_strlit("mongoac/error-fwd.h");
    reveal_strlit("mongoac/string-fwd.h");
    reveal_strlit("mongoac/write_concern-fwd.h");
    reveal_strlit("stdbool.h");
    assert("-fwd.h"@.len() == 6);
    assert("insert_one_options"@.len() == 18);
    assert("mongoac/"@.len() == 8);
    assert("mongoac/bson-fwd.h"@.len() == 18);
    assert("mongoac/bson.h"@.len() == 14);
    assert("mongoac/cursor_type-fwd.h"@.len() == 25);
    assert("mongoac/error-fwd.h"@.len() == 19);
    assert("mongoac/string-fwd.h"@.len() == 20);
    assert("mongoac/write_concern-fwd.h"@.len() == 27);
    assert("stdbool.h"@.len() == 9);
    reveal_strlit("mongoac/insert_one_options-fwd.h");
    assert("mongoac/insert_one_options-fwd.h"@.len() == 32);
    assert(forward_header("insert_one_options"@) =~= "mongoac/insert_one_options-fwd.h"@);
    let s = seq!["mongoac/error-fwd.h"@, "mongoac/write_concern-fwd.h"@, "mongoac/bson.h"@, "stdbool.h"@];
    assert(s.no_duplicates());
    assert(!s.contains("mongoac/insert_one_options-fwd.h"@));
}

proof fn includes_sound_27()
    ensures
        includes_are_sound(seq!["mongoac/error-fwd.h"@, "mongoac/bson.h"@, "stdbool.h"@, "stdint.h"@], "list_collections_options"@),
{
    reveal_strlit("-fwd.h");
    reveal_strlit("list_collections_options");
    reveal_strlit("mongoac/");
    reveal_strlit("mongoac/bson-fwd.h");
    reveal_strlit("mongoac/bson.h");
    reveal_strlit("mongoac/cursor_type-fwd.h");
    reveal_strlit("mongoac/error-fwd.h");
    reveal_strlit("mongoac/string-fwd.h");
    reveal_strlit("stdbool.h");
    reveal_strlit("stdint.h");
    assert("-fwd.h"@.len() == 6);
    assert("list_collections_options"@.len() == 24);
    assert("mongoac/"@.len() == 8);
    assert("mongoac/bson-fwd.h"@.len() == 18);
    assert("mongoac/bson.h"@.len() == 14);
    assert("mongoac/cursor_type-fwd.h"@.len() == 25);
    assert("mongoac/error-fwd.h"@.len() == 19);
    assert("mongoac/string-fwd.h"@.len() == 20);
    assert("stdbool.h"@.len() == 9);
    assert("stdint.h"@.len() == 8);
    reveal_strlit("mongoac/list_collections_options-fwd.h");
    assert("mongoac/list_collections_options-fwd.h"@.len() == 38);
    assert(forward_header("list_collections_options"@) =~= "mongoac/list_collections_options-fwd.h"@);
    let s = seq!["mongoac/error-fwd.h"@, "mongoac/bson.h"@, "stdbool.h"@, "stdint.h"@];
    assert(s.no_duplicates());
    assert(!s.contains("mongoac/list_collections_options-fwd.h"@));
}

proof fn includes_sound_28()
    ensures
        includes_are_sound(seq!["mongoac/error-fwd.h"@, "mongoac/bson.h"@, "stdbool.h"@], "list_databases_options"@),
{
    reveal_strlit("-fwd.h");
    reveal_strlit("list_databases_options");
    reveal_strlit("mongoac/");
    reveal_strlit("mongoac/bson-fwd.h");
    reveal_strlit("mongoac/bson.h");
    reveal_strlit("mongoac/cursor_type-fwd.h");
    reveal_strlit("mongoac/error-fwd.h");
    reveal_strlit("mongoac/string-fwd.h");
    reveal_strlit("stdbool.h");
    assert("-fwd.h"@.len() == 6);
    assert("list_databases_options"@.len() == 22);
    assert("mongoac/"@.len() == 8);
    assert("mongoac/bson-fwd.h"@.len() == 18);
    assert("mongoac/bson.h"@.len() == 14);
    assert("mongoac/cursor_type-fwd.h"@.len() == 25);
    assert("mongoac/error-fwd.h"@.len() == 19);
    assert("mongoac/string-fwd.h"@.len() == 20);
    assert("stdbool.h"@.len() == 9);
    reveal_strlit("mongoac/list_databases_options-fwd.h");
    assert("mongoac/list_databases_options-fwd.h"@.len() == 36);
    assert(forward_header("list_databases_options"@) =~= "mongoac/list_databases_options-fwd.h"@);
    let s = seq!["mongoac/error-fwd.h"@, "mongoac/bson.h"@, "stdbool.h"@];
    assert(s.no_duplicates());
    assert(!s.contains("mongoac/list_databases_options-fwd.h"@));
}

proof fn includes_sound_29()
    ensures
        includes_are_sound(seq!["mongoac/error-fwd.h"@, "mongoac/string.h"@], "read_concern"@),
{
    reveal_strlit("-fwd.h");
    reveal_strlit("mongoac/");
    reveal_strlit("mongoac/bson-fwd.h");
    reveal_strlit("mongoac/cursor_type-fwd.h");
    reveal_strlit("mongoac/error-fwd.h");
    reveal_strlit("mongoac/string-fwd.h");
    reveal_strlit("mongoac/string.h");
    reveal_strlit("read_concern");
    assert("-fwd.h"@.len() == 6);
    assert("mongoac/"@.len() == 8);
    assert("mongoac/bson-fwd.h"@.len() == 18);
    assert("mongoac/cursor_type-fwd.h"@.len() == 25);
    assert("mongoac/error-fwd.h"@.len() == 19);
    assert("mongoac/string-fwd.h"@.len() == 20);
    assert("mongoac/string.h"@.len() == 16);
    assert("read_concern"@.len() == 12);
    reveal_strlit("mongoac/read_concern-fwd.h");
    assert("mongoac/read_concern-fwd.h"@.len() == 26);
    assert(forward_header("read_concern"@) =~= "mongoac/read_concern-fwd.h"@);
    let s = seq!["mongoac/error-fwd.h"@, "mongoac/string.h"@];
    assert(s.no_duplicates());
    assert(!s.contains("mongoac/read_concern-fwd.h"@));
}

proof fn includes_sound_30()
    ensures
        includes_are_sound(seq!["mongoac/read_preference-fwd.h"@, "mongoac/server_selector-fwd.h"@], "run_command_options"@),
{
    reveal_strlit("-fwd.h");
    reveal_strlit("mongoac/");
    reveal_strlit("mongoac/bson-fwd.h");
    reveal_strlit("mongoac/cursor_type-fwd.h");
    reveal_strlit("mongoac/read_preference-fwd.h");
    reveal_strlit("mongoac/server_selector-fwd.h");
    reveal_strlit("mongoac/string-fwd.h");
    reveal_strlit("run_command_options");
    assert("-fwd.h"@.len() == 6);
    assert("mongoac/"@.len() == 8);
    assert("mongoac/bson-fwd.h"@.len() == 18);
    assert("mongoac/cursor_type-fwd.h"@.len() == 25);
    assert("mongoac/read_preference-fwd.h"@.len() == 29);
    assert("mongoac/server_selector-fwd.h"@.len() == 29);
    assert("mongoac/string-fwd.h"@.len() == 20);
    assert("run_command_options"@.len() == 19);
    reveal_strlit("mongoac/run_command_options-fwd.h");
    assert("mongoac/run_command_options-fwd.h"@.len() == 33);
    assert(forward_header("run_command_options"@) =~= "mongoac/run_command_options-fwd.h"@);
    assert("mongoac/read_preference-fwd.h"@[8] != "mongoac/server_selector-fwd.h"@[8]);
    let s = seq!["mongoac/read_preference-fwd.h"@, "mongoac/server_selector-fwd.h"@];
    assert(s.no_duplicates());
    assert(!s.contains("mongoac/run_command_options-fwd.h"@));
}

proof fn includes_sound_31()
    ensures
        includes_are_sound(seq!["mongoac/cursor_type.h"@, "mongoac/read_preference-fwd.h"@, "mongoac/server_selector-fwd.h"@, "mongoac/error-fwd.h"@, "mongoac/bson.h"@, "stdint.h"@], "run_cursor_command_options"@),
{
    reveal_strlit("-fwd.h");
    reveal_strlit("mongoac/");
    reveal_strlit("mongoac/bson-fwd.h");
    reveal_strlit("mongoac/bson.h");
    reveal_strlit("mongoac/cursor_type-fwd.h");
    reveal_strlit("mongoac/cursor_type.h");
    reveal_strlit("mongoac/error-fwd.h");
    reveal_strlit("mongoac/read_preference-fwd.h");
    reveal_strlit("mongoac/server_selector-fwd.h");
    reveal_strlit("mongoac/string-fwd.h");
    reveal_strlit("run_cursor_command_options");
    reveal_strlit("stdint.h");
    assert("-fwd.h"@.len() == 6);
    assert("mongoac/"@.len() == 8);
    assert("mongoac/bson-fwd.h"@.len() == 18);
    assert("mongoac/bson.h"@.len() == 14);
    assert("mongoac/cursor_type-fwd.h"@.len() == 25);
    assert("mongoac/cursor_type.h"@.len() == 21);
    assert("mongoac/error-fwd.h"@.len() == 19);
    assert("mongoac/read_preference-fwd.h"@.len() == 29);
    assert("mongoac/server_selector-fwd.h"@.len() == 29);
    assert("mongoac/string-fwd.h"@.len() == 20);
    assert("run_cursor_command_options"@.len() == 26);
    assert("stdint.h"@.len() == 8);
    reveal_strlit("mongoac/run_cursor_command_options-fwd.h");
    assert("mongoac/run_cursor_command_options-fwd.h"@.len() == 40);
    assert(forward_header("run_cursor_command_options"@) =~= "mongoac/run_cursor_command_options-fwd.h"@);
    assert("mongoac/read_preference-fwd.h"@[8] != "mongoac/server_selector-fwd.h"@[8]);
    let s = seq!["mongoac/cursor_type.h"@, "mongoac/read_preference-fwd.h"@, "mongoac/server_selector-fwd.h"@, "mongoac/error-fwd.h"@, "mongoac/bson.h"@, "stdint.h"@];
    assert(s.no_duplicates());
    assert(!s.contains("mongoac/run_cursor_command_options-fwd.h"@));
}

proof fn includes_sound_32()
    ensures
        includes_are_sound(seq!["mongoac/error-fwd.h"@, "mongoac/bson.h"@, "stdbool.h"@, "stdint.h"@], "read_preference"@),
{
    reveal_strlit("-fwd.h");
    reveal_strlit("mongoac/");
    reveal_strlit("mongoac/bson-fwd.h");
    reveal_strlit("mongoac/bson.h");
    reveal_strlit("mongoac/cursor_type-fwd.h");
    reveal_strlit("mongoac/error-fwd.h");
    reveal_strlit("mongoac/string-fwd.h");
    reveal_strlit("read_preference");
    reveal_strlit("stdbool.h");
    reveal_strlit("stdint.h");
    assert("-fwd.h"@.len() == 6);
    assert("mongoac/"@.len() == 8);
    assert("mongoac/bson-fwd.h"@.len() == 18);
    assert("mongoac/bson.h"@.len() == 14);
    assert("mongoac/cursor_type-fwd.h"@.len() == 25);
    assert("mongoac/error-fwd.h"@.len() == 19);
    assert("mongoac/string-fwd.h"@.len() == 20);
    assert("read_preference"@.len() == 15);
    assert("stdbool.h"@.len() == 9);
    assert("stdint.h"@.len() == 8);
    reveal_strlit("mongoac/read_preference-fwd.h");
    assert("mongoac/read_preference-fwd.h"@.len() == 29);
    assert(forward_header("read_preference"@) =~= "mongoac/read_preference-fwd.h"@);
    let s = seq!["mongoac/error-fwd.h"@, "mongoac/bson.h"@, "stdbool.h"@, "stdint.h"@];
    assert(s.no_duplicates());
    assert(!s.contains("mongoac/read_preference-fwd.h"@));
}

proof fn includes_sound_33()
    ensures
        includes_are_sound(seq!["mongoac/error-fwd.h"@, "mongoac/future-fwd.h"@, "stdint.h"@], "runtime"@),
{
    reveal_strlit("-fwd.h");
    reveal_strlit("mongoac/");
    reveal_strlit("mongoac/bson-fwd.h");
    reveal_strlit("mongoac/cursor_type-fwd.h");
    reveal_strlit("mongoac/error-fwd.h");
    reveal_strlit("mongoac/future-fwd.h");
    reveal_strlit("mongoac/string-fwd.h");
    reveal_strlit("runtime");
    reveal_strlit("stdint.h");
    assert("-fwd.h"@.len() == 6);
    assert("mongoac/"@.len() == 8);
    assert("mongoac/bson-fwd.h"@.len() == 18);
    assert("mongoac/cursor_type-fwd.h"@.len() == 25);
    assert("mongoac/error-fwd.h"@.len() == 19);
    assert("mongoac/future-fwd.h"@.len() == 20);
    assert("mongoac/string-fwd.h"@.len() == 20);
    assert("runtime"@.len() == 7);
    assert("stdint.h"@.len() == 8);
    reveal_strlit("mongoac/runtime-fwd.h");
    assert("mongoac/runtime-fwd.h"@.len() == 21);
    assert(forward_header("runtime"@) =~= "mongoac/runtime-fwd.h"@);
    assert("mongoac/future-fwd.h"@[8] != "mongoac/string-fwd.h"@[8]);
    let s = seq!["mongoac/error-fwd.h"@, "mongoac/future-fwd.h"@, "stdint.h"@];
    assert(s.no_duplicates());
    assert(!s.contains("mongoac/runtime-fwd.h"@));
}

proof fn includes_sound_34()
    ensures
        includes_are_sound(seq!["stdbool.h"@], "server_api"@),
{
    reveal_strlit("-fwd.h");
    reveal_strlit("mongoac/");
    reveal_strlit("mongoac/bson-fwd.h");
    reveal_strlit("mongoac/cursor_type-fwd.h");
    reveal_strlit("mongoac/string-fwd.h");
    reveal_strlit("server_api");
    reveal_strlit("stdbool.h");
    assert("-fwd.h"@.len() == 6);
    assert("mongoac/"@.len() == 8);
    assert("mongoac/bson-fwd.h"@.len() == 18);
    assert("mongoac/cursor_type-fwd.h"@.len() == 25);
    assert("mongoac/string-fwd.h"@.len() == 20);
    assert("server_api"@.len() == 10);
    assert("stdbool.h"@.len() == 9);
    reveal_strlit("mongoac/server_api-fwd.h");
    assert("mongoac/server_api-fwd.h"@.len() == 24);
    assert(forward_header("server_api"@) =~= "mongoac/server_api-fwd.h"@);
    let s = seq!["stdbool.h"@];
    assert(s.no_duplicates());
    assert(!s.contains("mongoac/server_api-fwd.h"@));
}

proof fn includes_sound_35()
    ensures
        includes_are_sound(seq!["mongoac/bson.h"@, "mongoac/string.h"@, "stdbool.h"@, "stdint.h"@], "server_info"@),
{
    reveal_strlit("-fwd.h");
    reveal_strlit("mongoac/");
    reveal_strlit("mongoac/bson-fwd.h");
    reveal_strlit("mongoac/bson.h");
    reveal_strlit("mongoac/cursor_type-fwd.h");
    reveal_strlit("mongoac/string-fwd.h");
    reveal_strlit("mongoac/string.h");
    reveal_strlit("server_info");
    reveal_strlit("stdbool.h");
    reveal_strlit("stdint.h");
    assert("-fwd.h"@.len() == 6);
    assert("mongoac/"@.len() == 8);
    assert("mongoac/bson-fwd.h"@.len() == 18);
    assert("mongoac/bson.h"@.len() == 14);
    assert("mongoac/cursor_type-fwd.h"@.len() == 25);
    assert("mongoac/string-fwd.h"@.len() == 20);
    assert("mongoac/string.h"@.len() == 16);
    assert("server_info"@.len() == 11);
    assert("stdbool.h"@.len() == 9);
    assert("stdint.h"@.len() == 8);
    reveal_strlit("mongoac/server_info-fwd.h");
    assert("mongoac/server_info-fwd.h"@.len() == 25);
    assert(forward_header("server_info"@) =~= "mongoac/server_info-fwd.h"@);
    let s = seq!["mongoac/bson.h"@, "mongoac/string.h"@, "stdbool.h"@, "stdint.h"@];
    assert(s.no_duplicates());
    assert(!s.contains("mongoac/server_info-fwd.h"@));
}

proof fn includes_sound_36()
    ensures
        includes_are_sound(seq!["mongoac/server_info-fwd.h"@, "stdbool.h"@], "server_selector"@),
{
    reveal_strlit("-fwd.h");
    reveal_strlit("mongoac/");
    reveal_strlit("mongoac/bson-fwd.h");
    reveal_strlit("mongoac/cursor_type-fwd.h");
    reveal_strlit("mongoac/server_info-fwd.h");
    reveal_strlit("mongoac/string-fwd.h");
    reveal_strlit("server_selector");
    reveal_strlit("stdbool.h");
    assert("-fwd.h"@.len() == 6);
    assert("mongoac/"@.len() == 8);
    assert("mongoac/bson-fwd.h"@.len() == 18);
    assert("mongoac/cursor_type-fwd.h"@.len() == 25);
    assert("mongoac/server_info-fwd.h"@.len() == 25);
    assert("mongoac/string-fwd.h"@.len() == 20);
    assert("server_selector"@.len() == 15);
    assert("stdbool.h"@.len() == 9);
    reveal_strlit("mongoac/server_selector-fwd.h");
    assert("mongoac/server_selector-fwd.h"@.len() == 29);
    assert(forward_header("server_selector"@) =~= "mongoac/server_selector-fwd.h"@);
    assert("mongoac/cursor_type-fwd.h"@[8] != "mongoac/server_info-fwd.h"@[8]);
    let s = seq!["mongoac/server_info-fwd.h"@, "stdbool.h"@];
    assert(s.no_duplicates());
    assert(!s.contains("mongoac/server_selector-fwd.h"@));
}

proof fn includes_sound_37()
    ensures
        includes_are_sound(seq!["mongoac/transaction_options-fwd.h"@, "stdbool.h"@, "stdint.h"@], "session_options"@),
{
    reveal_strlit("-fwd.h");
    reveal_strlit("mongoac/");
    reveal_strlit("mongoac/bson-fwd.h");
    reveal_strlit("mongoac/cursor_type-fwd.h");
    reveal_strlit("mongoac/string-fwd.h");
    reveal_strlit("mongoac/transaction_options-fwd.h");
    reveal_strlit("session_options");
    reveal_strlit("stdbool.h");
    reveal_strlit("stdint.h");
    assert("-fwd.h"@.len() == 6);
    assert("mongoac/"@.len() == 8);
    assert("mongoac/bson-fwd.h"@.len() == 18);
    assert("mongoac/cursor_type-fwd.h"@.len() == 25);
    assert("mongoac/string-fwd.h"@.len() == 20);
    assert("mongoac/transaction_options-fwd.h"@.len() == 33);
    assert("session_options"@.len() == 15);
    assert("stdbool.h"@.len() == 9);
    assert("stdint.h"@.len() == 8);
    reveal_strlit("mongoac/session_options-fwd.h");
    assert("mongoac/session_options-fwd.h"@.len() == 29);
    assert(forward_header("session_options"@) =~= "mongoac/session_options-fwd.h"@);
    let s = seq!["mongoac/transaction_options-fwd.h"@, "stdbool.h"@, "stdint.h"@];
    assert(s.no_duplicates());
    assert(!s.contains("mongoac/session_options-fwd.h"@));
}

proof fn includes_sound_38()
    ensures
        includes_are_sound(seq!["stdint.h"@], "string"@),
{
    reveal_strlit("-fwd.h");
    reveal_strlit("mongoac/");
    reveal_strlit("mongoac/bson-fwd.h");
    reveal_strlit("mongoac/cursor_type-fwd.h");
    reveal_strlit("mongoac/string-fwd.h");
    reveal_strlit("stdint.h");
    reveal_strlit("string");
    assert("-fwd.h"@.len() == 6);
    assert("mongoac/"@.len() == 8);
    assert("mongoac/bson-fwd.h"@.len() == 18);
    assert("mongoac/cursor_type-fwd.h"@.len() == 25);
    assert("mongoac/string-fwd.h"@.len() == 20);
    assert("stdint.h"@.len() == 8);
    assert("string"@.len() == 6);
    reveal_strlit("mongoac/string-fwd.h");
    assert("mongoac/string-fwd.h"@.len() == 20);
    assert(forward_header("string"@) =~= "mongoac/string-fwd.h"@);
    let s = seq!["stdint.h"@];
    assert(s.no_duplicates());
    assert(!s.contains("mongoac/string-fwd.h"@));
}

proof fn includes_sound_39()
    ensures
        includes_are_sound(seq!["mongoac/error-fwd.h"@, "mongoac/string.h"@, "stdbool.h"@], "tls_options"@),
{
    reveal_strlit("-fwd.h");
    reveal_strlit("mongoac/");
    reveal_strlit("mongoac/bson-fwd.h");
    reveal_strlit("mongoac/cursor_type-fwd.h");
    reveal_strlit("mongoac/error-fwd.h");
    reveal_strlit("mongoac/string-fwd.h");
    reveal_strlit("mongoac/string.h");
    reveal_strlit("stdbool.h");
    reveal_strlit("tls_options");
    assert("-fwd.h"@.len() == 6);
    assert("mongoac/"@.len() == 8);
    assert("mongoac/bson-fwd.h"@.len() == 18);
    assert("mongoac/cursor_type-fwd.h"@.len() == 25);
    assert("mongoac/error-fwd.h"@.len() == 19);
    assert("mongoac/string-fwd.h"@.len() == 20);
    assert("mongoac/string.h"@.len() == 16);
    assert("stdbool.h"@.len() == 9);
    assert("tls_options"@.len() == 11);
    reveal_strlit("mongoac/tls_options-fwd.h");
    assert("mongoac/tls_options-fwd.h"@.len() == 25);
    assert(forward_header("tls_options"@) =~= "mongoac/tls_options-fwd.h"@);
    let s = seq!["mongoac/error-fwd.h"@, "mongoac/string.h"@, "stdbool.h"@];
    assert(s.no_duplicates());
    assert(!s.contains("mongoac/tls_options-fwd.h"@));
}

proof fn includes_sound_40()
    ensures
        includes_are_sound(seq!["mongoac/read_concern-fwd.h"@, "mongoac/write_concern-fwd.h"@, "mongoac/read_preference-fwd.h"@, "stdint.h"@], "transaction_options"@),
{
    reveal_strlit("-fwd.h");
    reveal_strlit("mongoac/");
    reveal_strlit("mongoac/bson-fwd.h");
    reveal_strlit("mongoac/cursor_type-fwd.h");
    reveal_strlit("mongoac/read_concern-fwd.h");
    reveal_strlit("mongoac/read_preference-fwd.h");
    reveal_strlit("mongoac/string-fwd.h");
    reveal_strlit("mongoac/write_concern-fwd.h");
    reveal_strlit("stdint.h");
    reveal_strlit("transaction_options");
    assert("-fwd.h"@.len() == 6);
    assert("mongoac/"@.len() == 8);
    assert("mongoac/bson-fwd.h"@.len() == 18);
    assert("mongoac/cursor_type-fwd.h"@.len() == 25);
    assert("mongoac/read_concern-fwd.h"@.len() == 26);
    assert("mongoac/read_preference-fwd.h"@.len() == 29);
    assert("mongoac/string-fwd.h"@.len() == 20);
    assert("mongoac/write_concern-fwd.h"@.len() == 27);
    assert("stdint.h"@.len() == 8);
    assert("transaction_options"@.len() == 19);
    reveal_strlit("mongoac/transaction_options-fwd.h");
    assert("mongoac/transaction_options-fwd.h"@.len() == 33);
    assert(forward_header("transaction_options"@) =~= "mongoac/transaction_options-fwd.h"@);
    let s = seq!["mongoac/read_concern-fwd.h"@, "mongoac/write_concern-fwd.h"@, "mongoac/read_preference-fwd.h"@, "stdint.h"@];
    assert(s.no_duplicates());
    assert(!s.contains("mongoac/transaction_options-fwd.h"@));
}

proof fn includes_sound_41()
    ensures
        includes_are_sound(seq!["mongoac/error-fwd.h"@, "mongoac/string.h"@, "stdbool.h"@, "stdint.h"@], "write_concern"@),
{
    reveal_strlit("-fwd.h");
    reveal_strlit("mongoac/");
    reveal_strlit("mongoac/bson-fwd.h");
    reveal_strlit("mongoac/cursor_type-fwd.h");
    reveal_strlit("mongoac/error-fwd.h");
    reveal_strlit("mongoac/string-fwd.h");
    reveal_strlit("mongoac/string.h");
    reveal_strlit("stdbool.h");
    reveal_strlit("stdint.h");
    reveal_strlit("write_concern");
    assert("-fwd.h"@.len() == 6);
    assert("mongoac/"@.len() == 8);
    assert("mongoac/bson-fwd.h"@.len() == 18);
    assert("mongoac/cursor_type-fwd.h"@.len() == 25);
    assert("mongoac/error-fwd.h"@.len() == 19);
    assert("mongoac/string-fwd.h"@.len() == 20);
    assert("mongoac/string.h"@.len() == 16);
    assert("stdbool.h"@.len() == 9);
    assert("stdint.h"@.len() == 8);
    assert("write_concern"@.len() == 13);
    reveal_strlit("mongoac/write_concern-fwd.h");
    assert("mongoac/write_concern-fwd.h"@.len() == 27);
    assert(forward_header("write_concern"@) =~= "mongoac/write_concern-fwd.h"@);
    let s = seq!["mongoac/error-fwd.h"@, "mongoac/string.h"@, "stdbool.h"@, "stdint.h"@];
    assert(s.no_duplicates());
    assert(!s.contains("mongoac/write_concern-fwd.h"@));
}

/// Whether an include names a forward header: `mongoac/<stem>-fwd.h`.
pub open spec fn is_forward_include(entry: Seq<char>) -> bool {
    &&& entry.len() >= 14
    &&& entry.subrange(0, 8) == "mongoac/"@
    &&& entry.subrange(entry.len() - 6, entry.len() as int) == "-fwd.h"@
}

/// The stem of the header whose forward header an include names.
pub open spec fn forward_include_stem(entry: Seq<char>) -> Seq<char> {
    entry.subrange(8, entry.len() - 6)
}

/// Whether every forward header among the includes is one that is generated.
pub open spec fn forward_includes_are_generated(includes: Seq<Seq<char>>) -> bool {
    forall|k: int|
        0 <= k < includes.len() && is_forward_include(#[trigger] includes[k]) ==> !skipped_forward_header(
            forward_include_stem(includes[k]),
        )
}

/// Exactly three sources go without a forward header: `bson`, `cursor_type` and
/// `string`; every other source gets one.
pub proof fn lemma_only_three_sources_skip_forward_headers(stem: Seq<char>)
    ensures
        skipped_forward_header(stem) <==> (stem == "bson"@ || stem == "cursor_type"@ || stem == "string"@),
{
}

/// Every forward header that a header includes is generated: for every header,
/// each `mongoac/<stem>-fwd.h` its includes name belongs to a source that gets
/// a forward header.
pub proof fn lemma_included_forward_headers_are_generated(name: Seq<char>)
    ensures
        forward_includes_are_generated(crate_includes(name)),
{
    if name == "bson"@ {
        forward_includes_generated_0();
    } else if name == "aggregate_options"@ {
        forward_includes_generated_1();
    } else if name == "client"@ {
        forward_includes_generated_2();
    } else if name == "client_options"@ {
        forward_includes_generated_3();
    } else if name == "client_session"@ {
        forward_includes_generated_4();
    } else if name == "collection"@ {
        forward_includes_generated_5();
    } else if name == "create_collection_options"@ {
        forward_includes_generated_6();
    } else if name == "collection_options"@ {
        forward_includes_generated_7();
    } else if name == "credential"@ {
        forward_includes_generated_8();
    } else if name == "cursor_type"@ {
        forward_includes_generated_9();
    } else if name == "cursor"@ {
        forward_includes_generated_10();
    } else if name == "database"@ {
        forward_includes_generated_11();
    } else if name == "database_options"@ {
        forward_includes_generated_12();
    } else if name == "delete_options"@ {
        forward_includes_generated_13();
    } else if name == "replace_options"@ {
        forward_includes_generated_14();
    } else if name == "update_options"@ {
        forward_includes_generated_15();
    } else if name == "count_options"@ {
        forward_includes_generated_16();
    } else if name == "estimated_document_count_options"@ {
        forward_includes_generated_17();
    } else if name == "distinct_options"@ {
        forward_includes_generated_18();
    } else if name == "drop_collection_options"@ {
        forward_includes_generated_19();
    } else if name == "drop_database_options"@ {
        forward_includes_generated_20();
    } else if name == "error"@ {
        forward_includes_generated_21();
    } else if name == "find_options"@ {
        forward_includes_generated_22();
    } else if name == "find_one_options"@ {
        forward_includes_generated_23();
    } else if name == "future"@ {
        forward_includes_generated_24();
    } else if name == "insert_many_options"@ {
        forward_includes_generated_25();
    } else if name == "insert_one_options"@ {
        forward_includes_generated_26();
    } else if name == "list_collections_options"@ {
        forward_includes_generated_27();
    } else if name == "list_databases_options"@ {
        forward_includes_generated_28();
    } else if name == "read_concern"@ {
        forward_includes_generated_29();
    } else if name == "run_command_options"@ {
        forward_includes_generated_30();
    } else if name == "run_cursor_command_options"@ {
        forward_includes_generated_31();
    } else if name == "read_preference"@ {
        forward_includes_generated_32();
    } else if name == "runtime"@ {
        forward_includes_generated_33();
    } else if name == "server_api"@ {
        forward_includes_generated_34();
    } else if name == "server_info"@ {
        forward_includes_generated_35();
    } else if name == "server_selector"@ {
        forward_includes_generated_36();
    } else if name == "session_options"@ {
        forward_includes_generated_37();
    } else if name == "string"@ {
        forward_includes_generated_38();
    } else if name == "tls_options"@ {
        forward_includes_generated_39();
    } else if name == "transaction_options"@ {
        forward_includes_generated_40();
    } else if name == "write_concern"@ {
        forward_includes_generated_41();
    } else {
        assert(crate_includes(name) =~= Seq::<Seq<char>>::empty());
    }
}

proof fn forward_includes_generated_0()
    ensures
        forward_includes_are_generated(seq!["stdint.h"@]),
{
    reveal_strlit("-fwd.h");
    reveal_strlit("bson");
    reveal_strlit("cursor_type");
    reveal_strlit("mongoac/");
    reveal_strlit("stdint.h");
    reveal_strlit("string");
    assert("-fwd.h"@.len() == 6);
    assert("bson"@.len() == 4);
    assert("cursor_type"@.len() == 11);
    assert("mongoac/"@.len() == 8);
    assert("stdint.h"@.len() == 8);
    assert("string"@.len() == 6);
    assert(!is_forward_include("stdint.h"@));
    let s = seq!["stdint.h"@];
    assert(forward_includes_are_generated(s));
}

proof fn forward_includes_generated_1()
    ensures
        forward_includes_are_generated(seq!["mongoac/error-fwd.h"@, "mongoac/read_concern-fwd.h"@, "mongoac/write_concern-fwd.h"@, "mongoac/bson.h"@, "stdbool.h"@, "stdint.h"@]),
{
    reveal_strlit("-fwd.h");
    reveal_strlit("bson");
    reveal_strlit("cursor_type");
    reveal_strlit("error");
    reveal_strlit("mongoac/");
    reveal_strlit("mongoac/bson.h");
    reveal_strlit("mongoac/error-fwd.h");
    reveal_strlit("mongoac/read_concern-fwd.h");
    reveal_strlit("mongoac/write_concern-fwd.h");
    reveal_strlit("read_concern");
    reveal_strlit("stdbool.h");
    reveal_strlit("stdint.h");
    reveal_strlit("string");
    reveal_strlit("write_concern");
    assert("-fwd.h"@.len() == 6);
    assert("bson"@.len() == 4);
    assert("cursor_type"@.len() == 11);
    assert("error"@.len() == 5);
    assert("mongoac/"@.len() == 8);
    assert("mongoac/bson.h"@.len() == 14);
    assert("mongoac/error-fwd.h"@.len() == 19);
    assert("mongoac/read_concern-fwd.h"@.len() == 26);
    assert("mongoac/write_concern-fwd.h"@.len() == 27);
    assert("read_concern"@.len() == 12);
    assert("stdbool.h"@.len() == 9);
    assert("stdint.h"@.len() == 8);
    assert("string"@.len() == 6);
    assert("write_concern"@.len() == 13);
    assert("mongoac/error-fwd.h"@.subrange(0, 8) =~= "mongoac/"@);
    assert("mongoac/error-fwd.h"@.subrange(13, 19) =~= "-fwd.h"@);
    assert(forward_include_stem("mongoac/error-fwd.h"@) =~= "error"@);
    assert(!skipped_forward_header("error"@));
    assert("mongoac/read_concern-fwd.h"@.subrange(0, 8) =~= "mongoac/"@);
    assert("mongoac/read_concern-fwd.h"@.subrange(20, 26) =~= "-fwd.h"@);
    assert(forward_include_stem("mongoac/read_concern-fwd.h"@) =~= "read_concern"@);
    assert(!skipped_forward_header("read_concern"@));
    assert("mongoac/write_concern-fwd.h"@.subrange(0, 8) =~= "mongoac/"@);
    assert("mongoac/write_concern-fwd.h"@.subrange(21, 27) =~= "-fwd.h"@);
    assert(forward_include_stem("mongoac/write_concern-fwd.h"@) =~= "write_concern"@);
    assert(!skipped_forward_header("write_concern"@));
    assert("mongoac/bson.h"@.subrange(8, 14)[0] != "-fwd.h"@[0]);
    assert(!is_forward_include("mongoac/bson.h"@));
    assert(!is_forward_include("stdbool.h"@));
    assert(!is_forward_include("stdint.h"@));
    let s = seq!["mongoac/error-fwd.h"@, "mongoac/read_concern-fwd.h"@, "mongoac/write_concern-fwd.h"@, "mongoac/bson.h"@, "stdbool.h"@, "stdint.h"@];
    assert(forward_includes_are_generated(s));
}

proof fn forward_includes_generated_2()
    ensures
        forward_includes_are_generated(seq!["mongoac/client_options-fwd.h"@, "mongoac/client_session-fwd.h"@, "mongoac/error-fwd.h"@, "mongoac/future-fwd.h"@, "mongoac/list_databases_options-fwd.h"@, "mongoac/session_options-fwd.h"@, "mongoac/runtime-fwd.h"@, "mongoac/bson.h"@, "mongoac/string.h"@, "stdint.h"@]),
{
    reveal_strlit("-fwd.h");
    reveal_strlit("bson");
    reveal_strlit("client_options");
    reveal_strlit("client_session");
    reveal_strlit("cursor_type");
    reveal_strlit("error");
    reveal_strlit("future");
    reveal_strlit("list_databases_options");
    reveal_strlit("mongoac/");
    reveal_strlit("mongoac/bson.h");
    reveal_strlit("mongoac/client_options-fwd.h");
    reveal_strlit("mongoac/client_session-fwd.h");
    reveal_strlit("mongoac/error-fwd.h");
    reveal_strlit("mongoac/future-fwd.h");
    reveal_strlit("mongoac/list_databases_options-fwd.h");
    reveal_strlit("mongoac/runtime-fwd.h");
    reveal_strlit("mongoac/session_options-fwd.h");
    reveal_strlit("mongoac/string.h");
    reveal_strlit("runtime");
    reveal_strlit("session_options");
    reveal_strlit("stdint.h");
    reveal_strlit("string");
    assert("-fwd.h"@.len() == 6);
    assert("bson"@.len() == 4);
    assert("client_options"@.len() == 14);
    assert("client_session"@.len() == 14);
    assert("cursor_type"@.len() == 11);
    assert("error"@.len() == 5);
    assert("future"@.len() == 6);
    assert("list_databases_options"@.len() == 22);
    assert("mongoac/"@.len() == 8);
    assert("mongoac/bson.h"@.len() == 14);
    assert("mongoac/client_options-fwd.h"@.len() == 28);
    assert("mongoac/client_session-fwd.h"@.len() == 28);
    assert("mongoac/error-fwd.h"@.len() == 19);
    assert("mongoac/future-fwd.h"@.len() == 20);
    assert("mongoac/list_databases_options-fwd.h"@.len() == 36);
    assert("mongoac/runtime-fwd.h"@.len() == 21);
    assert("mongoac/session_options-fwd.h"@.len() == 29);
    assert("mongoac/string.h"@.len() == 16);
    assert("runtime"@.len() == 7);
    assert("session_options"@.len() == 15);
    assert("stdint.h"@.len() == 8);
    assert("string"@.len() == 6);
    assert("mongoac/client_options-fwd.h"@.subrange(0, 8) =~= "mongoac/"@);
    assert("mongoac/client_options-fwd.h"@.subrange(22, 28) =~= "-fwd.h"@);
    assert(forward_include_stem("mongoac/client_options-fwd.h"@) =~= "client_options"@);
    assert(!skipped_forward_header("client_options"@));
    assert("mongoac/client_session-fwd.h"@.subrange(0, 8) =~= "mongoac/"@);
    assert("mongoac/client_session-fwd.h"@.subrange(22, 28) =~= "-fwd.h"@);
    assert(forward_include_stem("mongoac/client_session-fwd.h"@) =~= "client_session"@);
    assert(!skipped_forward_header("client_session"@));
    assert("mongoac/error-fwd.h"@.subrange(0, 8) =~= "mongoac/"@);
    assert("mongoac/error-fwd.h"@.subrange(13, 19) =~= "-fwd.h"@);
    assert(forward_include_stem("mongoac/error-fwd.h"@) =~= "error"@);
    assert(!skipped_forward_header("error"@));
    assert("mongoac/future-fwd.h"@.subrange(0, 8) =~= "mongoac/"@);
    assert("mongoac/future-fwd.h"@.subrange(14, 20) =~= "-fwd.h"@);
    assert(forward_include_stem("mongoac/future-fwd.h"@) =~= "future"@);
    assert("future"@[0] != "string"@[0]);
    assert(!skipped_forward_header("future"@));
    assert("mongoac/list_databases_options-fwd.h"@.subrange(0, 8) =~= "mongoac/"@);
    assert("mongoac/list_databases_options-fwd.h"@.subrange(30, 36) =~= "-fwd.h"@);
    assert(forward_include_stem("mongoac/list_databases_options-fwd.h"@) =~= "list_databases_options"@);
    assert(!skipped_forward_header("list_databases_options"@));
    assert("mongoac/session_options-fwd.h"@.subrange(0, 8) =~= "mongoac/"@);
    assert("mongoac/session_options-fwd.h"@.subrange(23, 29) =~= "-fwd.h"@);
    assert(forward_include_stem("mongoac/session_options-fwd.h"@) =~= "session_options"@);
    assert(!skipped_forward_header("session_options"@));
    assert("mongoac/runtime-fwd.h"@.subrange(0, 8) =~= "mongoac/"@);
    assert("mongoac/runtime-fwd.h"@.subrange(15, 21) =~= "-fwd.h"@);
    assert(forward_include_stem("mongoac/runtime-fwd.h"@) =~= "runtime"@);
    assert(!skipped_forward_header("runtime"@));
    assert("mongoac/bson.h"@.subrange(8, 14)[0] != "-fwd.h"@[0]);
    assert(!is_forward_include("mongoac/bson.h"@));
    assert("mongoac/string.h"@.subrange(10, 16)[0] != "-fwd.h"@[0]);
    assert(!is_forward_include("mongoac/string.h"@));
    assert(!is_forward_include("stdint.h"@));
    let s = seq!["mongoac/client_options-fwd.h"@, "mongoac/client_session-fwd.h"@, "mongoac/error-fwd.h"@, "mongoac/future-fwd.h"@, "mongoac/list_databases_options-fwd.h"@, "mongoac/session_options-fwd.h"@, "mongoac/runtime-fwd.h"@, "mongoac/bson.h"@, "mongoac/string.h"@, "stdint.h"@];
    assert(forward_includes_are_generated(s));
}

proof fn forward_includes_generated_3()
    ensures
        forward_includes_are_generated(seq!["mongoac/error-fwd.h"@, "mongoac/server_api-fwd.h"@, "mongoac/read_concern-fwd.h"@, "mongoac/write_concern-fwd.h"@, "mongoac/read_preference-fwd.h"@, "mongoac/server_selector-fwd.h"@, "mongoac/tls_options-fwd.h"@, "mongoac/credential-fwd.h"@, "mongoac/string.h"@, "stdbool.h"@, "stdint.h"@]),
{
    reveal_strlit("-fwd.h");
    reveal_strlit("bson");
    reveal_strlit("credential");
    reveal_strlit("cursor_type");
    reveal_strlit("error");
    reveal_strlit("mongoac/");
    reveal_strlit("mongoac/credential-fwd.h");
    reveal_strlit("mongoac/error-fwd.h");
    reveal_strlit("mongoac/read_concern-fwd.h");
    reveal_strlit("mongoac/read_preference-fwd.h");
    reveal_strlit("mongoac/server_api-fwd.h");
    reveal_strlit("mongoac/server_selector-fwd.h");
    reveal_strlit("mongoac/string.h");
    reveal_strlit("mongoac/tls_options-fwd.h");
    reveal_strlit("mongoac/write_concern-fwd.h");
    reveal_strlit("read_concern");
    reveal_strlit("read_preference");
    reveal_strlit("server_api");
    reveal_strlit("server_selector");
    reveal_strlit("stdbool.h");
    reveal_strlit("stdint.h");
    reveal_strlit("string");
    reveal_strlit("tls_options");
    reveal_strlit("write_concern");
    assert("-fwd.h"@.len() == 6);
    assert("bson"@.len() == 4);
    assert("credential"@.len() == 10);
    assert("cursor_type"@.len() == 11);
    assert("error"@.len() == 5);
    assert("mongoac/"@.len() == 8);
    assert("mongoac/credential-fwd.h"@.len() == 24);
    assert("mongoac/error-fwd.h"@.len() == 19);
    assert("mongoac/read_concern-fwd.h"@.len() == 26);
    assert("mongoac/read_preference-fwd.h"@.len() == 29);
    assert("mongoac/server_api-fwd.h"@.len() == 24);
    assert("mongoac/server_selector-fwd.h"@.len() == 29);
    assert("mongoac/string.h"@.len() == 16);
    assert("mongoac/tls_options-fwd.h"@.len() == 25);
    assert("mongoac/write_concern-fwd.h"@.len() == 27);
    assert("read_concern"@.len() == 12);
    assert("read_preference"@.len() == 15);
    assert("server_api"@.len() == 10);
    assert("server_selector"@.len() == 15);
    assert("stdbool.h"@.len() == 9);
    assert("stdint.h"@.len() == 8);
    assert("string"@.len() == 6);
    assert("tls_options"@.len() == 11);
    assert("write_concern"@.len() == 13);
    assert("mongoac/error-fwd.h"@.subrange(0, 8) =~= "mongoac/"@);
    assert("mongoac/error-fwd.h"@.subrange(13, 19) =~= "-fwd.h"@);
    assert(forward_include_stem("mongoac/error-fwd.h"@) =~= "error"@);
    assert(!skipped_forward_header("error"@));
    assert("mongoac/server_api-fwd.h"@.subrange(0, 8) =~= "mongoac/"@);
    assert("mongoac/server_api-fwd.h"@.subrange(18, 24) =~= "-fwd.h"@);
    assert(forward_include_stem("mongoac/server_api-fwd.h"@) =~= "server_api"@);
    assert(!skipped_forward_header("server_api"@));
    assert("mongoac/read_concern-fwd.h"@.subrange(0, 8) =~= "mongoac/"@);
    assert("mongoac/read_concern-fwd.h"@.subrange(20, 26) =~= "-fwd.h"@);
    assert(forward_include_stem("mongoac/read_concern-fwd.h"@) =~= "read_concern"@);
    assert(!skipped_forward_header("read_concern"@));
    assert("mongoac/write_concern-fwd.h"@.subrange(0, 8) =~= "mongoac/"@);
    assert("mongoac/write_concern-fwd.h"@.subrange(21, 27) =~= "-fwd.h"@);
    assert(forward_include_stem("mongoac/write_concern-fwd.h"@) =~= "write_concern"@);
    assert(!skipped_forward_header("write_concern"@));
    assert("mongoac/read_preference-fwd.h"@.subrange(0, 8) =~= "mongoac/"@);
    assert("mongoac/read_preference-fwd.h"@.subrange(23, 29) =~= "-fwd.h"@);
    assert(forward_include_stem("mongoac/read_preference-fwd.h"@) =~= "read_preference"@);
    assert(!skipped_forward_header("read_preference"@));
    assert("mongoac/server_selector-fwd.h"@.subrange(0, 8) =~= "mongoac/"@);
    assert("mongoac/server_selector-fwd.h"@.subrange(23, 29) =~= "-fwd.h"@);
    assert(forward_include_stem("mongoac/server_selector-fwd.h"@) =~= "server_selector"@);
    assert(!skipped_forward_header("server_selector"@));
    assert("mongoac/tls_options-fwd.h"@.subrange(0, 8) =~= "mongoac/"@);
    assert("mongoac/tls_options-fwd.h"@.subrange(19, 25) =~= "-fwd.h"@);
    assert(forward_include_stem("mongoac/tls_options-fwd.h"@) =~= "tls_options"@);
    assert("tls_options"@[0] != "cursor_type"@[0]);
    assert(!skipped_forward_header("tls_options"@));
    assert("mongoac/credential-fwd.h"@.subrange(0, 8) =~= "mongoac/"@);
    assert("mongoac/credential-fwd.h"@.subrange(18, 24) =~= "-fwd.h"@);
    assert(forward_include_stem("mongoac/credential-fwd.h"@) =~= "credential"@);
    assert(!skipped_forward_header("credential"@));
    assert("mongoac/string.h"@.subrange(10, 16)[0] != "-fwd.h"@[0]);
    assert(!is_forward_include("mongoac/string.h"@));
    assert(!is_forward_include("stdbool.h"@));
    assert(!is_forward_include("stdint.h"@));
    let s = seq!["mongoac/error-fwd.h"@, "mongoac/server_api-fwd.h"@, "mongoac/read_concern-fwd.h"@, "mongoac/write_concern-fwd.h"@, "mongoac/read_preference-fwd.h"@, "mongoac/server_selector-fwd.h"@, "mongoac/tls_options-fwd.h"@, "mongoac/credential-fwd.h"@, "mongoac/string.h"@, "stdbool.h"@, "stdint.h"@];
    assert(forward_includes_are_generated(s));
}

proof fn forward_includes_generated_4()
    ensures
        forward_includes_are_generated(seq!["mongoac/error-fwd.h"@, "mongoac/future-fwd.h"@]),
{
    reveal_strlit("-fwd.h");
    reveal_strlit("bson");
    reveal_strlit("cursor_type");
    reveal_strlit("error");
    reveal_strlit("future");
    reveal_strlit("mongoac/");
    reveal_strlit("mongoac/error-fwd.h");
    reveal_strlit("mongoac/future-fwd.h");
    reveal_strlit("string");
    assert("-fwd.h"@.len() == 6);
    assert("bson"@.len() == 4);
    assert("cursor_type"@.len() == 11);
    assert("error"@.len() == 5);
    assert("future"@.len() == 6);
    assert("mongoac/"@.len() == 8);
    assert("mongoac/error-fwd.h"@.len() == 19);
    assert("mongoac/future-fwd.h"@.len() == 20);
    assert("string"@.len() == 6);
    assert("mongoac/error-fwd.h"@.subrange(0, 8) =~= "mongoac/"@);
    assert("mongoac/error-fwd.h"@.subrange(13, 19) =~= "-fwd.h"@);
    assert(forward_include_stem("mongoac/error-fwd.h"@) =~= "error"@);
    assert(!skipped_forward_header("error"@));
    assert("mongoac/future-fwd.h"@.subrange(0, 8) =~= "mongoac/"@);
    assert("mongoac/future-fwd.h"@.subrange(14, 20) =~= "-fwd.h"@);
    assert(forward_include_stem("mongoac/future-fwd.h"@) =~= "future"@);
    assert("future"@[0] != "string"@[0]);
    assert(!skipped_forward_header("future"@));
    let s = seq!["mongoac/error-fwd.h"@, "mongoac/future-fwd.h"@];
    assert(forward_includes_are_generated(s));
}

proof fn forward_includes_generated_5()
    ensures
        forward_includes_are_generated(seq!["mongoac/database-fwd.h"@, "mongoac/client_session-fwd.h"@, "mongoac/cursor-fwd.h"@, "mongoac/error-fwd.h"@, "mongoac/future-fwd.h"@, "mongoac/drop_collection_options-fwd.h"@, "mongoac/insert_one_options-fwd.h"@, "mongoac/insert_many_options-fwd.h"@, "mongoac/find_options-fwd.h"@, "mongoac/find_one_options-fwd.h"@, "mongoac/delete_options-fwd.h"@, "mongoac/replace_options-fwd.h"@, "mongoac/update_options-fwd.h"@, "mongoac/count_options-fwd.h"@, "mongoac/estimated_document_count_options-fwd.h"@, "mongoac/distinct_options-fwd.h"@, "mongoac/aggregate_options-fwd.h"@, "mongoac/collection_options-fwd.h"@, "mongoac/bson.h"@, "mongoac/string.h"@, "stdint.h"@]),
{
    reveal_strlit("-fwd.h");
    reveal_strlit("aggregate_options");
    reveal_strlit("bson");
    reveal_strlit("client_session");
    reveal_strlit("collection_options");
    reveal_strlit("count_options");
    reveal_strlit("cursor");
    reveal_strlit("cursor_type");
    reveal_strlit("database");
    reveal_strlit("delete_options");
    reveal_strlit("distinct_options");
    reveal_strlit("drop_collection_options");
    reveal_strlit("error");
    reveal_strlit("estimated_document_count_options");
    reveal_strlit("find_one_options");
    reveal_strlit("find_options");
    reveal_strlit("future");
    reveal_strlit("insert_many_options");
    reveal_strlit("insert_one_options");
    reveal_strlit("mongoac/");
    reveal_strlit("mongoac/aggregate_options-fwd.h");
    reveal_strlit("mongoac/bson.h");
    reveal_strlit("mongoac/client_session-fwd.h");
    reveal_strlit("mongoac/collection_options-fwd.h");
    reveal_strlit("mongoac/count_options-fwd.h");
    reveal_strlit("mongoac/cursor-fwd.h");
    reveal_strlit("mongoac/database-fwd.h");
    reveal_strlit("mongoac/delete_options-fwd.h");
    reveal_strlit("mongoac/distinct_options-fwd.h");
    reveal_strlit("mongoac/drop_collection_options-fwd.h");
    reveal_strlit("mongoac/error-fwd.h");
    reveal_strlit("mongoac/estimated_document_count_options-fwd.h");
    reveal_strlit("mongoac/find_one_options-fwd.h");
    reveal_strlit("mongoac/find_options-fwd.h");
    reveal_strlit("mongoac/future-fwd.h");
    reveal_strlit("mongoac/insert_many_options-fwd.h");
    reveal_strlit("mongoac/insert_one_options-fwd.h");
    reveal_strlit("mongoac/replace_options-fwd.h");
    reveal_strlit("mongoac/string.h");
    reveal_strlit("mongoac/update_options-fwd.h");
    reveal_strlit("replace_options");
    reveal_strlit("stdint.h");
    reveal_strlit("string");
    reveal_strlit("update_options");
    assert("-fwd.h"@.len() == 6);
    assert("aggregate_options"@.len() == 17);
    assert("bson"@.len() == 4);
    assert("client_session"@.len() == 14);
    assert("collection_options"@.len() == 18);
    assert("count_options"@.len() == 13);
    assert("cursor"@.len() == 6);
    assert("cursor_type"@.len() == 11);
    assert("database"@.len() == 8);
    assert("delete_options"@.len() == 14);
    assert("distinct_options"@.len() == 16);
    assert("drop_collection_options"@.len() == 23);
    assert("error"@.len() == 5);
    assert("estimated_document_count_options"@.len() == 32);
    assert("find_one_options"@.len() == 16);
    assert("find_options"@.len() == 12);
    assert("future"@.len() == 6);
    assert("insert_many_options"@.len() == 19);
    assert("insert_one_options"@.len() == 18);
    assert("mongoac/"@.len() == 8);
    assert("mongoac/aggregate_options-fwd.h"@.len() == 31);
    assert("mongoac/bson.h"@.len() == 14);
    assert("mongoac/client_session-fwd.h"@.len() == 28);
    assert("mongoac/collection_options-fwd.h"@.len() == 32);
    assert("mongoac/count_options-fwd.h"@.len() == 27);
    assert("mongoac/cursor-fwd.h"@.len() == 20);
    assert("mongoac/database-fwd.h"@.len() == 22);
    assert("mongoac/delete_options-fwd.h"@.len() == 28);
    assert("mongoac/distinct_options-fwd.h"@.len() == 30);
    assert("mongoac/drop_collection_options-fwd.h"@.len() == 37);
    assert("mongoac/error-fwd.h"@.len() == 19);
    assert("mongoac/estimated_document_count_options-fwd.h"@.len() == 46);
    assert("mongoac/find_one_options-fwd.h"@.len() == 30);
    assert("mongoac/find_options-fwd.h"@.len() == 26);
    assert("mongoac/future-fwd.h"@.len() == 20);
    assert("mongoac/insert_many_options-fwd.h"@.len() == 33);
    assert("mongoac/insert_one_options-fwd.h"@.len() == 32);
    assert("mongoac/replace_options-fwd.h"@.len() == 29);
    assert("mongoac/string.h"@.len() == 16);
    assert("mongoac/update_options-fwd.h"@.len() == 28);
    assert("replace_options"@.len() == 15);
    assert("stdint.h"@.len() == 8);
    assert("string"@.len() == 6);
    assert("update_options"@.len() == 14);
    assert("mongoac/database-fwd.h"@.subrange(0, 8) =~= "mongoac/"@);
    assert("mongoac/database-fwd.h"@.subrange(16, 22) =~= "-fwd.h"@);
    assert(forward_include_stem("mongoac/database-fwd.h"@) =~= "database"@);
    assert(!skipped_forward_header("database"@));
    assert("mongoac/client_session-fwd.h"@.subrange(0, 8) =~= "mongoac/"@);
    assert("mongoac/client_session-fwd.h"@.subrange(22, 28) =~= "-fwd.h"@);
    assert(forward_include_stem("mongoac/client_session-fwd.h"@) =~= "client_session"@);
    assert(!skipped_forward_header("client_session"@));
    assert("mongoac/cursor-fwd.h"@.subrange(0, 8) =~= "mongoac/"@);
    assert("mongoac/cursor-fwd.h"@.subrange(14, 20) =~= "-fwd.h"@);
    assert(forward_include_stem("mongoac/cursor-fwd.h"@) =~= "cursor"@);
    assert("cursor"@[0] != "string"@[0]);
    assert(!skipped_forward_header("cursor"@));
    assert("mongoac/error-fwd.h"@.subrange(0, 8) =~= "mongoac/"@);
    assert("mongoac/error-fwd.h"@.subrange(13, 19) =~= "-fwd.h"@);
    assert(forward_include_stem("mongoac/error-fwd.h"@) =~= "error"@);
    assert(!skipped_forward_header("error"@));
    assert("mongoac/future-fwd.h"@.subrange(0, 8) =~= "mongoac/"@);
    assert("mongoac/future-fwd.h"@.subrange(14, 20) =~= "-fwd.h"@);
    assert(forward_include_stem("mongoac/future-fwd.h"@) =~= "future"@);
    assert("future"@[0] != "string"@[0]);
    assert(!skipped_forward_header("future"@));
    assert("mongoac/drop_collection_options-fwd.h"@.subrange(0, 8) =~= "mongoac/"@);
    assert("mongoac/drop_collection_options-fwd.h"@.subrange(31, 37) =~= "-fwd.h"@);
    assert(forward_include_stem("mongoac/drop_collection_options-fwd.h"@) =~= "drop_collection_options"@);
    assert(!skipped_forward_header("drop_collection_options"@));
    assert("mongoac/insert_one_options-fwd.h"@.subrange(0, 8) =~= "mongoac/"@);
    assert("mongoac/insert_one_options-fwd.h"@.subrange(26, 32) =~= "-fwd.h"@);
    assert(forward_include_stem("mongoac/insert_one_options-fwd.h"@) =~= "insert_one_options"@);
    assert(!skipped_forward_header("insert_one_options"@));
    assert("mongoac/insert_many_options-fwd.h"@.subrange(0, 8) =~= "mongoac/"@);
    assert("mongoac/insert_many_options-fwd.h"@.subrange(27, 33) =~= "-fwd.h"@);
    assert(forward_include_stem("mongoac/insert_many_options-fwd.h"@) =~= "insert_many_options"@);
    assert(!skipped_forward_header("insert_many_options"@));
    assert("mongoac/find_options-fwd.h"@.subrange(0, 8) =~= "mongoac/"@);
    assert("mongoac/find_options-fwd.h"@.subrange(20, 26) =~= "-fwd.h"@);
    assert(forward_include_stem("mongoac/find_options-fwd.h"@) =~= "find_options"@);
    assert(!skipped_forward_header("find_options"@));
    assert("mongoac/find_one_options-fwd.h"@.subrange(0, 8) =~= "mongoac/"@);
    assert("mongoac/find_one_options-fwd.h"@.subrange(24, 30) =~= "-fwd.h"@);
    assert(forward_include_stem("mongoac/find_one_options-fwd.h"@) =~= "find_one_options"@);
    assert(!skipped_forward_header("find_one_options"@));
    assert("mongoac/delete_options-fwd.h"@.subrange(0, 8) =~= "mongoac/"@);
    assert("mongoac/delete_options-fwd.h"@.subrange(22, 28) =~= "-fwd.h"@);
    assert(forward_include_stem("mongoac/delete_options-fwd.h"@) =~= "delete_options"@);
    assert(!skipped_forward_header("delete_options"@));
    assert("mongoac/replace_options-fwd.h"@.subrange(0, 8) =~= "mongoac/"@);
    assert("mongoac/replace_options-fwd.h"@.subrange(23, 29) =~= "-fwd.h"@);
    assert(forward_include_stem("mongoac/replace_options-fwd.h"@) =~= "replace_options"@);
    assert(!skipped_forward_header("replace_options"@));
    assert("mongoac/update_options-fwd.h"@.subrange(0, 8) =~= "mongoac/"@);
    assert("mongoac/update_options-fwd.h"@.subrange(22, 28) =~= "-fwd.h"@);
    assert(forward_include_stem("mongoac/update_options-fwd.h"@) =~= "update_options"@);
    assert(!skipped_forward_header("update_options"@));
    assert("mongoac/count_options-fwd.h"@.subrange(0, 8) =~= "mongoac/"@);
    assert("mongoac/count_options-fwd.h"@.subrange(21, 27) =~= "-fwd.h"@);
    assert(forward_include_stem("mongoac/count_options-fwd.h"@) =~= "count_options"@);
    assert(!skipped_forward_header("count_options"@));
    assert("mongoac/estimated_document_count_options-fwd.h"@.subrange(0, 8) =~= "mongoac/"@);
    assert("mongoac/estimated_document_count_options-fwd.h"@.subrange(40, 46) =~= "-fwd.h"@);
    assert(forward_include_stem("mongoac/estimated_document_count_options-fwd.h"@) =~= "estimated_document_count_options"@);
    assert(!skipped_forward_header("estimated_document_count_options"@));
    assert("mongoac/distinct_options-fwd.h"@.subrange(0, 8) =~= "mongoac/"@);
    assert("mongoac/distinct_options-fwd.h"@.subrange(24, 30) =~= "-fwd.h"@);
    assert(forward_include_stem("mongoac/distinct_options-fwd.h"@) =~= "distinct_options"@);
    assert(!skipped_forward_header("distinct_options"@));
    assert("mongoac/aggregate_options-fwd.h"@.subrange(0, 8) =~= "mongoac/"@);
    assert("mongoac/aggregate_options-fwd.h"@.subrange(25, 31) =~= "-fwd.h"@);
    assert(forward_include_stem("mongoac/aggregate_options-fwd.h"@) =~= "aggregate_options"@);
    assert(!skipped_forward_header("aggregate_options"@));
    assert("mongoac/collection_options-fwd.h"@.subrange(0, 8) =~= "mongoac/"@);
    assert("mongoac/collection_options-fwd.h"@.subrange(26, 32) =~= "-fwd.h"@);
    assert(forward_include_stem("mongoac/collection_options-fwd.h"@) =~= "collection_options"@);
    assert(!skipped_forward_header("collection_options"@));
    assert("mongoac/bson.h"@.subrange(8, 14)[0] != "-fwd.h"@[0]);
    assert(!is_forward_include("mongoac/bson.h"@));
    assert("mongoac/string.h"@.subrange(10, 16)[0] != "-fwd.h"@[0]);
    assert(!is_forward_include("mongoac/string.h"@));
    assert(!is_forward_include("stdint.h"@));
    let s = seq!["mongoac/database-fwd.h"@, "mongoac/client_session-fwd.h"@, "mongoac/cursor-fwd.h"@, "mongoac/error-fwd.h"@, "mongoac/future-fwd.h"@, "mongoac/drop_collection_options-fwd.h"@, "mongoac/insert_one_options-fwd.h"@, "mongoac/insert_many_options-fwd.h"@, "mongoac/find_options-fwd.h"@, "mongoac/find_one_options-fwd.h"@, "mongoac/delete_options-fwd.h"@, "mongoac/replace_options-fwd.h"@, "mongoac/update_options-fwd.h"@, "mongoac/count_options-fwd.h"@, "mongoac/estimated_document_count_options-fwd.h"@, "mongoac/distinct_options-fwd.h"@, "mongoac/aggregate_options-fwd.h"@, "mongoac/collection_options-fwd.h"@, "mongoac/bson.h"@, "mongoac/string.h"@, "stdint.h"@];
    assert(forward_includes_are_generated(s));
}

proof fn forward_includes_generated_6()
    ensures
        forward_includes_are_generated(seq!["mongoac/error-fwd.h"@, "mongoac/bson.h"@]),
{
    reveal_strlit("-fwd.h");
    reveal_strlit("bson");
    reveal_strlit("cursor_type");
    reveal_strlit("error");
    reveal_strlit("mongoac/");
    reveal_strlit("mongoac/bson.h");
    reveal_strlit("mongoac/error-fwd.h");
    reveal_strlit("string");
    assert("-fwd.h"@.len() == 6);
    assert("bson"@.len() == 4);
    assert("cursor_type"@.len() == 11);
    assert("error"@.len() == 5);
    assert("mongoac/"@.len() == 8);
    assert("mongoac/bson.h"@.len() == 14);
    assert("mongoac/error-fwd.h"@.len() == 19);
    assert("string"@.len() == 6);
    assert("mongoac/error-fwd.h"@.subrange(0, 8) =~= "mongoac/"@);
    assert("mongoac/error-fwd.h"@.subrange(13, 19) =~= "-fwd.h"@);
    assert(forward_include_stem("mongoac/error-fwd.h"@) =~= "error"@);
    assert(!skipped_forward_header("error"@));
    assert("mongoac/bson.h"@.subrange(8, 14)[0] != "-fwd.h"@[0]);
    assert(!is_forward_include("mongoac/bson.h"@));
    let s = seq!["mongoac/error-fwd.h"@, "mongoac/bson.h"@];
    assert(forward_includes_are_generated(s));
}

proof fn forward_includes_generated_7()
    ensures
        forward_includes_are_generated(seq!["mongoac/read_concern-fwd.h"@, "mongoac/write_concern-fwd.h"@, "mongoac/read_preference-fwd.h"@, "mongoac/server_selector-fwd.h"@]),
{
    reveal_strlit("-fwd.h");
    reveal_strlit("bson");
    reveal_strlit("cursor_type");
    reveal_strlit("mongoac/");
    reveal_strlit("mongoac/read_concern-fwd.h");
    reveal_strlit("mongoac/read_preference-fwd.h");
    reveal_strlit("mongoac/server_selector-fwd.h");
    reveal_strlit("mongoac/write_concern-fwd.h");
    reveal_strlit("read_concern");
    reveal_strlit("read_preference");
    reveal_strlit("server_selector");
    reveal_strlit("string");
    reveal_strlit("write_concern");
    assert("-fwd.h"@.len() == 6);
    assert("bson"@.len() == 4);
    assert("cursor_type"@.len() == 11);
    assert("mongoac/"@.len() == 8);
    assert("mongoac/read_concern-fwd.h"@.len() == 26);
    assert("mongoac/read_preference-fwd.h"@.len() == 29);
    assert("mongoac/server_selector-fwd.h"@.len() == 29);
    assert("mongoac/write_concern-fwd.h"@.len() == 27);
    assert("read_concern"@.len() == 12);
    assert("read_preference"@.len() == 15);
    assert("server_selector"@.len() == 15);
    assert("string"@.len() == 6);
    assert("write_concern"@.len() == 13);
    assert("mongoac/read_concern-fwd.h"@.subrange(0, 8) =~= "mongoac/"@);
    assert("mongoac/read_concern-fwd.h"@.subrange(20, 26) =~= "-fwd.h"@);
    assert(forward_include_stem("mongoac/read_concern-fwd.h"@) =~= "read_concern"@);
    assert(!skipped_forward_header("read_concern"@));
    assert("mongoac/write_concern-fwd.h"@.subrange(0, 8) =~= "mongoac/"@);
    assert("mongoac/write_concern-fwd.h"@.subrange(21, 27) =~= "-fwd.h"@);
    assert(forward_include_stem("mongoac/write_concern-fwd.h"@) =~= "write_concern"@);
    assert(!skipped_forward_header("write_concern"@));
    assert("mongoac/read_preference-fwd.h"@.subrange(0, 8) =~= "mongoac/"@);
    assert("mongoac/read_preference-fwd.h"@.subrange(23, 29) =~= "-fwd.h"@);
    assert(forward_include_stem("mongoac/read_preference-fwd.h"@) =~= "read_preference"@);
    assert(!skipped_forward_header("read_preference"@));
    assert("mongoac/server_selector-fwd.h"@.subrange(0, 8) =~= "mongoac/"@);
    assert("mongoac/server_selector-fwd.h"@.subrange(23, 29) =~= "-fwd.h"@);
    assert(forward_include_stem("mongoac/server_selector-fwd.h"@) =~= "server_selector"@);
    assert(!skipped_forward_header("server_selector"@));
    let s = seq!["mongoac/read_concern-fwd.h"@, "mongoac/write_concern-fwd.h"@, "mongoac/read_preference-fwd.h"@, "mongoac/server_selector-fwd.h"@];
    assert(forward_includes_are_generated(s));
}

proof fn forward_includes_generated_8()
    ensures
        forward_includes_are_generated(seq!["mongoac/error-fwd.h"@, "mongoac/bson.h"@, "mongoac/string.h"@, "stdint.h"@]),
{
    reveal_strlit("-fwd.h");
    reveal_strlit("bson");
    reveal_strlit("cursor_type");
    reveal_strlit("error");
    reveal_strlit("mongoac/");
    reveal_strlit("mongoac/bson.h");
    reveal_strlit("mongoac/error-fwd.h");
    reveal_strlit("mongoac/string.h");
    reveal_strlit("stdint.h");
    reveal_strlit("string");
    assert("-fwd.h"@.len() == 6);
    assert("bson"@.len() == 4);
    assert("cursor_type"@.len() == 11);
    assert("error"@.len() == 5);
    assert("mongoac/"@.len() == 8);
    assert("mongoac/bson.h"@.len() == 14);
    assert("mongoac/error-fwd.h"@.len() == 19);
    assert("mongoac/string.h"@.len() == 16);
    assert("stdint.h"@.len() == 8);
    assert("string"@.len() == 6);
    assert("mongoac/error-fwd.h"@.subrange(0, 8) =~= "mongoac/"@);
    assert("mongoac/error-fwd.h"@.subrange(13, 19) =~= "-fwd.h"@);
    assert(forward_include_stem("mongoac/error-fwd.h"@) =~= "error"@);
    assert(!skipped_forward_header("error"@));
    assert("mongoac/bson.h"@.subrange(8, 14)[0] != "-fwd.h"@[0]);
    assert(!is_forward_include("mongoac/bson.h"@));
    assert("mongoac/string.h"@.subrange(10, 16)[0] != "-fwd.h"@[0]);
    assert(!is_forward_include("mongoac/string.h"@));
    assert(!is_forward_include("stdint.h"@));
    let s = seq!["mongoac/error-fwd.h"@, "mongoac/bson.h"@, "mongoac/string.h"@, "stdint.h"@];
    assert(forward_includes_are_generated(s));
}

proof fn forward_includes_generated_9()
    ensures
        forward_includes_are_generated(seq!["stdint.h"@]),
{
    reveal_strlit("-fwd.h");
    reveal_strlit("bson");
    reveal_strlit("cursor_type");
    reveal_strlit("mongoac/");
    reveal_strlit("stdint.h");
    reveal_strlit("string");
    assert("-fwd.h"@.len() == 6);
    assert("bson"@.len() == 4);
    assert("cursor_type"@.len() == 11);
    assert("mongoac/"@.len() == 8);
    assert("stdint.h"@.len() == 8);
    assert("string"@.len() == 6);
    assert(!is_forward_include("stdint.h"@));
    let s = seq!["stdint.h"@];
    assert(forward_includes_are_generated(s));
}

proof fn forward_includes_generated_10()
    ensures
        forward_includes_are_generated(seq!["mongoac/error-fwd.h"@, "mongoac/future-fwd.h"@, "mongoac/bson.h"@, "stdbool.h"@]),
{
    reveal_strlit("-fwd.h");
    reveal_strlit("bson");
    reveal_strlit("cursor_type");
    reveal_strlit("error");
    reveal_strlit("future");
    reveal_strlit("mongoac/");
    reveal_strlit("mongoac/bson.h");
    reveal_strlit("mongoac/error-fwd.h");
    reveal_strlit("mongoac/future-fwd.h");
    reveal_strlit("stdbool.h");
    reveal_strlit("string");
    assert("-fwd.h"@.len() == 6);
    assert("bson"@.len() == 4);
    assert("cursor_type"@.len() == 11);
    assert("error"@.len() == 5);
    assert("future"@.len() == 6);
    assert("mongoac/"@.len() == 8);
    assert("mongoac/bson.h"@.len() == 14);
    assert("mongoac/error-fwd.h"@.len() == 19);
    assert("mongoac/future-fwd.h"@.len() == 20);
    assert("stdbool.h"@.len() == 9);
    assert("string"@.len() == 6);
    assert("mongoac/error-fwd.h"@.subrange(0, 8) =~= "mongoac/"@);
    assert("mongoac/error-fwd.h"@.subrange(13, 19) =~= "-fwd.h"@);
    assert(forward_include_stem("mongoac/error-fwd.h"@) =~= "error"@);
    assert(!skipped_forward_header("error"@));
    assert("mongoac/future-fwd.h"@.subrange(0, 8) =~= "mongoac/"@);
    assert("mongoac/future-fwd.h"@.subrange(14, 20) =~= "-fwd.h"@);
    assert(forward_include_stem("mongoac/future-fwd.h"@) =~= "future"@);
    assert("future"@[0] != "string"@[0]);
    assert(!skipped_forward_header("future"@));
    assert("mongoac/bson.h"@.subrange(8, 14)[0] != "-fwd.h"@[0]);
    assert(!is_forward_include("mongoac/bson.h"@));
    assert(!is_forward_include("stdbool.h"@));
    let s = seq!["mongoac/error-fwd.h"@, "mongoac/future-fwd.h"@, "mongoac/bson.h"@, "stdbool.h"@];
    assert(forward_includes_are_generated(s));
}

proof fn forward_includes_generated_11()
    ensures
        forward_includes_are_generated(seq!["mongoac/client-fwd.h"@, "mongoac/client_session-fwd.h"@, "mongoac/cursor-fwd.h"@, "mongoac/error-fwd.h"@, "mongoac/future-fwd.h"@, "mongoac/list_collections_options-fwd.h"@, "mongoac/drop_database_options-fwd.h"@, "mongoac/database_options-fwd.h"@, "mongoac/create_collection_options-fwd.h"@, "mongoac/run_command_options-fwd.h"@, "mongoac/run_cursor_command_options-fwd.h"@, "mongoac/bson.h"@, "mongoac/string.h"@]),
{
    reveal_strlit("-fwd.h");
    reveal_strlit("bson");
    reveal_strlit("client");
    reveal_strlit("client_session");
    reveal_strlit("create_collection_options");
    reveal_strlit("cursor");
    reveal_strlit("cursor_type");
    reveal_strlit("database_options");
    reveal_strlit("drop_database_options");
    reveal_strlit("error");
    reveal_strlit("future");
    reveal_strlit("list_collections_options");
    reveal_strlit("mongoac/");
    reveal_strlit("mongoac/bson.h");
    reveal_strlit("mongoac/client-fwd.h");
    reveal_strlit("mongoac/client_session-fwd.h");
    reveal_strlit("mongoac/create_collection_options-fwd.h");
    reveal_strlit("mongoac/cursor-fwd.h");
    reveal_strlit("mongoac/database_options-fwd.h");
    reveal_strlit("mongoac/drop_database_options-fwd.h");
    reveal_strlit("mongoac/error-fwd.h");
    reveal_strlit("mongoac/future-fwd.h");
    reveal_strlit("mongoac/list_collections_options-fwd.h");
    reveal_strlit("mongoac/run_command_options-fwd.h");
    reveal_strlit("mongoac/run_cursor_command_options-fwd.h");
    reveal_strlit("mongoac/string.h");
    reveal_strlit("run_command_options");
    reveal_strlit("run_cursor_command_options");
    reveal_strlit("string");
    assert("-fwd.h"@.len() == 6);
    assert("bson"@.len() == 4);
    assert("client"@.len() == 6);
    assert("client_session"@.len() == 14);
    assert("create_collection_options"@.len() == 25);
    assert("cursor"@.len() == 6);
    assert("cursor_type"@.len() == 11);
    assert("database_options"@.len() == 16);
    assert("drop_database_options"@.len() == 21);
    assert("error"@.len() == 5);
    assert("future"@.len() == 6);
    assert("list_collections_options"@.len() == 24);
    assert("mongoac/"@.len() == 8);
    assert("mongoac/bson.h"@.len() == 14);
    assert("mongoac/client-fwd.h"@.len() == 20);
    assert("mongoac/client_session-fwd.h"@.len() == 28);
    assert("mongoac/create_collection_options-fwd.h"@.len() == 39);
    assert("mongoac/cursor-fwd.h"@.len() == 20);
    assert("mongoac/database_options-fwd.h"@.len() == 30);
    assert("mongoac/drop_database_options-fwd.h"@.len() == 35);
    assert("mongoac/error-fwd.h"@.len() == 19);
    assert("mongoac/future-fwd.h"@.len() == 20);
    assert("mongoac/list_collections_options-fwd.h"@.len() == 38);
    assert("mongoac/run_command_options-fwd.h"@.len() == 33);
    assert("mongoac/run_cursor_command_options-fwd.h"@.len() == 40);
    assert("mongoac/string.h"@.len() == 16);
    assert("run_command_options"@.len() == 19);
    assert("run_cursor_command_options"@.len() == 26);
    assert("string"@.len() == 6);
    assert("mongoac/client-fwd.h"@.subrange(0, 8) =~= "mongoac/"@);
    assert("mongoac/client-fwd.h"@.subrange(14, 20) =~= "-fwd.h"@);
    assert(forward_include_stem("mongoac/client-fwd.h"@) =~= "client"@);
    assert("client"@[0] != "string"@[0]);
    assert(!skipped_forward_header("client"@));
    assert("mongoac/client_session-fwd.h"@.subrange(0, 8) =~= "mongoac/"@);
    assert("mongoac/client_session-fwd.h"@.subrange(22, 28) =~= "-fwd.h"@);
    assert(forward_include_stem("mongoac/client_session-fwd.h"@) =~= "client_session"@);
    assert(!skipped_forward_header("client_session"@));
    assert("mongoac/cursor-fwd.h"@.subrange(0, 8) =~= "mongoac/"@);
    assert("mongoac/cursor-fwd.h"@.subrange(14, 20) =~= "-fwd.h"@);
    assert(forward_include_stem("mongoac/cursor-fwd.h"@) =~= "cursor"@);
    assert("cursor"@[0] != "string"@[0]);
    assert(!skipped_forward_header("cursor"@));
    assert("mongoac/error-fwd.h"@.subrange(0, 8) =~= "mongoac/"@);
    assert("mongoac/error-fwd.h"@.subrange(13, 19) =~= "-fwd.h"@);
    assert(forward_include_stem("mongoac/error-fwd.h"@) =~= "error"@);
    assert(!skipped_forward_header("error"@));
    assert("mongoac/future-fwd.h"@.subrange(0, 8) =~= "mongoac/"@);
    assert("mongoac/future-fwd.h"@.subrange(14, 20) =~= "-fwd.h"@);
    assert(forward_include_stem("mongoac/future-fwd.h"@) =~= "future"@);
    assert("future"@[0] != "string"@[0]);
    assert(!skipped_forward_header("future"@));
    assert("mongoac/list_collections_options-fwd.h"@.subrange(0, 8) =~= "mongoac/"@);
    assert("mongoac/list_collections_options-fwd.h"@.subrange(32, 38) =~= "-fwd.h"@);
    assert(forward_include_stem("mongoac/list_collections_options-fwd.h"@) =~= "list_collections_options"@);
    assert(!skipped_forward_header("list_collections_options"@));
    assert("mongoac/drop_database_options-fwd.h"@.subrange(0, 8) =~= "mongoac/"@);
    assert("mongoac/drop_database_options-fwd.h"@.subrange(29, 35) =~= "-fwd.h"@);
    assert(forward_include_stem("mongoac/drop_database_options-fwd.h"@) =~= "drop_database_options"@);
    assert(!skipped_forward_header("drop_database_options"@));
    assert("mongoac/database_options-fwd.h"@.subrange(0, 8) =~= "mongoac/"@);
    assert("mongoac/database_options-fwd.h"@.subrange(24, 30) =~= "-fwd.h"@);
    assert(forward_include_stem("mongoac/database_options-fwd.h"@) =~= "database_options"@);
    assert(!skipped_forward_header("database_options"@));
    assert("mongoac/create_collection_options-fwd.h"@.subrange(0, 8) =~= "mongoac/"@);
    assert("mongoac/create_collection_options-fwd.h"@.subrange(33, 39) =~= "-fwd.h"@);
    assert(forward_include_stem("mongoac/create_collection_options-fwd.h"@) =~= "create_collection_options"@);
    assert(!skipped_forward_header("create_collection_options"@));
    assert("mongoac/run_command_options-fwd.h"@.subrange(0, 8) =~= "mongoac/"@);
    assert("mongoac/run_command_options-fwd.h"@.subrange(27, 33) =~= "-fwd.h"@);
    assert(forward_include_stem("mongoac/run_command_options-fwd.h"@) =~= "run_command_options"@);
    assert(!skipped_forward_header("run_command_options"@));
    assert("mongoac/run_cursor_command_options-fwd.h"@.subrange(0, 8) =~= "mongoac/"@);
    assert("mongoac/run_cursor_command_options-fwd.h"@.subrange(34, 40) =~= "-fwd.h"@);
    assert(forward_include_stem("mongoac/run_cursor_command_options-fwd.h"@) =~= "run_cursor_command_options"@);
    assert(!skipped_forward_header("run_cursor_command_options"@));
    assert("mongoac/bson.h"@.subrange(8, 14)[0] != "-fwd.h"@[0]);
    assert(!is_forward_include("mongoac/bson.h"@));
    assert("mongoac/string.h"@.subrange(10, 16)[0] != "-fwd.h"@[0]);
    assert(!is_forward_include("mongoac/string.h"@));
    let s = seq!["mongoac/client-fwd.h"@, "mongoac/client_session-fwd.h"@, "mongoac/cursor-fwd.h"@, "mongoac/error-fwd.h"@, "mongoac/future-fwd.h"@, "mongoac/list_collections_options-fwd.h"@, "mongoac/drop_database_options-fwd.h"@, "mongoac/database_options-fwd.h"@, "mongoac/create_collection_options-fwd.h"@, "mongoac/run_command_options-fwd.h"@, "mongoac/run_cursor_command_options-fwd.h"@, "mongoac/bson.h"@, "mongoac/string.h"@];
    assert(forward_includes_are_generated(s));
}

proof fn forward_includes_generated_12()
    ensures
        forward_includes_are_generated(seq!["mongoac/read_concern-fwd.h"@, "mongoac/write_concern-fwd.h"@, "mongoac/read_preference-fwd.h"@, "mongoac/server_selector-fwd.h"@]),
{
    reveal_strlit("-fwd.h");
    reveal_strlit("bson");
    reveal_strlit("cursor_type");
    reveal_strlit("mongoac/");
    reveal_strlit("mongoac/read_concern-fwd.h");
    reveal_strlit("mongoac/read_preference-fwd.h");
    reveal_strlit("mongoac/server_selector-fwd.h");
    reveal_strlit("mongoac/write_concern-fwd.h");
    reveal_strlit("read_concern");
    reveal_strlit("read_preference");
    reveal_strlit("server_selector");
    reveal_strlit("string");
    reveal_strlit("write_concern");
    assert("-fwd.h"@.len() == 6);
    assert("bson"@.len() == 4);
    assert("cursor_type"@.len() == 11);
    assert("mongoac/"@.len() == 8);
    assert("mongoac/read_concern-fwd.h"@.len() == 26);
    assert("mongoac/read_preference-fwd.h"@.len() == 29);
    assert("mongoac/server_selector-fwd.h"@.len() == 29);
    assert("mongoac/write_concern-fwd.h"@.len() == 27);
    assert("read_concern"@.len() == 12);
    assert("read_preference"@.len() == 15);
    assert("server_selector"@.len() == 15);
    assert("string"@.len() == 6);
    assert("write_concern"@.len() == 13);
    assert("mongoac/read_concern-fwd.h"@.subrange(0, 8) =~= "mongoac/"@);
    assert("mongoac/read_concern-fwd.h"@.subrange(20, 26) =~= "-fwd.h"@);
    assert(forward_include_stem("mongoac/read_concern-fwd.h"@) =~= "read_concern"@);
    assert(!skipped_forward_header("read_concern"@));
    assert("mongoac/write_concern-fwd.h"@.subrange(0, 8) =~= "mongoac/"@);
    assert("mongoac/write_concern-fwd.h"@.subrange(21, 27) =~= "-fwd.h"@);
    assert(forward_include_stem("mongoac/write_concern-fwd.h"@) =~= "write_concern"@);
    assert(!skipped_forward_header("write_concern"@));
    assert("mongoac/read_preference-fwd.h"@.subrange(0, 8) =~= "mongoac/"@);
    assert("mongoac/read_preference-fwd.h"@.subrange(23, 29) =~= "-fwd.h"@);
    assert(forward_include_stem("mongoac/read_preference-fwd.h"@) =~= "read_preference"@);
    assert(!skipped_forward_header("read_preference"@));
    assert("mongoac/server_selector-fwd.h"@.subrange(0, 8) =~= "mongoac/"@);
    assert("mongoac/server_selector-fwd.h"@.subrange(23, 29) =~= "-fwd.h"@);
    assert(forward_include_stem("mongoac/server_selector-fwd.h"@) =~= "server_selector"@);
    assert(!skipped_forward_header("server_selector"@));
    let s = seq!["mongoac/read_concern-fwd.h"@, "mongoac/write_concern-fwd.h"@, "mongoac/read_preference-fwd.h"@, "mongoac/server_selector-fwd.h"@];
    assert(forward_includes_are_generated(s));
}

proof fn forward_includes_generated_13()
    ensures
        forward_includes_are_generated(seq!["mongoac/error-fwd.h"@, "mongoac/write_concern-fwd.h"@, "mongoac/bson.h"@]),
{
    reveal_strlit("-fwd.h");
    reveal_strlit("bson");
    reveal_strlit("cursor_type");
    reveal_strlit("error");
    reveal_strlit("mongoac/");
    reveal_strlit("mongoac/bson.h");
    reveal_strlit("mongoac/error-fwd.h");
    reveal_strlit("mongoac/write_concern-fwd.h");
    reveal_strlit("string");
    reveal_strlit("write_concern");
    assert("-fwd.h"@.len() == 6);
    assert("bson"@.len() == 4);
    assert("cursor_type"@.len() == 11);
    assert("error"@.len() == 5);
    assert("mongoac/"@.len() == 8);
    assert("mongoac/bson.h"@.len() == 14);
    assert("mongoac/error-fwd.h"@.len() == 19);
    assert("mongoac/write_concern-fwd.h"@.len() == 27);
    assert("string"@.len() == 6);
    assert("write_concern"@.len() == 13);
    assert("mongoac/error-fwd.h"@.subrange(0, 8) =~= "mongoac/"@);
    assert("mongoac/error-fwd.h"@.subrange(13, 19) =~= "-fwd.h"@);
    assert(forward_include_stem("mongoac/error-fwd.h"@) =~= "error"@);
    assert(!skipped_forward_header("error"@));
    assert("mongoac/write_concern-fwd.h"@.subrange(0, 8) =~= "mongoac/"@);
    assert("mongoac/write_concern-fwd.h"@.subrange(21, 27) =~= "-fwd.h"@);
    assert(forward_include_stem("mongoac/write_concern-fwd.h"@) =~= "write_concern"@);
    assert(!skipped_forward_header("write_concern"@));
    assert("mongoac/bson.h"@.subrange(8, 14)[0] != "-fwd.h"@[0]);
    assert(!is_forward_include("mongoac/bson.h"@));
    let s = seq!["mongoac/error-fwd.h"@, "mongoac/write_concern-fwd.h"@, "mongoac/bson.h"@];
    assert(forward_includes_are_generated(s));
}

proof fn forward_includes_generated_14()
    ensures
        forward_includes_are_generated(seq!["mongoac/error-fwd.h"@, "mongoac/write_concern-fwd.h"@, "mongoac/bson.h"@, "stdbool.h"@]),
{
    reveal_strlit("-fwd.h");
    reveal_strlit("bson");
    reveal_strlit("cursor_type");
    reveal_strlit("error");
    reveal_strlit("mongoac/");
    reveal_strlit("mongoac/bson.h");
    reveal_strlit("mongoac/error-fwd.h");
    reveal_strlit("mongoac/write_concern-fwd.h");
    reveal_strlit("stdbool.h");
    reveal_strlit("string");
    reveal_strlit("write_concern");
    assert("-fwd.h"@.len() == 6);
    assert("bson"@.len() == 4);
    assert("cursor_type"@.len() == 11);
    assert("error"@.len() == 5);
    assert("mongoac/"@.len() == 8);
    assert("mongoac/bson.h"@.len() == 14);
    assert("mongoac/error-fwd.h"@.len() == 19);
    assert("mongoac/write_concern-fwd.h"@.len() == 27);
    assert("stdbool.h"@.len() == 9);
    assert("string"@.len() == 6);
    assert("write_concern"@.len() == 13);
    assert("mongoac/error-fwd.h"@.subrange(0, 8) =~= "mongoac/"@);
    assert("mongoac/error-fwd.h"@.subrange(13, 19) =~= "-fwd.h"@);
    assert(forward_include_stem("mongoac/error-fwd.h"@) =~= "error"@);
    assert(!skipped_forward_header("error"@));
    assert("mongoac/write_concern-fwd.h"@.subrange(0, 8) =~= "mongoac/"@);
    assert("mongoac/write_concern-fwd.h"@.subrange(21, 27) =~= "-fwd.h"@);
    assert(forward_include_stem("mongoac/write_concern-fwd.h"@) =~= "write_concern"@);
    assert(!skipped_forward_header("write_concern"@));
    assert("mongoac/bson.h"@.subrange(8, 14)[0] != "-fwd.h"@[0]);
    assert(!is_forward_include("mongoac/bson.h"@));
    assert(!is_forward_include("stdbool.h"@));
    let s = seq!["mongoac/error-fwd.h"@, "mongoac/write_concern-fwd.h"@, "mongoac/bson.h"@, "stdbool.h"@];
    assert(forward_includes_are_generated(s));
}

proof fn forward_includes_generated_15()
    ensures
        forward_includes_are_generated(seq!["mongoac/error-fwd.h"@, "mongoac/write_concern-fwd.h"@, "mongoac/bson.h"@, "stdbool.h"@]),
{
    reveal_strlit("-fwd.h");
    reveal_strlit("bson");
    reveal_strlit("cursor_type");
    reveal_strlit("error");
    reveal_strlit("mongoac/");
    reveal_strlit("mongoac/bson.h");
    reveal_strlit("mongoac/error-fwd.h");
    reveal_strlit("mongoac/write_concern-fwd.h");
    reveal_strlit("stdbool.h");
    reveal_strlit("string");
    reveal_strlit("write_concern");
    assert("-fwd.h"@.len() == 6);
    assert("bson"@.len() == 4);
    assert("cursor_type"@.len() == 11);
    assert("error"@.len() == 5);
    assert("mongoac/"@.len() == 8);
    assert("mongoac/bson.h"@.len() == 14);
    assert("mongoac/error-fwd.h"@.len() == 19);
    assert("mongoac/write_concern-fwd.h"@.len() == 27);
    assert("stdbool.h"@.len() == 9);
    assert("string"@.len() == 6);
    assert("write_concern"@.len() == 13);
    assert("mongoac/error-fwd.h"@.subrange(0, 8) =~= "mongoac/"@);
    assert("mongoac/error-fwd.h"@.subrange(13, 19) =~= "-fwd.h"@);
    assert(forward_include_stem("mongoac/error-fwd.h"@) =~= "error"@);
    assert(!skipped_forward_header("error"@));
    assert("mongoac/write_concern-fwd.h"@.subrange(0, 8) =~= "mongoac/"@);
    assert("mongoac/write_concern-fwd.h"@.subrange(21, 27) =~= "-fwd.h"@);
    assert(forward_include_stem("mongoac/write_concern-fwd.h"@) =~= "write_concern"@);
    assert(!skipped_forward_header("write_concern"@));
    assert("mongoac/bson.h"@.subrange(8, 14)[0] != "-fwd.h"@[0]);
    assert(!is_forward_include("mongoac/bson.h"@));
    assert(!is_forward_include("stdbool.h"@));
    let s = seq!["mongoac/error-fwd.h"@, "mongoac/write_concern-fwd.h"@, "mongoac/bson.h"@, "stdbool.h"@];
    assert(forward_includes_are_generated(s));
}

proof fn forward_includes_generated_16()
    ensures
        forward_includes_are_generated(seq!["mongoac/error-fwd.h"@, "mongoac/read_concern-fwd.h"@, "mongoac/bson.h"@, "stdint.h"@]),
{
    reveal_strlit("-fwd.h");
    reveal_strlit("bson");
    reveal_strlit("cursor_type");
    reveal_strlit("error");
    reveal_strlit("mongoac/");
    reveal_strlit("mongoac/bson.h");
    reveal_strlit("mongoac/error-fwd.h");
    reveal_strlit("mongoac/read_concern-fwd.h");
    reveal_strlit("read_concern");
    reveal_strlit("stdint.h");
    reveal_strlit("string");
    assert("-fwd.h"@.len() == 6);
    assert("bson"@.len() == 4);
    assert("cursor_type"@.len() == 11);
    assert("error"@.len() == 5);
    assert("mongoac/"@.len() == 8);
    assert("mongoac/bson.h"@.len() == 14);
    assert("mongoac/error-fwd.h"@.len() == 19);
    assert("mongoac/read_concern-fwd.h"@.len() == 26);
    assert("read_concern"@.len() == 12);
    assert("stdint.h"@.len() == 8);
    assert("string"@.len() == 6);
    assert("mongoac/error-fwd.h"@.subrange(0, 8) =~= "mongoac/"@);
    assert("mongoac/error-fwd.h"@.subrange(13, 19) =~= "-fwd.h"@);
    assert(forward_include_stem("mongoac/error-fwd.h"@) =~= "error"@);
    assert(!skipped_forward_header("error"@));
    assert("mongoac/read_concern-fwd.h"@.subrange(0, 8) =~= "mongoac/"@);
    assert("mongoac/read_concern-fwd.h"@.subrange(20, 26) =~= "-fwd.h"@);
    assert(forward_include_stem("mongoac/read_concern-fwd.h"@) =~= "read_concern"@);
    assert(!skipped_forward_header("read_concern"@));
    assert("mongoac/bson.h"@.subrange(8, 14)[0] != "-fwd.h"@[0]);
    assert(!is_forward_include("mongoac/bson.h"@));
    assert(!is_forward_include("stdint.h"@));
    let s = seq!["mongoac/error-fwd.h"@, "mongoac/read_concern-fwd.h"@, "mongoac/bson.h"@, "stdint.h"@];
    assert(forward_includes_are_generated(s));
}

proof fn forward_includes_generated_17()
    ensures
        forward_includes_are_generated(seq!["mongoac/error-fwd.h"@, "mongoac/read_concern-fwd.h"@, "mongoac/bson.h"@, "stdint.h"@]),
{
    reveal_strlit("-fwd.h");
    reveal_strlit("bson");
    reveal_strlit("cursor_type");
    reveal_strlit("error");
    reveal_strlit("mongoac/");
    reveal_strlit("mongoac/bson.h");
    reveal_strlit("mongoac/error-fwd.h");
    reveal_strlit("mongoac/read_concern-fwd.h");
    reveal_strlit("read_concern");
    reveal_strlit("stdint.h");
    reveal_strlit("string");
    assert("-fwd.h"@.len() == 6);
    assert("bson"@.len() == 4);
    assert("cursor_type"@.len() == 11);
    assert("error"@.len() == 5);
    assert("mongoac/"@.len() == 8);
    assert("mongoac/bson.h"@.len() == 14);
    assert("mongoac/error-fwd.h"@.len() == 19);
    assert("mongoac/read_concern-fwd.h"@.len() == 26);
    assert("read_concern"@.len() == 12);
    assert("stdint.h"@.len() == 8);
    assert("string"@.len() == 6);
    assert("mongoac/error-fwd.h"@.subrange(0, 8) =~= "mongoac/"@);
    assert("mongoac/error-fwd.h"@.subrange(13, 19) =~= "-fwd.h"@);
    assert(forward_include_stem("mongoac/error-fwd.h"@) =~= "error"@);
    assert(!skipped_forward_header("error"@));
    assert("mongoac/read_concern-fwd.h"@.subrange(0, 8) =~= "mongoac/"@);
    assert("mongoac/read_concern-fwd.h"@.subrange(20, 26) =~= "-fwd.h"@);
    assert(forward_include_stem("mongoac/read_concern-fwd.h"@) =~= "read_concern"@);
    assert(!skipped_forward_header("read_concern"@));
    assert("mongoac/bson.h"@.subrange(8, 14)[0] != "-fwd.h"@[0]);
    assert(!is_forward_include("mongoac/bson.h"@));
    assert(!is_forward_include("stdint.h"@));
    let s = seq!["mongoac/error-fwd.h"@, "mongoac/read_concern-fwd.h"@, "mongoac/bson.h"@, "stdint.h"@];
    assert(forward_includes_are_generated(s));
}

proof fn forward_includes_generated_18()
    ensures
        forward_includes_are_generated(seq!["mongoac/error-fwd.h"@, "mongoac/read_concern-fwd.h"@, "mongoac/bson.h"@, "stdint.h"@]),
{
    reveal_strlit("-fwd.h");
    reveal_strlit("bson");
    reveal_strlit("cursor_type");
    reveal_strlit("error");
    reveal_strlit("mongoac/");
    reveal_strlit("mongoac/bson.h");
    reveal_strlit("mongoac/error-fwd.h");
    reveal_strlit("mongoac/read_concern-fwd.h");
    reveal_strlit("read_concern");
    reveal_strlit("stdint.h");
    reveal_strlit("string");
    assert("-fwd.h"@.len() == 6);
    assert("bson"@.len() == 4);
    assert("cursor_type"@.len() == 11);
    assert("error"@.len() == 5);
    assert("mongoac/"@.len() == 8);
    assert("mongoac/bson.h"@.len() == 14);
    assert("mongoac/error-fwd.h"@.len() == 19);
    assert("mongoac/read_concern-fwd.h"@.len() == 26);
    assert("read_concern"@.len() == 12);
    assert("stdint.h"@.len() == 8);
    assert("string"@.len() == 6);
    assert("mongoac/error-fwd.h"@.subrange(0, 8) =~= "mongoac/"@);
    assert("mongoac/error-fwd.h"@.subrange(13, 19) =~= "-fwd.h"@);
    assert(forward_include_stem("mongoac/error-fwd.h"@) =~= "error"@);
    assert(!skipped_forward_header("error"@));
    assert("mongoac/read_concern-fwd.h"@.subrange(0, 8) =~= "mongoac/"@);
    assert("mongoac/read_concern-fwd.h"@.subrange(20, 26) =~= "-fwd.h"@);
    assert(forward_include_stem("mongoac/read_concern-fwd.h"@) =~= "read_concern"@);
    assert(!skipped_forward_header("read_concern"@));
    assert("mongoac/bson.h"@.subrange(8, 14)[0] != "-fwd.h"@[0]);
    assert(!is_forward_include("mongoac/bson.h"@));
    assert(!is_forward_include("stdint.h"@));
    let s = seq!["mongoac/error-fwd.h"@, "mongoac/read_concern-fwd.h"@, "mongoac/bson.h"@, "stdint.h"@];
    assert(forward_includes_are_generated(s));
}

proof fn forward_includes_generated_19()
    ensures
        forward_includes_are_generated(seq!["mongoac/write_concern-fwd.h"@]),
{
    reveal_strlit("-fwd.h");
    reveal_strlit("bson");
    reveal_strlit("cursor_type");
    reveal_strlit("mongoac/");
    reveal_strlit("mongoac/write_concern-fwd.h");
    reveal_strlit("string");
    reveal_strlit("write_concern");
    assert("-fwd.h"@.len() == 6);
    assert("bson"@.len() == 4);
    assert("cursor_type"@.len() == 11);
    assert("mongoac/"@.len() == 8);
    assert("mongoac/write_concern-fwd.h"@.len() == 27);
    assert("string"@.len() == 6);
    assert("write_concern"@.len() == 13);
    assert("mongoac/write_concern-fwd.h"@.subrange(0, 8) =~= "mongoac/"@);
    assert("mongoac/write_concern-fwd.h"@.subrange(21, 27) =~= "-fwd.h"@);
    assert(forward_include_stem("mongoac/write_concern-fwd.h"@) =~= "write_concern"@);
    assert(!skipped_forward_header("write_concern"@));
    let s = seq!["mongoac/write_concern-fwd.h"@];
    assert(forward_includes_are_generated(s));
}

proof fn forward_includes_generated_20()
    ensures
        forward_includes_are_generated(seq!["mongoac/write_concern-fwd.h"@]),
{
    reveal_strlit("-fwd.h");
    reveal_strlit("bson");
    reveal_strlit("cursor_type");
    reveal_strlit("mongoac/");
    reveal_strlit("mongoac/write_concern-fwd.h");
    reveal_strlit("string");
    reveal_strlit("write_concern");
    assert("-fwd.h"@.len() == 6);
    assert("bson"@.len() == 4);
    assert("cursor_type"@.len() == 11);
    assert("mongoac/"@.len() == 8);
    assert("mongoac/write_concern-fwd.h"@.len() == 27);
    assert("string"@.len() == 6);
    assert("write_concern"@.len() == 13);
    assert("mongoac/write_concern-fwd.h"@.subrange(0, 8) =~= "mongoac/"@);
    assert("mongoac/write_concern-fwd.h"@.subrange(21, 27) =~= "-fwd.h"@);
    assert(forward_include_stem("mongoac/write_concern-fwd.h"@) =~= "write_concern"@);
    assert(!skipped_forward_header("write_concern"@));
    let s = seq!["mongoac/write_concern-fwd.h"@];
    assert(forward_includes_are_generated(s));
}

proof fn forward_includes_generated_21()
    ensures
        forward_includes_are_generated(seq!["mongoac/string.h"@, "stdbool.h"@, "stdint.h"@]),
{
    reveal_strlit("-fwd.h");
    reveal_strlit("bson");
    reveal_strlit("cursor_type");
    reveal_strlit("mongoac/");
    reveal_strlit("mongoac/string.h");
    reveal_strlit("stdbool.h");
    reveal_strlit("stdint.h");
    reveal_strlit("string");
    assert("-fwd.h"@.len() == 6);
    assert("bson"@.len() == 4);
    assert("cursor_type"@.len() == 11);
    assert("mongoac/"@.len() == 8);
    assert("mongoac/string.h"@.len() == 16);
    assert("stdbool.h"@.len() == 9);
    assert("stdint.h"@.len() == 8);
    assert("string"@.len() == 6);
    assert("mongoac/string.h"@.subrange(10, 16)[0] != "-fwd.h"@[0]);
    assert(!is_forward_include("mongoac/string.h"@));
    assert(!is_forward_include("stdbool.h"@));
    assert(!is_forward_include("stdint.h"@));
    let s = seq!["mongoac/string.h"@, "stdbool.h"@, "stdint.h"@];
    assert(forward_includes_are_generated(s));
}

proof fn forward_includes_generated_22()
    ensures
        forward_includes_are_generated(seq!["mongoac/error-fwd.h"@, "mongoac/bson.h"@]),
{
    reveal_strlit("-fwd.h");
    reveal_strlit("bson");
    reveal_strlit("cursor_type");
    reveal_strlit("error");
    reveal_strlit("mongoac/");
    reveal_strlit("mongoac/bson.h");
    reveal_strlit("mongoac/error-fwd.h");
    reveal_strlit("string");
    assert("-fwd.h"@.len() == 6);
    assert("bson"@.len() == 4);
    assert("cursor_type"@.len() == 11);
    assert("error"@.len() == 5);
    assert("mongoac/"@.len() == 8);
    assert("mongoac/bson.h"@.len() == 14);
    assert("mongoac/error-fwd.h"@.len() == 19);
    assert("string"@.len() == 6);
    assert("mongoac/error-fwd.h"@.subrange(0, 8) =~= "mongoac/"@);
    assert("mongoac/error-fwd.h"@.subrange(13, 19) =~= "-fwd.h"@);
    assert(forward_include_stem("mongoac/error-fwd.h"@) =~= "error"@);
    assert(!skipped_forward_header("error"@));
    assert("mongoac/bson.h"@.subrange(8, 14)[0] != "-fwd.h"@[0]);
    assert(!is_forward_include("mongoac/bson.h"@));
    let s = seq!["mongoac/error-fwd.h"@, "mongoac/bson.h"@];
    assert(forward_includes_are_generated(s));
}

proof fn forward_includes_generated_23()
    ensures
        forward_includes_are_generated(seq!["mongoac/error-fwd.h"@, "mongoac/bson.h"@]),
{
    reveal_strlit("-fwd.h");
    reveal_strlit("bson");
    reveal_strlit("cursor_type");
    reveal_strlit("error");
    reveal_strlit("mongoac/");
    reveal_strlit("mongoac/bson.h");
    reveal_strlit("mongoac/error-fwd.h");
    reveal_strlit("string");
    assert("-fwd.h"@.len() == 6);
    assert("bson"@.len() == 4);
    assert("cursor_type"@.len() == 11);
    assert("error"@.len() == 5);
    assert("mongoac/"@.len() == 8);
    assert("mongoac/bson.h"@.len() == 14);
    assert("mongoac/error-fwd.h"@.len() == 19);
    assert("string"@.len() == 6);
    assert("mongoac/error-fwd.h"@.subrange(0, 8) =~= "mongoac/"@);
    assert("mongoac/error-fwd.h"@.subrange(13, 19) =~= "-fwd.h"@);
    assert(forward_include_stem("mongoac/error-fwd.h"@) =~= "error"@);
    assert(!skipped_forward_header("error"@));
    assert("mongoac/bson.h"@.subrange(8, 14)[0] != "-fwd.h"@[0]);
    assert(!is_forward_include("mongoac/bson.h"@));
    let s = seq!["mongoac/error-fwd.h"@, "mongoac/bson.h"@];
    assert(forward_includes_are_generated(s));
}

proof fn forward_includes_generated_24()
    ensures
        forward_includes_are_generated(seq!["mongoac/error-fwd.h"@, "mongoac/runtime-fwd.h"@, "mongoac/bson.h"@, "stdbool.h"@, "stdint.h"@]),
{
    reveal_strlit("-fwd.h");
    reveal_strlit("bson");
    reveal_strlit("cursor_type");
    reveal_strlit("error");
    reveal_strlit("mongoac/");
    reveal_strlit("mongoac/bson.h");
    reveal_strlit("mongoac/error-fwd.h");
    reveal_strlit("mongoac/runtime-fwd.h");
    reveal_strlit("runtime");
    reveal_strlit("stdbool.h");
    reveal_strlit("stdint.h");
    reveal_strlit("string");
    assert("-fwd.h"@.len() == 6);
    assert("bson"@.len() == 4);
    assert("cursor_type"@.len() == 11);
    assert("error"@.len() == 5);
    assert("mongoac/"@.len() == 8);
    assert("mongoac/bson.h"@.len() == 14);
    assert("mongoac/error-fwd.h"@.len() == 19);
    assert("mongoac/runtime-fwd.h"@.len() == 21);
    assert("runtime"@.len() == 7);
    assert("stdbool.h"@.len() == 9);
    assert("stdint.h"@.len() == 8);
    assert("string"@.len() == 6);
    assert("mongoac/error-fwd.h"@.subrange(0, 8) =~= "mongoac/"@);
    assert("mongoac/error-fwd.h"@.subrange(13, 19) =~= "-fwd.h"@);
    assert(forward_include_stem("mongoac/error-fwd.h"@) =~= "error"@);
    assert(!skipped_forward_header("error"@));
    assert("mongoac/runtime-fwd.h"@.subrange(0, 8) =~= "mongoac/"@);
    assert("mongoac/runtime-fwd.h"@.subrange(15, 21) =~= "-fwd.h"@);
    assert(forward_include_stem("mongoac/runtime-fwd.h"@) =~= "runtime"@);
    assert(!skipped_forward_header("runtime"@));
    assert("mongoac/bson.h"@.subrange(8, 14)[0] != "-fwd.h"@[0]);
    assert(!is_forward_include("mongoac/bson.h"@));
    assert(!is_forward_include("stdbool.h"@));
    assert(!is_forward_include("stdint.h"@));
    let s = seq!["mongoac/error-fwd.h"@, "mongoac/runtime-fwd.h"@, "mongoac/bson.h"@, "stdbool.h"@, "stdint.h"@];
    assert(forward_includes_are_generated(s));
}

proof fn forward_includes_generated_25()
    ensures
        forward_includes_are_generated(seq!["mongoac/error-fwd.h"@, "mongoac/write_concern-fwd.h"@, "mongoac/bson.h"@, "stdbool.h"@]),
{
    reveal_strlit("-fwd.h");
    reveal_strlit("bson");
    reveal_strlit("cursor_type");
    reveal_strlit("error");
    reveal_strlit("mongoac/");
    reveal_strlit("mongoac/bson.h");
    reveal_strlit("mongoac/error-fwd.h");
    reveal_strlit("mongoac/write_concern-fwd.h");
    reveal_strlit("stdbool.h");
    reveal_strlit("string");
    reveal_strlit("write_concern");
    assert("-fwd.h"@.len() == 6);
    assert("bson"@.len() == 4);
    assert("cursor_type"@.len() == 11);
    assert("error"@.len() == 5);
    assert("mongoac/"@.len() == 8);
    assert("mongoac/bson.h"@.len() == 14);
    assert("mongoac/error-fwd.h"@.len() == 19);
    assert("mongoac/write_concern-fwd.h"@.len() == 27);
    assert("stdbool.h"@.len() == 9);
    assert("string"@.len() == 6);
    assert("write_concern"@.len() == 13);
    assert("mongoac/error-fwd.h"@.subrange(0, 8) =~= "mongoac/"@);
    assert("mongoac/error-fwd.h"@.subrange(13, 19) =~= "-fwd.h"@);
    assert(forward_include_stem("mongoac/error-fwd.h"@) =~= "error"@);
    assert(!skipped_forward_header("error"@));
    assert("mongoac/write_concern-fwd.h"@.subrange(0, 8) =~= "mongoac/"@);
    assert("mongoac/write_concern-fwd.h"@.subrange(21, 27) =~= "-fwd.h"@);
    assert(forward_include_stem("mongoac/write_concern-fwd.h"@) =~= "write_concern"@);
    assert(!skipped_forward_header("write_concern"@));
    assert("mongoac/bson.h"@.subrange(8, 14)[0] != "-fwd.h"@[0]);
    assert(!is_forward_include("mongoac/bson.h"@));
    assert(!is_forward_include("stdbool.h"@));
    let s = seq!["mongoac/error-fwd.h"@, "mongoac/write_concern-fwd.h"@, "mongoac/bson.h"@, "stdbool.h"@];
    assert(forward_includes_are_generated(s));
}

proof fn forward_includes_generated_26()
    ensures
        forward_includes_are_generated(seq!["mongoac/error-fwd.h"@, "mongoac/write_concern-fwd.h"@, "mongoac/bson.h"@, "stdbool.h"@]),
{
    reveal_strlit("-fwd.h");
    reveal_strlit("bson");
    reveal_strlit("cursor_type");
    reveal_strlit("error");
    reveal_strlit("mongoac/");
    reveal_strlit("mongoac/bson.h");
    reveal_strlit("mongoac/error-fwd.h");
    reveal_strlit("mongoac/write_concern-fwd.h");
    reveal_strlit("stdbool.h");
    reveal_strlit("string");
    reveal_strlit("write_concern");
    assert("-fwd.h"@.len() == 6);
    assert("bson"@.len() == 4);
    assert("cursor_type"@.len() == 11);
    assert("error"@.len() == 5);
    assert("mongoac/"@.len() == 8);
    assert("mongoac/bson.h"@.len() == 14);
    assert("mongoac/error-fwd.h"@.len() == 19);
    assert("mongoac/write_concern-fwd.h"@.len() == 27);
    assert("stdbool.h"@.len() == 9);
    assert("string"@.len() == 6);
    assert("write_concern"@.len() == 13);
    assert("mongoac/error-fwd.h"@.subrange(0, 8) =~= "mongoac/"@);
    assert("mongoac/error-fwd.h"@.subrange(13, 19) =~= "-fwd.h"@);
    assert(forward_include_stem("mongoac/error-fwd.h"@) =~= "error"@);
    assert(!skipped_forward_header("error"@));
    assert("mongoac/write_concern-fwd.h"@.subrange(0, 8) =~= "mongoac/"@);
    assert("mongoac/write_concern-fwd.h"@.subrange(21, 27) =~= "-fwd.h"@);
    assert(forward_include_stem("mongoac/write_concern-fwd.h"@) =~= "write_concern"@);
    assert(!skipped_forward_header("write_concern"@));
    assert("mongoac/bson.h"@.subrange(8, 14)[0] != "-fwd.h"@[0]);
    assert(!is_forward_include("mongoac/bson.h"@));
    assert(!is_forward_include("stdbool.h"@));
    let s = seq!["mongoac/error-fwd.h"@, "mongoac/write_concern-fwd.h"@, "mongoac/bson.h"@, "stdbool.h"@];
    assert(forward_includes_are_generated(s));
}

proof fn forward_includes_generated_27()
    ensures
        forward_includes_are_generated(seq!["mongoac/error-fwd.h"@, "mongoac/bson.h"@, "stdbool.h"@, "stdint.h"@]),
{
    reveal_strlit("-fwd.h");
    reveal_strlit("bson");
    reveal_strlit("cursor_type");
    reveal_strlit("error");
    reveal_strlit("mongoac/");
    reveal_strlit("mongoac/bson.h");
    reveal_strlit("mongoac/error-fwd.h");
    reveal_strlit("stdbool.h");
    reveal_strlit("stdint.h");
    reveal_strlit("string");
    assert("-fwd.h"@.len() == 6);
    assert("bson"@.len() == 4);
    assert("cursor_type"@.len() == 11);
    assert("error"@.len() == 5);
    assert("mongoac/"@.len() == 8);
    assert("mongoac/bson.h"@.len() == 14);
    assert("mongoac/error-fwd.h"@.len() == 19);
    assert("stdbool.h"@.len() == 9);
    assert("stdint.h"@.len() == 8);
    assert("string"@.len() == 6);
    assert("mongoac/error-fwd.h"@.subrange(0, 8) =~= "mongoac/"@);
    assert("mongoac/error-fwd.h"@.subrange(13, 19) =~= "-fwd.h"@);
    assert(forward_include_stem("mongoac/error-fwd.h"@) =~= "error"@);
    assert(!skipped_forward_header("error"@));
    assert("mongoac/bson.h"@.subrange(8, 14)[0] != "-fwd.h"@[0]);
    assert(!is_forward_include("mongoac/bson.h"@));
    assert(!is_forward_include("stdbool.h"@));
    assert(!is_forward_include("stdint.h"@));
    let s = seq!["mongoac/error-fwd.h"@, "mongoac/bson.h"@, "stdbool.h"@, "stdint.h"@];
    assert(forward_includes_are_generated(s));
}

proof fn forward_includes_generated_28()
    ensures
        forward_includes_are_generated(seq!["mongoac/error-fwd.h"@, "mongoac/bson.h"@, "stdbool.h"@]),
{
    reveal_strlit("-fwd.h");
    reveal_strlit("bson");
    reveal_strlit("cursor_type");
    reveal_strlit("error");
    reveal_strlit("mongoac/");
    reveal_strlit("mongoac/bson.h");
    reveal_strlit("mongoac/error-fwd.h");
    reveal_strlit("stdbool.h");
    reveal_strlit("string");
    assert("-fwd.h"@.len() == 6);
    assert("bson"@.len() == 4);
    assert("cursor_type"@.len() == 11);
    assert("error"@.len() == 5);
    assert("mongoac/"@.len() == 8);
    assert("mongoac/bson.h"@.len() == 14);
    assert("mongoac/error-fwd.h"@.len() == 19);
    assert("stdbool.h"@.len() == 9);
    assert("string"@.len() == 6);
    assert("mongoac/error-fwd.h"@.subrange(0, 8) =~= "mongoac/"@);
    assert("mongoac/error-fwd.h"@.subrange(13, 19) =~= "-fwd.h"@);
    assert(forward_include_stem("mongoac/error-fwd.h"@) =~= "error"@);
    assert(!skipped_forward_header("error"@));
    assert("mongoac/bson.h"@.subrange(8, 14)[0] != "-fwd.h"@[0]);
    assert(!is_forward_include("mongoac/bson.h"@));
    assert(!is_forward_include("stdbool.h"@));
    let s = seq!["mongoac/error-fwd.h"@, "mongoac/bson.h"@, "stdbool.h"@];
    assert(forward_includes_are_generated(s));
}

proof fn forward_includes_generated_29()
    ensures
        forward_includes_are_generated(seq!["mongoac/error-fwd.h"@, "mongoac/string.h"@]),
{
    reveal_strlit("-fwd.h");
    reveal_strlit("bson");
    reveal_strlit("cursor_type");
    reveal_strlit("error");
    reveal_strlit("mongoac/");
    reveal_strlit("mongoac/error-fwd.h");
    reveal_strlit("mongoac/string.h");
    reveal_strlit("string");
    assert("-fwd.h"@.len() == 6);
    assert("bson"@.len() == 4);
    assert("cursor_type"@.len() == 11);
    assert("error"@.len() == 5);
    assert("mongoac/"@.len() == 8);
    assert("mongoac/error-fwd.h"@.len() == 19);
    assert("mongoac/string.h"@.len() == 16);
    assert("string"@.len() == 6);
    assert("mongoac/error-fwd.h"@.subrange(0, 8) =~= "mongoac/"@);
    assert("mongoac/error-fwd.h"@.subrange(13, 19) =~= "-fwd.h"@);
    assert(forward_include_stem("mongoac/error-fwd.h"@) =~= "error"@);
    assert(!skipped_forward_header("error"@));
    assert("mongoac/string.h"@.subrange(10, 16)[0] != "-fwd.h"@[0]);
    assert(!is_forward_include("mongoac/string.h"@));
    let s = seq!["mongoac/error-fwd.h"@, "mongoac/string.h"@];
    assert(forward_includes_are_generated(s));
}

proof fn forward_includes_generated_30()
    ensures
        forward_includes_are_generated(seq!["mongoac/read_preference-fwd.h"@, "mongoac/server_selector-fwd.h"@]),
{
    reveal_strlit("-fwd.h");
    reveal_strlit("bson");
    reveal_strlit("cursor_type");
    reveal_strlit("mongoac/");
    reveal_strlit("mongoac/read_preference-fwd.h");
    reveal_strlit("mongoac/server_selector-fwd.h");
    reveal_strlit("read_preference");
    reveal_strlit("server_selector");
    reveal_strlit("string");
    assert("-fwd.h"@.len() == 6);
    assert("bson"@.len() == 4);
    assert("cursor_type"@.len() == 11);
    assert("mongoac/"@.len() == 8);
    assert("mongoac/read_preference-fwd.h"@.len() == 29);
    assert("mongoac/server_selector-fwd.h"@.len() == 29);
    assert("read_preference"@.len() == 15);
    assert("server_selector"@.len() == 15);
    assert("string"@.len() == 6);
    assert("mongoac/read_preference-fwd.h"@.subrange(0, 8) =~= "mongoac/"@);
    assert("mongoac/read_preference-fwd.h"@.subrange(23, 29) =~= "-fwd.h"@);
    assert(forward_include_stem("mongoac/read_preference-fwd.h"@) =~= "read_preference"@);
    assert(!skipped_forward_header("read_preference"@));
    assert("mongoac/server_selector-fwd.h"@.subrange(0, 8) =~= "mongoac/"@);
    assert("mongoac/server_selector-fwd.h"@.subrange(23, 29) =~= "-fwd.h"@);
    assert(forward_include_stem("mongoac/server_selector-fwd.h"@) =~= "server_selector"@);
    assert(!skipped_forward_header("server_selector"@));
    let s = seq!["mongoac/read_preference-fwd.h"@, "mongoac/server_selector-fwd.h"@];
    assert(forward_includes_are_generated(s));
}

proof fn forward_includes_generated_31()
    ensures
        forward_includes_are_generated(seq!["mongoac/cursor_type.h"@, "mongoac/read_preference-fwd.h"@, "mongoac/server_selector-fwd.h"@, "mongoac/error-fwd.h"@, "mongoac/bson.h"@, "stdint.h"@]),
{
    reveal_strlit("-fwd.h");
    reveal_strlit("bson");
    reveal_strlit("cursor_type");
    reveal_strlit("error");
    reveal_strlit("mongoac/");
    reveal_strlit("mongoac/bson.h");
    reveal_strlit("mongoac/cursor_type.h");
    reveal_strlit("mongoac/error-fwd.h");
    reveal_strlit("mongoac/read_preference-fwd.h");
    reveal_strlit("mongoac/server_selector-fwd.h");
    reveal_strlit("read_preference");
    reveal_strlit("server_selector");
    reveal_strlit("stdint.h");
    reveal_strlit("string");
    assert("-fwd.h"@.len() == 6);
    assert("bson"@.len() == 4);
    assert("cursor_type"@.len() == 11);
    assert("error"@.len() == 5);
    assert("mongoac/"@.len() == 8);
    assert("mongoac/bson.h"@.len() == 14);
    assert("mongoac/cursor_type.h"@.len() == 21);
    assert("mongoac/error-fwd.h"@.len() == 19);
    assert("mongoac/read_preference-fwd.h"@.len() == 29);
    assert("mongoac/server_selector-fwd.h"@.len() == 29);
    assert("read_preference"@.len() == 15);
    assert("server_selector"@.len() == 15);
    assert("stdint.h"@.len() == 8);
    assert("string"@.len() == 6);
    assert("mongoac/cursor_type.h"@.subrange(15, 21)[0] != "-fwd.h"@[0]);
    assert(!is_forward_include("mongoac/cursor_type.h"@));
    assert("mongoac/read_preference-fwd.h"@.subrange(0, 8) =~= "mongoac/"@);
    assert("mongoac/read_preference-fwd.h"@.subrange(23, 29) =~= "-fwd.h"@);
    assert(forward_include_stem("mongoac/read_preference-fwd.h"@) =~= "read_preference"@);
    assert(!skipped_forward_header("read_preference"@));
    assert("mongoac/server_selector-fwd.h"@.subrange(0, 8) =~= "mongoac/"@);
    assert("mongoac/server_selector-fwd.h"@.subrange(23, 29) =~= "-fwd.h"@);
    assert(forward_include_stem("mongoac/server_selector-fwd.h"@) =~= "server_selector"@);
    assert(!skipped_forward_header("server_selector"@));
    assert("mongoac/error-fwd.h"@.subrange(0, 8) =~= "mongoac/"@);
    assert("mongoac/error-fwd.h"@.subrange(13, 19) =~= "-fwd.h"@);
    assert(forward_include_stem("mongoac/error-fwd.h"@) =~= "error"@);
    assert(!skipped_forward_header("error"@));
    assert("mongoac/bson.h"@.subrange(8, 14)[0] != "-fwd.h"@[0]);
    assert(!is_forward_include("mongoac/bson.h"@));
    assert(!is_forward_include("stdint.h"@));
    let s = seq!["mongoac/cursor_type.h"@, "mongoac/read_preference-fwd.h"@, "mongoac/server_selector-fwd.h"@, "mongoac/error-fwd.h"@, "mongoac/bson.h"@, "stdint.h"@];
    assert(forward_includes_are_generated(s));
}

proof fn forward_includes_generated_32()
    ensures
        forward_includes_are_generated(seq!["mongoac/error-fwd.h"@, "mongoac/bson.h"@, "stdbool.h"@, "stdint.h"@]),
{
    reveal_strlit("-fwd.h");
    reveal_strlit("bson");
    reveal_strlit("cursor_type");
    reveal_strlit("error");
    reveal_strlit("mongoac/");
    reveal_strlit("mongoac/bson.h");
    reveal_strlit("mongoac/error-fwd.h");
    reveal_strlit("stdbool.h");
    reveal_strlit("stdint.h");
    reveal_strlit("string");
    assert("-fwd.h"@.len() == 6);
    assert("bson"@.len() == 4);
    assert("cursor_type"@.len() == 11);
    assert("error"@.len() == 5);
    assert("mongoac/"@.len() == 8);
    assert("mongoac/bson.h"@.len() == 14);
    assert("mongoac/error-fwd.h"@.len() == 19);
    assert("stdbool.h"@.len() == 9);
    assert("stdint.h"@.len() == 8);
    assert("string"@.len() == 6);
    assert("mongoac/error-fwd.h"@.subrange(0, 8) =~= "mongoac/"@);
    assert("mongoac/error-fwd.h"@.subrange(13, 19) =~= "-fwd.h"@);
    assert(forward_include_stem("mongoac/error-fwd.h"@) =~= "error"@);
    assert(!skipped_forward_header("error"@));
    assert("mongoac/bson.h"@.subrange(8, 14)[0] != "-fwd.h"@[0]);
    assert(!is_forward_include("mongoac/bson.h"@));
    assert(!is_forward_include("stdbool.h"@));
    assert(!is_forward_include("stdint.h"@));
    let s = seq!["mongoac/error-fwd.h"@, "mongoac/bson.h"@, "stdbool.h"@, "stdint.h"@];
    assert(forward_includes_are_generated(s));
}

proof fn forward_includes_generated_33()
    ensures
        forward_includes_are_generated(seq!["mongoac/error-fwd.h"@, "mongoac/future-fwd.h"@, "stdint.h"@]),
{
    reveal_strlit("-fwd.h");
    reveal_strlit("bson");
    reveal_strlit("cursor_type");
    reveal_strlit("error");
    reveal_strlit("future");
    reveal_strlit("mongoac/");
    reveal_strlit("mongoac/error-fwd.h");
    reveal_strlit("mongoac/future-fwd.h");
    reveal_strlit("stdint.h");
    reveal_strlit("string");
    assert("-fwd.h"@.len() == 6);
    assert("bson"@.len() == 4);
    assert("cursor_type"@.len() == 11);
    assert("error"@.len() == 5);
    assert("future"@.len() == 6);
    assert("mongoac/"@.len() == 8);
    assert("mongoac/error-fwd.h"@.len() == 19);
    assert("mongoac/future-fwd.h"@.len() == 20);
    assert("stdint.h"@.len() == 8);
    assert("string"@.len() == 6);
    assert("mongoac/error-fwd.h"@.subrange(0, 8) =~= "mongoac/"@);
    assert("mongoac/error-fwd.h"@.subrange(13, 19) =~= "-fwd.h"@);
    assert(forward_include_stem("mongoac/error-fwd.h"@) =~= "error"@);
    assert(!skipped_forward_header("error"@));
    assert("mongoac/future-fwd.h"@.subrange(0, 8) =~= "mongoac/"@);
    assert("mongoac/future-fwd.h"@.subrange(14, 20) =~= "-fwd.h"@);
    assert(forward_include_stem("mongoac/future-fwd.h"@) =~= "future"@);
    assert("future"@[0] != "string"@[0]);
    assert(!skipped_forward_header("future"@));
    assert(!is_forward_include("stdint.h"@));
    let s = seq!["mongoac/error-fwd.h"@, "mongoac/future-fwd.h"@, "stdint.h"@];
    assert(forward_includes_are_generated(s));
}

proof fn forward_includes_generated_34()
    ensures
        forward_includes_are_generated(seq!["stdbool.h"@]),
{
    reveal_strlit("-fwd.h");
    reveal_strlit("bson");
    reveal_strlit("cursor_type");
    reveal_strlit("mongoac/");
    reveal_strlit("stdbool.h");
    reveal_strlit("string");
    assert("-fwd.h"@.len() == 6);
    assert("bson"@.len() == 4);
    assert("cursor_type"@.len() == 11);
    assert("mongoac/"@.len() == 8);
    assert("stdbool.h"@.len() == 9);
    assert("string"@.len() == 6);
    assert(!is_forward_include("stdbool.h"@));
    let s = seq!["stdbool.h"@];
    assert(forward_includes_are_generated(s));
}

proof fn forward_includes_generated_35()
    ensures
        forward_includes_are_generated(seq!["mongoac/bson.h"@, "mongoac/string.h"@, "stdbool.h"@, "stdint.h"@]),
{
    reveal_strlit("-fwd.h");
    reveal_strlit("bson");
    reveal_strlit("cursor_type");
    reveal_strlit("mongoac/");
    reveal_strlit("mongoac/bson.h");
    reveal_strlit("mongoac/string.h");
    reveal_strlit("stdbool.h");
    reveal_strlit("stdint.h");
    reveal_strlit("string");
    assert("-fwd.h"@.len() == 6);
    assert("bson"@.len() == 4);
    assert("cursor_type"@.len() == 11);
    assert("mongoac/"@.len() == 8);
    assert("mongoac/bson.h"@.len() == 14);
    assert("mongoac/string.h"@.len() == 16);
    assert("stdbool.h"@.len() == 9);
    assert("stdint.h"@.len() == 8);
    assert("string"@.len() == 6);
    assert("mongoac/bson.h"@.subrange(8, 14)[0] != "-fwd.h"@[0]);
    assert(!is_forward_include("mongoac/bson.h"@));
    assert("mongoac/string.h"@.subrange(10, 16)[0] != "-fwd.h"@[0]);
    assert(!is_forward_include("mongoac/string.h"@));
    assert(!is_forward_include("stdbool.h"@));
    assert(!is_forward_include("stdint.h"@));
    let s = seq!["mongoac/bson.h"@, "mongoac/string.h"@, "stdbool.h"@, "stdint.h"@];
    assert(forward_includes_are_generated(s));
}

proof fn forward_includes_generated_36()
    ensures
        forward_includes_are_generated(seq!["mongoac/server_info-fwd.h"@, "stdbool.h"@]),
{
    reveal_strlit("-fwd.h");
    reveal_strlit("bson");
    reveal_strlit("cursor_type");
    reveal_strlit("mongoac/");
    reveal_strlit("mongoac/server_info-fwd.h");
    reveal_strlit("server_info");
    reveal_strlit("stdbool.h");
    reveal_strlit("string");
    assert("-fwd.h"@.len() == 6);
    assert("bson"@.len() == 4);
    assert("cursor_type"@.len() == 11);
    assert("mongoac/"@.len() == 8);
    assert("mongoac/server_info-fwd.h"@.len() == 25);
    assert("server_info"@.len() == 11);
    assert("stdbool.h"@.len() == 9);
    assert("string"@.len() == 6);
    assert("mongoac/server_info-fwd.h"@.subrange(0, 8) =~= "mongoac/"@);
    assert("mongoac/server_info-fwd.h"@.subrange(19, 25) =~= "-fwd.h"@);
    assert(forward_include_stem("mongoac/server_info-fwd.h"@) =~= "server_info"@);
    assert("server_info"@[0] != "cursor_type"@[0]);
    assert(!skipped_forward_header("server_info"@));
    assert(!is_forward_include("stdbool.h"@));
    let s = seq!["mongoac/server_info-fwd.h"@, "stdbool.h"@];
    assert(forward_includes_are_generated(s));
}

proof fn forward_includes_generated_37()
    ensures
        forward_includes_are_generated(seq!["mongoac/transaction_options-fwd.h"@, "stdbool.h"@, "stdint.h"@]),
{
    reveal_strlit("-fwd.h");
    reveal_strlit("bson");
    reveal_strlit("cursor_type");
    reveal_strlit("mongoac/");
    reveal_strlit("mongoac/transaction_options-fwd.h");
    reveal_strlit("stdbool.h");
    reveal_strlit("stdint.h");
    reveal_strlit("string");
    reveal_strlit("transaction_options");
    assert("-fwd.h"@.len() == 6);
    assert("bson"@.len() == 4);
    assert("cursor_type"@.len() == 11);
    assert("mongoac/"@.len() == 8);
    assert("mongoac/transaction_options-fwd.h"@.len() == 33);
    assert("stdbool.h"@.len() == 9);
    assert("stdint.h"@.len() == 8);
    assert("string"@.len() == 6);
    assert("transaction_options"@.len() == 19);
    assert("mongoac/transaction_options-fwd.h"@.subrange(0, 8) =~= "mongoac/"@);
    assert("mongoac/transaction_options-fwd.h"@.subrange(27, 33) =~= "-fwd.h"@);
    assert(forward_include_stem("mongoac/transaction_options-fwd.h"@) =~= "transaction_options"@);
    assert(!skipped_forward_header("transaction_options"@));
    assert(!is_forward_include("stdbool.h"@));
    assert(!is_forward_include("stdint.h"@));
    let s = seq!["mongoac/transaction_options-fwd.h"@, "stdbool.h"@, "stdint.h"@];
    assert(forward_includes_are_generated(s));
}

proof fn forward_includes_generated_38()
    ensures
        forward_includes_are_generated(seq!["stdint.h"@]),
{
    reveal_strlit("-fwd.h");
    reveal_strlit("bson");
    reveal_strlit("cursor_type");
    reveal_strlit("mongoac/");
    reveal_strlit("stdint.h");
    reveal_strlit("string");
    assert("-fwd.h"@.len() == 6);
    assert("bson"@.len() == 4);
    assert("cursor_type"@.len() == 11);
    assert("mongoac/"@.len() == 8);
    assert("stdint.h"@.len() == 8);
    assert("string"@.len() == 6);
    assert(!is_forward_include("stdint.h"@));
    let s = seq!["stdint.h"@];
    assert(forward_includes_are_generated(s));
}

proof fn forward_includes_generated_39()
    ensures
        forward_includes_are_generated(seq!["mongoac/error-fwd.h"@, "mongoac/string.h"@, "stdbool.h"@]),
{
    reveal_strlit("-fwd.h");
    reveal_strlit("bson");
    reveal_strlit("cursor_type");
    reveal_strlit("error");
    reveal_strlit("mongoac/");
    reveal_strlit("mongoac/error-fwd.h");
    reveal_strlit("mongoac/string.h");
    reveal_strlit("stdbool.h");
    reveal_strlit("string");
    assert("-fwd.h"@.len() == 6);
    assert("bson"@.len() == 4);
    assert("cursor_type"@.len() == 11);
    assert("error"@.len() == 5);
    assert("mongoac/"@.len() == 8);
    assert("mongoac/error-fwd.h"@.len() == 19);
    assert("mongoac/string.h"@.len() == 16);
    assert("stdbool.h"@.len() == 9);
    assert("string"@.len() == 6);
    assert("mongoac/error-fwd.h"@.subrange(0, 8) =~= "mongoac/"@);
    assert("mongoac/error-fwd.h"@.subrange(13, 19) =~= "-fwd.h"@);
    assert(forward_include_stem("mongoac/error-fwd.h"@) =~= "error"@);
    assert(!skipped_forward_header("error"@));
    assert("mongoac/string.h"@.subrange(10, 16)[0] != "-fwd.h"@[0]);
    assert(!is_forward_include("mongoac/string.h"@));
    assert(!is_forward_include("stdbool.h"@));
    let s = seq!["mongoac/error-fwd.h"@, "mongoac/string.h"@, "stdbool.h"@];
    assert(forward_includes_are_generated(s));
}

proof fn forward_includes_generated_40()
    ensures
        forward_includes_are_generated(seq!["mongoac/read_concern-fwd.h"@, "mongoac/write_concern-fwd.h"@, "mongoac/read_preference-fwd.h"@, "stdint.h"@]),
{
    reveal_strlit("-fwd.h");
    reveal_strlit("bson");
    reveal_strlit("cursor_type");
    reveal_strlit("mongoac/");
    reveal_strlit("mongoac/read_concern-fwd.h");
    reveal_strlit("mongoac/read_preference-fwd.h");
    reveal_strlit("mongoac/write_concern-fwd.h");
    reveal_strlit("read_concern");
    reveal_strlit("read_preference");
    reveal_strlit("stdint.h");
    reveal_strlit("string");
    reveal_strlit("write_concern");
    assert("-fwd.h"@.len() == 6);
    assert("bson"@.len() == 4);
    assert("cursor_type"@.len() == 11);
    assert("mongoac/"@.len() == 8);
    assert("mongoac/read_concern-fwd.h"@.len() == 26);
    assert("mongoac/read_preference-fwd.h"@.len() == 29);
    assert("mongoac/write_concern-fwd.h"@.len() == 27);
    assert("read_concern"@.len() == 12);
    assert("read_preference"@.len() == 15);
    assert("stdint.h"@.len() == 8);
    assert("string"@.len() == 6);
    assert("write_concern"@.len() == 13);
    assert("mongoac/read_concern-fwd.h"@.subrange(0, 8) =~= "mongoac/"@);
    assert("mongoac/read_concern-fwd.h"@.subrange(20, 26) =~= "-fwd.h"@);
    assert(forward_include_stem("mongoac/read_concern-fwd.h"@) =~= "read_concern"@);
    assert(!skipped_forward_header("read_concern"@));
    assert("mongoac/write_concern-fwd.h"@.subrange(0, 8) =~= "mongoac/"@);
    assert("mongoac/write_concern-fwd.h"@.subrange(21, 27) =~= "-fwd.h"@);
    assert(forward_include_stem("mongoac/write_concern-fwd.h"@) =~= "write_concern"@);
    assert(!skipped_forward_header("write_concern"@));
    assert("mongoac/read_preference-fwd.h"@.subrange(0, 8) =~= "mongoac/"@);
    assert("mongoac/read_preference-fwd.h"@.subrange(23, 29) =~= "-fwd.h"@);
    assert(forward_include_stem("mongoac/read_preference-fwd.h"@) =~= "read_preference"@);
    assert(!skipped_forward_header("read_preference"@));
    assert(!is_forward_include("stdint.h"@));
    let s = seq!["mongoac/read_concern-fwd.h"@, "mongoac/write_concern-fwd.h"@, "mongoac/read_preference-fwd.h"@, "stdint.h"@];
    assert(forward_includes_are_generated(s));
}

proof fn forward_includes_generated_41()
    ensures
        forward_includes_are_generated(seq!["mongoac/error-fwd.h"@, "mongoac/string.h"@, "stdbool.h"@, "stdint.h"@]),
{
    reveal_strlit("-fwd.h");
    reveal_strlit("bson");
    reveal_strlit("cursor_type");
    reveal_strlit("error");
    reveal_strlit("mongoac/");
    reveal_strlit("mongoac/error-fwd.h");
    reveal_strlit("mongoac/string.h");
    reveal_strlit("stdbool.h");
    reveal_strlit("stdint.h");
    reveal_strlit("string");
    assert("-fwd.h"@.len() == 6);
    assert("bson"@.len() == 4);
    assert("cursor_type"@.len() == 11);
    assert("error"@.len() == 5);
    assert("mongoac/"@.len() == 8);
    assert("mongoac/error-fwd.h"@.len() == 19);
    assert("mongoac/string.h"@.len() == 16);
    assert("stdbool.h"@.len() == 9);
    assert("stdint.h"@.len() == 8);
    assert("string"@.len() == 6);
    assert("mongoac/error-fwd.h"@.subrange(0, 8) =~= "mongoac/"@);
    assert("mongoac/error-fwd.h"@.subrange(13, 19) =~= "-fwd.h"@);
    assert(forward_include_stem("mongoac/error-fwd.h"@) =~= "error"@);
    assert(!skipped_forward_header("error"@));
    assert("mongoac/string.h"@.subrange(10, 16)[0] != "-fwd.h"@[0]);
    assert(!is_forward_include("mongoac/string.h"@));
    assert(!is_forward_include("stdbool.h"@));
    assert(!is_forward_include("stdint.h"@));
    let s = seq!["mongoac/error-fwd.h"@, "mongoac/string.h"@, "stdbool.h"@, "stdint.h"@];
    assert(forward_includes_are_generated(s));
}

/// The includes that each header needs, as string slices.
fn includes_of(name: &str) -> (r: &'static [&'static str])
    ensures
        strs_view(r@) == crate_includes(name@),
{
    let r: &[&str] = if str_eq(name, "bson") {
        &["stdint.h"]
    } else if str_eq(name, "aggregate_options") {
        &["mongoac/error-fwd.h", "mongoac/read_concern-fwd.h", "mongoac/write_concern-fwd.h", "mongoac/bson.h", "stdbool.h", "stdint.h"]
    } else if str_eq(name, "client") {
        &["mongoac/client_options-fwd.h", "mongoac/client_session-fwd.h", "mongoac/error-fwd.h", "mongoac/future-fwd.h", "mongoac/list_databases_options-fwd.h", "mongoac/session_options-fwd.h", "mongoac/runtime-fwd.h", "mongoac/bson.h", "mongoac/string.h", "stdint.h"]
    } else if str_eq(name, "client_options") {
        &["mongoac/error-fwd.h", "mongoac/server_api-fwd.h", "mongoac/read_concern-fwd.h", "mongoac/write_concern-fwd.h", "mongoac/read_preference-fwd.h", "mongoac/server_selector-fwd.h", "mongoac/tls_options-fwd.h", "mongoac/credential-fwd.h", "mongoac/string.h", "stdbool.h", "stdint.h"]
    } else if str_eq(name, "client_session") {
        &["mongoac/error-fwd.h", "mongoac/future-fwd.h"]
    } else if str_eq(name, "collection") {
        &["mongoac/database-fwd.h", "mongoac/client_session-fwd.h", "mongoac/cursor-fwd.h", "mongoac/error-fwd.h", "mongoac/future-fwd.h", "mongoac/drop_collection_options-fwd.h", "mongoac/insert_one_options-fwd.h", "mongoac/insert_many_options-fwd.h", "mongoac/find_options-fwd.h", "mongoac/find_one_options-fwd.h", "mongoac/delete_options-fwd.h", "mongoac/replace_options-fwd.h", "mongoac/update_options-fwd.h", "mongoac/count_options-fwd.h", "mongoac/estimated_document_count_options-fwd.h", "mongoac/distinct_options-fwd.h", "mongoac/aggregate_options-fwd.h", "mongoac/collection_options-fwd.h", "mongoac/bson.h", "mongoac/string.h", "stdint.h"]
    } else if str_eq(name, "create_collection_options") {
        &["mongoac/error-fwd.h", "mongoac/bson.h"]
    } else if str_eq(name, "collection_options") {
        &["mongoac/read_concern-fwd.h", "mongoac/write_concern-fwd.h", "mongoac/read_preference-fwd.h", "mongoac/server_selector-fwd.h"]
    } else if str_eq(name, "credential") {
        &["mongoac/error-fwd.h", "mongoac/bson.h", "mongoac/string.h", "stdint.h"]
    } else if str_eq(name, "cursor_type") {
        &["stdint.h"]
    } else if str_eq(name, "cursor") {
        &["mongoac/error-fwd.h", "mongoac/future-fwd.h", "mongoac/bson.h", "stdbool.h"]
    } else if str_eq(name, "database") {
        &["mongoac/client-fwd.h", "mongoac/client_session-fwd.h", "mongoac/cursor-fwd.h", "mongoac/error-fwd.h", "mongoac/future-fwd.h", "mongoac/list_collections_options-fwd.h", "mongoac/drop_database_options-fwd.h", "mongoac/database_options-fwd.h", "mongoac/create_collection_options-fwd.h", "mongoac/run_command_options-fwd.h", "mongoac/run_cursor_command_options-fwd.h", "mongoac/bson.h", "mongoac/string.h"]
    } else if str_eq(name, "database_options") {
        &["mongoac/read_concern-fwd.h", "mongoac/write_concern-fwd.h", "mongoac/read_preference-fwd.h", "mongoac/server_selector-fwd.h"]
    } else if str_eq(name, "delete_options") {
        &["mongoac/error-fwd.h", "mongoac/write_concern-fwd.h", "mongoac/bson.h"]
    } else if str_eq(name, "replace_options") {
        &["mongoac/error-fwd.h", "mongoac/write_concern-fwd.h", "mongoac/bson.h", "stdbool.h"]
    } else if str_eq(name, "update_options") {
        &["mongoac/error-fwd.h", "mongoac/write_concern-fwd.h", "mongoac/bson.h", "stdbool.h"]
    } else if str_eq(name, "count_options") {
        &["mongoac/error-fwd.h", "mongoac/read_concern-fwd.h", "mongoac/bson.h", "stdint.h"]
    } else if str_eq(name, "estimated_document_count_options") {
        &["mongoac/error-fwd.h", "mongoac/read_concern-fwd.h", "mongoac/bson.h", "stdint.h"]
    } else if str_eq(name, "distinct_options") {
        &["mongoac/error-fwd.h", "mongoac/read_concern-fwd.h", "mongoac/bson.h", "stdint.h"]
    } else if str_eq(name, "drop_collection_options") {
        &["mongoac/write_concern-fwd.h"]
    } else if str_eq(name, "drop_database_options") {
        &["mongoac/write_concern-fwd.h"]
    } else if str_eq(name, "error") {
        &["mongoac/string.h", "stdbool.h", "stdint.h"]
    } else if str_eq(name, "find_options") {
        &["mongoac/error-fwd.h", "mongoac/bson.h"]
    } else if str_eq(name, "find_one_options") {
        &["mongoac/error-fwd.h", "mongoac/bson.h"]
    } else if str_eq(name, "future") {
        &["mongoac/error-fwd.h", "mongoac/runtime-fwd.h", "mongoac/bson.h", "stdbool.h", "stdint.h"]
    } else if str_eq(name, "insert_many_options") {
        &["mongoac/error-fwd.h", "mongoac/write_concern-fwd.h", "mongoac/bson.h", "stdbool.h"]
    } else if str_eq(name, "insert_one_options") {
        &["mongoac/error-fwd.h", "mongoac/write_concern-fwd.h", "mongoac/bson.h", "stdbool.h"]
    } else if str_eq(name, "list_collections_options") {
        &["mongoac/error-fwd.h", "mongoac/bson.h", "stdbool.h", "stdint.h"]
    } else if str_eq(name, "list_databases_options") {
        &["mongoac/error-fwd.h", "mongoac/bson.h", "stdbool.h"]
    } else if str_eq(name, "read_concern") {
        &["mongoac/error-fwd.h", "mongoac/string.h"]
    } else if str_eq(name, "run_command_options") {
        &["mongoac/read_preference-fwd.h", "mongoac/server_selector-fwd.h"]
    } else if str_eq(name, "run_cursor_command_options") {
        &["mongoac/cursor_type.h", "mongoac/read_preference-fwd.h", "mongoac/server_selector-fwd.h", "mongoac/error-fwd.h", "mongoac/bson.h", "stdint.h"]
    } else if str_eq(name, "read_preference") {
        &["mongoac/error-fwd.h", "mongoac/bson.h", "stdbool.h", "stdint.h"]
    } else if str_eq(name, "runtime") {
        &["mongoac/error-fwd.h", "mongoac/future-fwd.h", "stdint.h"]
    } else if str_eq(name, "server_api") {
        &["stdbool.h"]
    } else if str_eq(name, "server_info") {
        &["mongoac/bson.h", "mongoac/string.h", "stdbool.h", "stdint.h"]
    } else if str_eq(name, "server_selector") {
        &["mongoac/server_info-fwd.h", "stdbool.h"]
    } else if str_eq(name, "session_options") {
        &["mongoac/transaction_options-fwd.h", "stdbool.h", "stdint.h"]
    } else if str_eq(name, "string") {
        &["stdint.h"]
    } else if str_eq(name, "tls_options") {
        &["mongoac/error-fwd.h", "mongoac/string.h", "stdbool.h"]
    } else if str_eq(name, "transaction_options") {
        &["mongoac/read_concern-fwd.h", "mongoac/write_concern-fwd.h", "mongoac/read_preference-fwd.h", "stdint.h"]
    } else if str_eq(name, "write_concern") {
        &["mongoac/error-fwd.h", "mongoac/string.h", "stdbool.h", "stdint.h"]
    } else {
        &[]
    };
    assert(strs_view(r@) =~= crate_includes(name@));
    r
}

/// The language of the generated headers.
#[derive(Debug, Clone, Copy, PartialEq, Eq, Structural)]
pub enum HeaderLanguageT {
    Cxx,
    C,
    Cython,
}

/// How structs, enums and unions are declared: with a tag, a typedef, or both.
#[derive(Debug, Clone, Copy, PartialEq, Eq, Structural)]
pub enum HeaderStyleT {
    Both,
    Tag,
    Type,
}

/// Where opening braces go.
#[derive(Debug, Clone, Copy, PartialEq, Eq, Structural)]
pub enum HeaderBracesT {
    SameLine,
    NextLine,
}

/// The comment style of generated documentation.
#[derive(Debug, Clone, Copy, PartialEq, Eq, Structural)]
pub enum DocumentationStyleT {
    C,
    C99,
    Doxy,
    Cxx,
    Auto,
}

/// The kinds of item a header may declare.
#[derive(Debug, Clone, Copy, PartialEq, Eq, Structural)]
pub enum ItemKindT {
    Constants,
    Globals,
    Enums,
    Structs,
    Unions,
    Typedefs,
    OpaqueItems,
    Functions,
}

/// The generator settings of one header; settings not held here keep the
/// generator's defaults. An empty `item_types` declares every kind of item.
#[derive(Debug)]
pub struct HeaderConfigT {
    pub language: HeaderLanguageT,
    pub style: HeaderStyleT,
    pub autogen_warning: Option<String>,
    pub include_version: bool,
    pub cpp_compat: bool,
    pub braces: HeaderBracesT,
    pub line_length: usize,
    pub tab_width: usize,
    pub documentation: bool,
    pub documentation_style: DocumentationStyleT,
    pub rename: Vec<(String, String)>,
    pub item_types: Vec<ItemKindT>,
    pub function_prefix: Option<String>,
    pub no_includes: bool,
    pub sys_includes: Vec<String>,
}

/// The comment put at the top of every generated header.
pub open spec fn autogen_warning_text() -> Seq<char> {
    "// Generated by src/libmongoac/cmake/generate-crate-headers/src/main.rs"@
}

/// The settings shared by every header, whatever its items and includes.
pub open spec fn has_common_settings(c: HeaderConfigT) -> bool {
    &&& c.language == HeaderLanguageT::C
    &&& c.style == HeaderStyleT::Type
    &&& c.autogen_warning matches Some(w) && w@ == autogen_warning_text()
    &&& c.include_version
    &&& c.cpp_compat
    &&& c.braces == HeaderBracesT::NextLine
    &&& c.line_length == 120
    &&& c.tab_width == 3
    &&& !c.documentation
    &&& c.documentation_style == DocumentationStyleT::C99
    &&& pairs_view(c.rename@) == struct_renames()
    &&& c.function_prefix matches Some(p) && p@ == "MONGOAC_API"@
    &&& c.no_includes
}

/// The common settings with the given item kinds and includes.
pub open spec fn is_config(c: HeaderConfigT, items: Seq<ItemKindT>, includes: Seq<Seq<char>>) -> bool {
    &&& has_common_settings(c)
    &&& c.item_types@ == items
    &&& strings_view(c.sys_includes@) == includes
}

/// The settings every header starts from: C with typedef'd types, braces on
/// the next line, lines of 120 columns and tabs of 3, no documentation, the
/// struct renames, `MONGOAC_API` before each function, no default includes.
pub fn default_config() -> (c: HeaderConfigT)
    ensures
        is_config(c, seq![], seq![]),
{
    let c = HeaderConfigT {
        language: HeaderLanguageT::C,
        style: HeaderStyleT::Type,
        autogen_warning: Some(String::from_str("// Generated by src/libmongoac/cmake/generate-crate-headers/src/main.rs")),
        include_version: true,
        cpp_compat: true,
        braces: HeaderBracesT::NextLine,
        line_length: 120,
        tab_width: 3,
        documentation: false,
        documentation_style: DocumentationStyleT::C99,
        rename: rename_structs(),
        item_types: Vec::new(),
        function_prefix: Some(String::from_str("MONGOAC_API")),
        no_includes: true,
        sys_includes: Vec::new(),
    };
    assert(strings_view(c.sys_includes@) =~= seq![]);
    c
}

/// Adds the includes that the header of the given name needs.
pub fn configure(name: &str, config: &mut HeaderConfigT)
    ensures
        strings_view(final(config).sys_includes@) == strings_view(old(config).sys_includes@)
            + crate_includes(name@),
        *final(config) == (HeaderConfigT { sys_includes: final(config).sys_includes, ..*old(config) }),
{
    let headers = includes_of(name);
    push_all(&mut config.sys_includes, headers);
}

/// The uppercase form of a text, by Unicode's case mapping.
pub uninterp spec fn uppercase(s: Seq<char>) -> Seq<char>;

/// Calls `str::to_uppercase`, which maps each character to its uppercase form
/// under Unicode's case mapping; the result, a function of the text alone, is
/// named `uppercase`.
#[verifier::external_body]
fn to_uppercase(s: &str) -> (r: String)
    ensures
        r@ == uppercase(s@),
{
    s.to_uppercase()
}

/// The text with each occurrence of one character replaced by another.
pub open spec fn replace_char(s: Seq<char>, from: char, to: char) -> Seq<char> {
    s.map_values(|c: char| if c == from { to } else { c })
}

/// Calls `str::replace` with a character pattern and "_", which replaces every
/// occurrence of the character by an underscore.
#[verifier::external_body]
fn replace_with_underscore(s: &str, from: char) -> (r: String)
    ensures
        r@ == replace_char(s@, from, '_'),
{
    s.replace(from, "_")
}

/// The include guard of a header: `path/to/crate` gives `MONGOAC_PATH_TO_CRATE_H`,
/// or `MONGOAC_PATH_TO_CRATE_FWD_H` for its forward header.
pub open spec fn include_guard_text(rel_stem: Seq<char>, separator: char, forward: bool) -> Seq<char> {
    "MONGOAC_"@ + uppercase(replace_char(rel_stem, separator, '_')) + if forward {
        "_FWD_H"@
    } else {
        "_H"@
    }
}

/// The include guard of the header of a source file, given by its path below
/// the source root without extension and the path separator.
pub fn include_guard(rel_stem: &str, separator: char, forward: bool) -> (r: String)
    ensures
        r@ == include_guard_text(rel_stem@, separator, forward),
{
    let replaced = replace_with_underscore(rel_stem, separator);
    let upper = to_uppercase(replaced.as_str());
    let head = String::from_str("MONGOAC_").concat(upper.as_str());
    if forward {
        head.concat("_FWD_H")
    } else {
        head.concat("_H")
    }
}

/// One header to generate: the file, by its path below the include
/// directory, its settings and its include guard.
#[derive(Debug)]
pub struct HeaderJobT {
    pub path: String,
    pub config: HeaderConfigT,
    pub include_guard: String,
}

/// The file of the forward header of a source file, below the include
/// directory: `path/to/crate` gives `path/to/crate-fwd.h`.
pub open spec fn forward_header_path(rel_stem: Seq<char>) -> Seq<char> {
    rel_stem + "-fwd.h"@
}

/// The file of the header of a source file, below the include directory:
/// `path/to/crate` gives `path/to/crate.h`.
pub open spec fn header_path(rel_stem: Seq<char>) -> Seq<char> {
    rel_stem + ".h"@
}

/// The forward header of a source file declares its opaque structs only.
pub fn generate_forward_header(rel_stem: &str, separator: char) -> (r: HeaderJobT)
    ensures
        r.path@ == forward_header_path(rel_stem@),
        r.include_guard@ == include_guard_text(rel_stem@, separator, true),
        is_config(r.config, seq![ItemKindT::OpaqueItems], seq![]),
{
    let include_guard = include_guard(rel_stem, separator, true);
    let mut config = default_config();
    config.item_types = vec![ItemKindT::OpaqueItems];
    assert(config.item_types@ =~= seq![ItemKindT::OpaqueItems]);
    let path = String::from_str(rel_stem).concat("-fwd.h");
    HeaderJobT { path, config, include_guard }
}

/// Every item kind but opaque structs, which the forward header declares.
pub open spec fn all_but_opaque() -> Seq<ItemKindT> {
    seq![
        ItemKindT::Functions,
        ItemKindT::Typedefs,
        ItemKindT::Constants,
        ItemKindT::Enums,
        ItemKindT::Structs,
        ItemKindT::Unions,
    ]
}

/// The includes of a header: its own forward header first (where it has one),
/// then the export header, then what `crate_includes` lists for it.
pub open spec fn crate_header_includes(rel_stem: Seq<char>, file_stem: Seq<char>) -> Seq<Seq<char>> {
    (if skipped_forward_header(file_stem) {
        seq![]
    } else {
        seq!["mongoac/"@ + rel_stem + "-fwd.h"@]
    }) + seq!["mongoac/export.h"@] + crate_includes(rel_stem)
}

/// The headers of one source file: a forward header where it has one, and the
/// header itself.
#[derive(Debug)]
pub struct CrateHeadersT {
    pub forward: Option<HeaderJobT>,
    pub header: HeaderJobT,
}

/// The headers to generate for a source file, given by its path below the
/// source root without extension, its file stem and the path separator; `None`
/// for the files that get no header.
pub fn generate_crate_header(rel_stem: &str, file_stem: &str, separator: char) -> (r: Option<CrateHeadersT>)
    ensures
        r is None <==> skipped_cargo_header(file_stem@),
        r matches Some(h) ==> {
            &&& h.forward is None <==> skipped_forward_header(file_stem@)
            &&& h.forward matches Some(f) ==> {
                &&& f.path@ == forward_header_path(rel_stem@)
                &&& f.include_guard@ == include_guard_text(rel_stem@, separator, true)
                &&& is_config(f.config, seq![ItemKindT::OpaqueItems], seq![])
            }
            &&& h.header.path@ == header_path(rel_stem@)
            &&& h.header.include_guard@ == include_guard_text(rel_stem@, separator, false)
            &&& is_config(h.header.config, all_but_opaque(), crate_header_includes(rel_stem@, file_stem@))
        },
{
    if skips_cargo_header(file_stem) {
        return None;
    }
    let include_guard = include_guard(rel_stem, separator, false);
    let mut config = default_config();
    config.item_types = vec![
        ItemKindT::Functions,
        ItemKindT::Typedefs,
        ItemKindT::Constants,
        ItemKindT::Enums,
        ItemKindT::Structs,
        ItemKindT::Unions,
    ];
    let forward = if !skips_forward_header(file_stem) {
        let f = generate_forward_header(rel_stem, separator);
        let own = String::from_str("mongoac/").concat(rel_stem).concat("-fwd.h");
        config.sys_includes.push(own);
        Some(f)
    } else {
        None
    };
    config.sys_includes.push(String::from_str("mongoac/export.h"));
    configure(rel_stem, &mut config);
    proof {
        let pre = if skipped_forward_header(file_stem@) {
            seq![]
        } else {
            seq!["mongoac/"@ + rel_stem@ + "-fwd.h"@]
        };
        assert(strings_view(config.sys_includes@) =~= pre + seq!["mongoac/export.h"@]
            + crate_includes(rel_stem@));
        assert(config.item_types@ =~= all_but_opaque());
    }
    let path = String::from_str(rel_stem).concat(".h");
    Some(CrateHeadersT { forward, header: HeaderJobT { path, config, include_guard } })
}

} // verus!
