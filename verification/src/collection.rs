//! What a collection computes from the driver's results before handing them
//! back: the document of inserted ids, keyed by each document's index.

use crate::bson::{is_framed_document, raw_document_bytes};
use crate::document::{
    clone_bson, document_arrays, document_encodes, document_encoding, document_keys,
    document_subdocuments, document_values, encode_document, insert_array, insert_bson,
    insert_subdocument, new_document,
};
use crate::error::ErrorT;
use crate::text::{decimal, usize_to_string};
use mongodb::bson::{Bson, Document, RawDocumentBuf};
use mongodb::results::{DeleteResult, InsertOneResult, UpdateResult};
use vstd::prelude::*;

verus! {

/// The keys of the inserted-ids document: each index in decimal.
pub open spec fn inserted_id_keys(ids: Seq<(usize, Bson)>) -> Set<Seq<char>> {
    ids.map_values(|p: (usize, Bson)| decimal(p.0 as nat)).to_set()
}

/// The ids by key: each id under its document's index in decimal, a later
/// pair replacing an earlier one of the same index.
pub open spec fn inserted_id_values(ids: Seq<(usize, Bson)>) -> Map<Seq<char>, Bson>
    decreases ids.len(),
{
    if ids.len() == 0 {
        Map::empty()
    } else {
        inserted_id_values(ids.drop_last()).insert(decimal(ids.last().0 as nat), ids.last().1)
    }
}

/// Whether the document holds the inserted ids: each index in decimal as a key,
/// once, with its id as the value.
pub open spec fn holds_inserted_ids(d: Document, ids: Seq<(usize, Bson)>) -> bool {
    &&& document_keys(d).to_set() == inserted_id_keys(ids)
    &&& document_keys(d).no_duplicates()
    &&& document_values(d) == inserted_id_values(ids)
}

/// The document of inserted ids: each id under its document's index written
/// in decimal (a BSON key cannot be an integer). Each index appears once as a
/// key, at the place it first came, with the id of its last pair.
pub fn inserted_ids_document(ids: &[(usize, Bson)]) -> (r: Document)
    ensures
        document_keys(r).to_set() == inserted_id_keys(ids@),
        document_keys(r).no_duplicates(),
        document_values(r) == inserted_id_values(ids@),
{
    let mut doc = new_document();
    let mut i: usize = 0;
    proof {
        assert(document_keys(doc).to_set() =~= inserted_id_keys(ids@.take(0)));
        assert(document_values(doc) =~= inserted_id_values(ids@.take(0)));
    }
    while i < ids.len()
        invariant
            i <= ids@.len(),
            document_keys(doc).to_set() == inserted_id_keys(ids@.take(i as int)),
            document_keys(doc).no_duplicates(),
            document_values(doc) == inserted_id_values(ids@.take(i as int)),
        decreases ids@.len() - i,
    {
        let (index, id) = &ids[i];
        let key = usize_to_string(*index);
        let ghost before = document_keys(doc);
        insert_bson(&mut doc, key, clone_bson(id));
        proof {
            let f = |p: (usize, Bson)| decimal(p.0 as nat);
            assert(ids@.take(i as int + 1) =~= ids@.take(i as int).push(ids@[i as int]));
            assert(ids@.take(i as int + 1).drop_last() =~= ids@.take(i as int));
            assert(ids@.take(i as int + 1).map_values(f) =~= ids@.take(i as int).map_values(f).push(
                decimal(*index as nat),
            ));
            ids@.take(i as int).map_values(f).lemma_push_to_set_commute(decimal(*index as nat));
            if !before.contains(decimal(*index as nat)) {
                before.lemma_push_to_set_commute(decimal(*index as nat));
                assert(document_keys(doc).no_duplicates());
            } else {
                assert(before.to_set().contains(decimal(*index as nat)));
                assert(before.to_set().insert(decimal(*index as nat)) =~= before.to_set());
            }
        }
        i = i + 1;
    }
    proof {
        assert(ids@.take(ids@.len() as int) =~= ids@);
    }
    doc
}

/// The result of a bulk insert as a document: `{"insertedIds": ids}`, where
/// `ids` holds each inserted id under its document's index (see
/// `inserted_ids_document`). Whether it encodes depends on the ids, which are
/// opaque values; the error is then the BSON error.
pub fn insert_many_result_to_raw(ids: &[(usize, Bson)]) -> (r: Result<RawDocumentBuf, ErrorT>)
    ensures
        r matches Ok(raw) ==> is_framed_document(raw_document_bytes(raw)),
        exists|d: Document|
            document_keys(d) == seq!["insertedIds"@] && document_subdocuments(d).contains_key("insertedIds"@)
                && #[trigger] holds_inserted_ids(document_subdocuments(d)["insertedIds"@], ids@) && (r is Ok
                <==> document_encodes(d)) && (r matches Ok(raw) ==> raw_document_bytes(raw)
                == document_encoding(d)),
        r matches Err(e) ==> e is Bson,
{
    let inner = inserted_ids_document(ids);
    let mut doc = new_document();
    insert_subdocument(&mut doc, String::from_str("insertedIds"), inner);
    assert(document_keys(doc) =~= seq!["insertedIds"@]);
    assert(holds_inserted_ids(document_subdocuments(doc)["insertedIds"@], ids@));
    match encode_document(&doc) {
        Ok(raw) => Ok(raw),
        Err(e) => Err(ErrorT::from_bson_error(e)),
    }
}

/// The distinct values of a field as a document: `{"v": [values...]}`. Whether
/// it encodes depends on the values, which are opaque; the error is then the
/// BSON error.
pub fn distinct_result_to_raw(values: Vec<Bson>) -> (r: Result<RawDocumentBuf, ErrorT>)
    ensures
        r matches Ok(raw) ==> is_framed_document(raw_document_bytes(raw)),
        exists|d: Document|
            document_keys(d) == seq!["v"@] && document_arrays(d).contains_key("v"@) && #[trigger] document_arrays(
                d,
            )["v"@] == values@ && (r is Ok <==> document_encodes(d)) && (r matches Ok(raw)
                ==> raw_document_bytes(raw) == document_encoding(d)),
        r matches Err(e) ==> e is Bson,
{
    let ghost vals = values@;
    let mut doc = new_document();
    insert_array(&mut doc, String::from_str("v"), values);
    assert(document_keys(doc) =~= seq!["v"@]);
    assert(document_arrays(doc)["v"@] == vals);
    match encode_document(&doc) {
        Ok(raw) => Ok(raw),
        Err(e) => Err(ErrorT::from_bson_error(e)),
    }
}

#[verifier::external_type_specification]
#[verifier::external_body]
pub struct ExInsertOneResult(mongodb::results::InsertOneResult);

#[verifier::external_type_specification]
#[verifier::external_body]
pub struct ExUpdateResult(mongodb::results::UpdateResult);

#[verifier::external_type_specification]
#[verifier::external_body]
pub struct ExDeleteResult(mongodb::results::DeleteResult);

/// Whether `bson::serialize_to_raw_document_buf` serializes the result of a
/// single insert (`{"insertedId": id}`); it depends on the id alone.
pub uninterp spec fn insert_one_result_serializes(res: InsertOneResult) -> bool;

/// Calls `bson::serialize_to_raw_document_buf` on the result of a single
/// insert; the bytes it gives are checked by `RawDocumentBuf::from_bytes`, so
/// they frame a document. Whether it succeeds is named.
#[verifier::external_body]
fn serialize_insert_one_result(res: &InsertOneResult) -> (r: Result<RawDocumentBuf, mongodb::bson::error::Error>)
    ensures
        r is Ok <==> insert_one_result_serializes(*res),
        r matches Ok(raw) ==> is_framed_document(raw_document_bytes(raw)),
{
    mongodb::bson::serialize_to_raw_document_buf(res)
}

/// The counts of an update result: documents matched and documents modified.
pub uninterp spec fn update_result_counts(res: UpdateResult) -> (u64, u64);

/// Whether `bson::serialize_to_raw_document_buf` serializes the result of an
/// update or replace.
pub uninterp spec fn update_result_serializes(res: UpdateResult) -> bool;

/// Calls `bson::serialize_to_raw_document_buf` on the result of an update or
/// replace, which writes both counts as `i64`, refusing a count beyond
/// `i64::MAX`; the bytes it gives frame a document. Whether it succeeds is
/// named.
#[verifier::external_body]
fn serialize_update_result(res: &UpdateResult) -> (r: Result<RawDocumentBuf, mongodb::bson::error::Error>)
    ensures
        r is Ok <==> update_result_serializes(*res),
        r is Ok ==> update_result_counts(*res).0 <= i64::MAX && update_result_counts(*res).1 <= i64::MAX,
        r matches Ok(raw) ==> is_framed_document(raw_document_bytes(raw)),
{
    mongodb::bson::serialize_to_raw_document_buf(res)
}

/// The count of a delete result: documents deleted.
pub uninterp spec fn delete_result_count(res: DeleteResult) -> u64;

/// Calls `bson::serialize_to_raw_document_buf` on the result of a delete
/// (`{"deletedCount": n}`), which writes the count as an `i64` and so fails
/// exactly on a count beyond `i64::MAX`; the bytes it gives frame a document.
#[verifier::external_body]
fn serialize_delete_result(res: &DeleteResult) -> (r: Result<RawDocumentBuf, mongodb::bson::error::Error>)
    ensures
        r is Ok <==> delete_result_count(*res) <= i64::MAX,
        r matches Ok(raw) ==> is_framed_document(raw_document_bytes(raw)),
{
    mongodb::bson::serialize_to_raw_document_buf(res)
}

/// The result of a single insert as a document, or the BSON error.
pub fn insert_one_result_to_raw(res: &InsertOneResult) -> (r: Result<RawDocumentBuf, ErrorT>)
    ensures
        r is Ok <==> insert_one_result_serializes(*res),
        r matches Ok(raw) ==> is_framed_document(raw_document_bytes(raw)),
        r matches Err(e) ==> e is Bson,
{
    match serialize_insert_one_result(res) {
        Ok(raw) => Ok(raw),
        Err(e) => Err(ErrorT::from_bson_error(e)),
    }
}

/// The result of an update or replace as a document, or the BSON error; a
/// count beyond `i64::MAX` gives the error.
pub fn update_result_to_raw(res: &UpdateResult) -> (r: Result<RawDocumentBuf, ErrorT>)
    ensures
        r is Ok <==> update_result_serializes(*res),
        r is Ok ==> update_result_counts(*res).0 <= i64::MAX && update_result_counts(*res).1 <= i64::MAX,
        r matches Ok(raw) ==> is_framed_document(raw_document_bytes(raw)),
        r matches Err(e) ==> e is Bson,
{
    match serialize_update_result(res) {
        Ok(raw) => Ok(raw),
        Err(e) => Err(ErrorT::from_bson_error(e)),
    }
}

/// The result of a delete as a document; the BSON error exactly when the count
/// does not fit an `i64`.
pub fn delete_result_to_raw(res: &DeleteResult) -> (r: Result<RawDocumentBuf, ErrorT>)
    ensures
        r is Ok <==> delete_result_count(*res) <= i64::MAX,
        r matches Ok(raw) ==> is_framed_document(raw_document_bytes(raw)),
        r matches Err(e) ==> e is Bson,
{
    match serialize_delete_result(res) {
        Ok(raw) => Ok(raw),
        Err(e) => Err(ErrorT::from_bson_error(e)),
    }
}

} // verus!
