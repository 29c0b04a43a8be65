//! BSON documents as ordered maps: the names under which contracts speak of a
//! document's keys, values and encoding, and the calls that build them.

use crate::bson::{is_framed_document, raw_document_bytes};
use mongodb::bson::{Bson, Document, RawDocumentBuf};
use vstd::prelude::*;

verus! {

/// The keys of a document, in order.
pub uninterp spec fn document_keys(d: Document) -> Seq<Seq<char>>;

/// The values of a document that are strings, by key.
pub uninterp spec fn document_strings(d: Document) -> Map<Seq<char>, Seq<char>>;

/// The values of a document that are documents, by key.
pub uninterp spec fn document_subdocuments(d: Document) -> Map<Seq<char>, Document>;

/// The values of a document that are arrays, by key, as their elements.
pub uninterp spec fn document_arrays(d: Document) -> Map<Seq<char>, Seq<Bson>>;

/// Every value of a document, by key, as a BSON value.
pub uninterp spec fn document_values(d: Document) -> Map<Seq<char>, Bson>;

/// Whether no key of the document holds a zero character.
pub open spec fn keys_without_nul(d: Document) -> bool {
    forall|i: int| 0 <= i < document_keys(d).len() ==> !(#[trigger] document_keys(d)[i]).contains('\0')
}

/// Whether every value of the document is a string.
pub open spec fn all_values_strings(d: Document) -> bool {
    forall|i: int| 0 <= i < document_keys(d).len() ==> document_strings(d).contains_key(
        #[trigger] document_keys(d)[i],
    )
}

/// Calls `Document::new`, an empty document.
#[verifier::external_body]
pub(crate) fn new_document() -> (r: Document)
    ensures
        document_keys(r).len() == 0,
        document_strings(r).dom() == Set::<Seq<char>>::empty(),
        document_subdocuments(r).dom() == Set::<Seq<char>>::empty(),
        document_arrays(r).dom() == Set::<Seq<char>>::empty(),
        document_values(r).dom() == Set::<Seq<char>>::empty(),
{
    Document::new()
}

/// The keys after inserting under `key`: as the map underneath keeps
/// insertion order, a new key goes last and an existing key keeps its place.
pub open spec fn keys_after_insert(keys: Seq<Seq<char>>, key: Seq<char>) -> Seq<Seq<char>> {
    if keys.contains(key) {
        keys
    } else {
        keys.push(key)
    }
}

/// Calls `Document::insert` with a string value, which replaces whatever the
/// key held.
#[verifier::external_body]
pub(crate) fn insert_string(d: &mut Document, key: String, value: &String)
    ensures
        document_keys(*final(d)) == keys_after_insert(document_keys(*old(d)), key@),
        document_strings(*final(d)) == document_strings(*old(d)).insert(key@, value@),
        document_subdocuments(*final(d)) == document_subdocuments(*old(d)).remove(key@),
        document_arrays(*final(d)) == document_arrays(*old(d)).remove(key@),
        document_values(*final(d)).dom() == document_values(*old(d)).dom().insert(key@),
        document_values(*final(d)).remove(key@) == document_values(*old(d)).remove(key@),
{
    d.insert(key, value);
}

/// The BSON encoding of a document, element by element in key order.
pub uninterp spec fn document_encoding(d: Document) -> Seq<u8>;

/// Whether `RawDocumentBuf::try_from(&Document)` encodes the document.
pub uninterp spec fn document_encodes(d: Document) -> bool;

/// Calls `RawDocumentBuf::try_from(&Document)`, which encodes the document,
/// named `document_encoding`, and checks the result with
/// `RawDocumentBuf::from_bytes`, so a buffer it gives is framed. It fails only
/// on a key holding a zero character, at any depth (a BSON key is a C string);
/// so a document of strings under such keys always encodes. Where nested
/// values are opaque, success is only named.
#[verifier::external_body]
pub(crate) fn encode_document(d: &Document) -> (r: Result<RawDocumentBuf, mongodb::bson::error::Error>)
    ensures
        r is Ok <==> document_encodes(*d),
        keys_without_nul(*d) && all_values_strings(*d) ==> r is Ok,
        r matches Ok(raw) ==> is_framed_document(raw_document_bytes(raw)),
        r matches Ok(raw) ==> raw_document_bytes(raw) == document_encoding(*d),
{
    RawDocumentBuf::try_from(d)
}

#[verifier::external_type_specification]
#[verifier::external_body]
pub struct ExBson(mongodb::bson::Bson);

/// Calls `Bson::clone`. Verus sees a BSON value only as an opaque value, so the
/// copy is stated as the same value.
#[verifier::external_body]
pub(crate) fn clone_bson(b: &Bson) -> (r: Bson)
    ensures
        r == *b,
{
    b.clone()
}

/// Calls `Document::insert` with a BSON value, which replaces whatever the key
/// held; the values under other keys are unchanged.
#[verifier::external_body]
pub(crate) fn insert_bson(d: &mut Document, key: String, value: Bson)
    ensures
        document_keys(*final(d)) == keys_after_insert(document_keys(*old(d)), key@),
        document_values(*final(d)) == document_values(*old(d)).insert(key@, value),
        document_strings(*final(d)).remove(key@) == document_strings(*old(d)).remove(key@),
        document_subdocuments(*final(d)).remove(key@) == document_subdocuments(*old(d)).remove(key@),
        document_arrays(*final(d)).remove(key@) == document_arrays(*old(d)).remove(key@),
{
    d.insert(key, value);
}

/// Calls `Document::insert` with a document value (`Bson::Document`), which
/// replaces whatever the key held.
#[verifier::external_body]
pub(crate) fn insert_subdocument(d: &mut Document, key: String, value: Document)
    ensures
        document_keys(*final(d)) == keys_after_insert(document_keys(*old(d)), key@),
        document_subdocuments(*final(d)) == document_subdocuments(*old(d)).insert(key@, value),
        document_strings(*final(d)) == document_strings(*old(d)).remove(key@),
        document_arrays(*final(d)) == document_arrays(*old(d)).remove(key@),
        document_values(*final(d)).dom() == document_values(*old(d)).dom().insert(key@),
        document_values(*final(d)).remove(key@) == document_values(*old(d)).remove(key@),
{
    d.insert(key, Bson::Document(value));
}

/// Calls `Document::insert` with an array value (`Bson::Array`), which
/// replaces whatever the key held.
#[verifier::external_body]
pub(crate) fn insert_array(d: &mut Document, key: String, values: Vec<Bson>)
    ensures
        document_keys(*final(d)) == keys_after_insert(document_keys(*old(d)), key@),
        document_arrays(*final(d)) == document_arrays(*old(d)).insert(key@, values@),
        document_strings(*final(d)) == document_strings(*old(d)).remove(key@),
        document_subdocuments(*final(d)) == document_subdocuments(*old(d)).remove(key@),
        document_values(*final(d)).dom() == document_values(*old(d)).dom().insert(key@),
        document_values(*final(d)).remove(key@) == document_values(*old(d)).remove(key@),
{
    d.insert(key, Bson::Array(values));
}

} // verus!
