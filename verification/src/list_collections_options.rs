//! Options of listing collections; an option left unset keeps the driver's default.

use crate::bson::optional_document;
use crate::bson::{document_reads, BsonViewT};
use crate::error::ErrorT;
use mongodb::bson::Document;
use crate::bson::document_read;
use vstd::prelude::*;

verus! {

/// Options of listing collections.
#[derive(Debug)]
pub struct ListCollectionsOptionsT {
    pub batch_size: Option<u32>,
    pub authorized_collections: Option<bool>,
    pub filter: Option<Document>,
    pub comment: Option<Document>,
}

/// New options with nothing set.
pub fn mongoac_list_collections_options_new() -> (r: ListCollectionsOptionsT)
    ensures
        r.batch_size is None,
        r.authorized_collections is None,
        r.filter is None,
        r.comment is None,
{
    ListCollectionsOptionsT { batch_size: None, authorized_collections: None, filter: None, comment: None }
}

/// Sets batch size.
pub fn mongoac_list_collections_options_set_batch_size(opts: &mut ListCollectionsOptionsT, v: u32)
    ensures
        *final(opts) == (ListCollectionsOptionsT { batch_size: Some(v), ..*old(opts) }),
{
    opts.batch_size = Some(v);
}

/// Sets authorized collections.
pub fn mongoac_list_collections_options_set_authorized_collections(opts: &mut ListCollectionsOptionsT, v: bool)
    ensures
        *final(opts) == (ListCollectionsOptionsT { authorized_collections: Some(v), ..*old(opts) }),
{
    opts.authorized_collections = Some(v);
}

/// Sets (or, with a null view, clears) the filter document; bytes that do
/// not read as a document are refused with the BSON error and the options stay
/// as they are.
pub fn mongoac_list_collections_options_set_filter(opts: &mut ListCollectionsOptionsT, v: &BsonViewT) -> (r: Result<(), ErrorT>)
    ensures
        v.data is None ==> r is Ok && final(opts).filter is None,
        v.data is Some ==> (r is Ok <==> document_reads(v.spec_bytes())),
        v.data is Some && r is Ok ==> final(opts).filter is Some,
        v.data is Some && r is Ok ==> final(opts).filter == document_read(v.spec_bytes()),
        r matches Err(e) ==> e is Bson && *final(opts) == *old(opts),
        *final(opts) == (ListCollectionsOptionsT { filter: final(opts).filter, ..*old(opts) }),
{
    let d = optional_document(v)?;
    opts.filter = d;
    Ok(())
}

/// Sets (or, with a null view, clears) the comment document; bytes that do
/// not read as a document are refused with the BSON error and the options stay
/// as they are.
pub fn mongoac_list_collections_options_set_comment(opts: &mut ListCollectionsOptionsT, v: &BsonViewT) -> (r: Result<(), ErrorT>)
    ensures
        v.data is None ==> r is Ok && final(opts).comment is None,
        v.data is Some ==> (r is Ok <==> document_reads(v.spec_bytes())),
        v.data is Some && r is Ok ==> final(opts).comment is Some,
        v.data is Some && r is Ok ==> final(opts).comment == document_read(v.spec_bytes()),
        r matches Err(e) ==> e is Bson && *final(opts) == *old(opts),
        *final(opts) == (ListCollectionsOptionsT { comment: final(opts).comment, ..*old(opts) }),
{
    let d = optional_document(v)?;
    opts.comment = d;
    Ok(())
}

} // verus!
