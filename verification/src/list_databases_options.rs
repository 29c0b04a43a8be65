//! Options of listing databases; an option left unset keeps the driver's default.

use crate::bson::document_reads;
use crate::private::bson::{has_valid_length, optional_const_document, prefixed_bytes, ConstBsonT};
use crate::error::ErrorT;
use mongodb::bson::Document;
use crate::bson::document_read;
use vstd::prelude::*;

verus! {

/// Options of listing databases.
#[derive(Debug)]
pub struct ListDatabasesOptionsT {
    pub authorized_databases: Option<bool>,
    pub filter: Option<Document>,
    pub comment: Option<Document>,
}

/// New options with nothing set.
pub fn mongoac_list_databases_options_new() -> (r: ListDatabasesOptionsT)
    ensures
        r.authorized_databases is None,
        r.filter is None,
        r.comment is None,
{
    ListDatabasesOptionsT { authorized_databases: None, filter: None, comment: None }
}

/// Sets authorized databases.
pub fn mongoac_list_databases_options_set_authorized_databases(opts: &mut ListDatabasesOptionsT, v: bool)
    ensures
        *final(opts) == (ListDatabasesOptionsT { authorized_databases: Some(v), ..*old(opts) }),
{
    opts.authorized_databases = Some(v);
}

/// Sets (or, with a null `bson_t`, clears) the filter document; bytes
/// that do not read as a document are refused with the BSON error and the
/// options stay as they are.
pub fn mongoac_list_databases_options_set_filter(opts: &mut ListDatabasesOptionsT, v: Option<&ConstBsonT>) -> (r: Result<(), ErrorT>)
    requires
        v matches Some(b) ==> has_valid_length(b.0.data@),
    ensures
        v is None ==> r is Ok && final(opts).filter is None,
        v matches Some(b) ==> (r is Ok <==> document_reads(prefixed_bytes(b.0.data@))),
        v is Some && r is Ok ==> final(opts).filter is Some,
        v matches Some(b) ==> (r is Ok ==> final(opts).filter == document_read(prefixed_bytes(b.0.data@))),
        r matches Err(e) ==> e is Bson && *final(opts) == *old(opts),
        *final(opts) == (ListDatabasesOptionsT { filter: final(opts).filter, ..*old(opts) }),
{
    let d = optional_const_document(v)?;
    opts.filter = d;
    Ok(())
}

/// Sets (or, with a null `bson_t`, clears) the comment document; bytes
/// that do not read as a document are refused with the BSON error and the
/// options stay as they are.
pub fn mongoac_list_databases_options_set_comment(opts: &mut ListDatabasesOptionsT, v: Option<&ConstBsonT>) -> (r: Result<(), ErrorT>)
    requires
        v matches Some(b) ==> has_valid_length(b.0.data@),
    ensures
        v is None ==> r is Ok && final(opts).comment is None,
        v matches Some(b) ==> (r is Ok <==> document_reads(prefixed_bytes(b.0.data@))),
        v is Some && r is Ok ==> final(opts).comment is Some,
        v matches Some(b) ==> (r is Ok ==> final(opts).comment == document_read(prefixed_bytes(b.0.data@))),
        r matches Err(e) ==> e is Bson && *final(opts) == *old(opts),
        *final(opts) == (ListDatabasesOptionsT { comment: final(opts).comment, ..*old(opts) }),
{
    let d = optional_const_document(v)?;
    opts.comment = d;
    Ok(())
}

} // verus!
