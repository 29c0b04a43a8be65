//! Options of a single insert; an option left unset keeps the driver's default.

use crate::write_concern::WriteConcernT;
use crate::bson::document_reads;
use crate::private::bson::{has_valid_length, optional_const_document, prefixed_bytes, ConstBsonT};
use crate::error::ErrorT;
use mongodb::bson::Document;
use crate::bson::document_read;
use vstd::prelude::*;

verus! {

/// Options of a single insert.
#[derive(Debug)]
pub struct InsertOneOptionsT {
    pub bypass_document_validation: Option<bool>,
    pub write_concern: Option<WriteConcernT>,
    pub comment: Option<Document>,
}

/// New options with nothing set.
pub fn mongoac_insert_one_options_new() -> (r: InsertOneOptionsT)
    ensures
        r.bypass_document_validation is None,
        r.write_concern is None,
        r.comment is None,
{
    InsertOneOptionsT { bypass_document_validation: None, write_concern: None, comment: None }
}

/// Sets bypass document validation.
pub fn mongoac_insert_one_options_set_bypass_document_validation(opts: &mut InsertOneOptionsT, v: bool)
    ensures
        *final(opts) == (InsertOneOptionsT { bypass_document_validation: Some(v), ..*old(opts) }),
{
    opts.bypass_document_validation = Some(v);
}

/// Sets (or, with `None`, clears) the write concern, as a copy of the given one.
pub fn mongoac_insert_one_options_set_write_concern(opts: &mut InsertOneOptionsT, v: Option<&WriteConcernT>)
    ensures
        v is None ==> final(opts).write_concern is None,
        v matches Some(v) ==> (final(opts).write_concern matches Some(a) && a.same_as(v)),
        *final(opts) == (InsertOneOptionsT { write_concern: final(opts).write_concern, ..*old(opts) }),
{
    opts.write_concern = match v {
        Some(x) => Some(x.duplicate()),
        None => None,
    };
}

/// Sets (or, with a null `bson_t`, clears) the comment document; bytes
/// that do not read as a document are refused with the BSON error and the
/// options stay as they are.
pub fn mongoac_insert_one_options_set_comment(opts: &mut InsertOneOptionsT, v: Option<&ConstBsonT>) -> (r: Result<(), ErrorT>)
    requires
        v matches Some(b) ==> has_valid_length(b.0.data@),
    ensures
        v is None ==> r is Ok && final(opts).comment is None,
        v matches Some(b) ==> (r is Ok <==> document_reads(prefixed_bytes(b.0.data@))),
        v is Some && r is Ok ==> final(opts).comment is Some,
        v matches Some(b) ==> (r is Ok ==> final(opts).comment == document_read(prefixed_bytes(b.0.data@))),
        r matches Err(e) ==> e is Bson && *final(opts) == *old(opts),
        *final(opts) == (InsertOneOptionsT { comment: final(opts).comment, ..*old(opts) }),
{
    let d = optional_const_document(v)?;
    opts.comment = d;
    Ok(())
}

} // verus!
