//! Options of a bulk insert; an option left unset keeps the driver's default.

use crate::write_concern::WriteConcernT;
use crate::bson::optional_document;
use crate::bson::{document_reads, BsonViewT};
use crate::error::ErrorT;
use mongodb::bson::Document;
use crate::bson::document_read;
use vstd::prelude::*;

verus! {

/// Options of a bulk insert.
#[derive(Debug)]
pub struct InsertManyOptionsT {
    pub bypass_document_validation: Option<bool>,
    pub ordered: Option<bool>,
    pub write_concern: Option<WriteConcernT>,
    pub comment: Option<Document>,
}

/// New options with nothing set.
pub fn mongoac_insert_many_options_new() -> (r: InsertManyOptionsT)
    ensures
        r.bypass_document_validation is None,
        r.ordered is None,
        r.write_concern is None,
        r.comment is None,
{
    InsertManyOptionsT { bypass_document_validation: None, ordered: None, write_concern: None, comment: None }
}

/// Sets bypass document validation.
pub fn mongoac_insert_many_options_set_bypass_document_validation(opts: &mut InsertManyOptionsT, v: bool)
    ensures
        *final(opts) == (InsertManyOptionsT { bypass_document_validation: Some(v), ..*old(opts) }),
{
    opts.bypass_document_validation = Some(v);
}

/// Sets ordered.
pub fn mongoac_insert_many_options_set_ordered(opts: &mut InsertManyOptionsT, v: bool)
    ensures
        *final(opts) == (InsertManyOptionsT { ordered: Some(v), ..*old(opts) }),
{
    opts.ordered = Some(v);
}

/// Sets (or, with `None`, clears) the write concern, as a copy of the given one.
pub fn mongoac_insert_many_options_set_write_concern(opts: &mut InsertManyOptionsT, v: Option<&WriteConcernT>)
    ensures
        v is None ==> final(opts).write_concern is None,
        v matches Some(v) ==> (final(opts).write_concern matches Some(a) && a.same_as(v)),
        *final(opts) == (InsertManyOptionsT { write_concern: final(opts).write_concern, ..*old(opts) }),
{
    opts.write_concern = match v {
        Some(x) => Some(x.duplicate()),
        None => None,
    };
}

/// Sets (or, with a null view, clears) the comment document; bytes that do
/// not read as a document are refused with the BSON error and the options stay
/// as they are.
pub fn mongoac_insert_many_options_set_comment(opts: &mut InsertManyOptionsT, v: &BsonViewT) -> (r: Result<(), ErrorT>)
    ensures
        v.data is None ==> r is Ok && final(opts).comment is None,
        v.data is Some ==> (r is Ok <==> document_reads(v.spec_bytes())),
        v.data is Some && r is Ok ==> final(opts).comment is Some,
        v.data is Some && r is Ok ==> final(opts).comment == document_read(v.spec_bytes()),
        r matches Err(e) ==> e is Bson && *final(opts) == *old(opts),
        *final(opts) == (InsertManyOptionsT { comment: final(opts).comment, ..*old(opts) }),
{
    let d = optional_document(v)?;
    opts.comment = d;
    Ok(())
}

} // verus!
