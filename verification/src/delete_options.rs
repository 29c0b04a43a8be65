//! Options of a delete; an option left unset keeps the driver's default.

use crate::write_concern::WriteConcernT;
use crate::bson::optional_document;
use crate::bson::{document_reads, BsonViewT};
use crate::error::ErrorT;
use mongodb::bson::Document;
use crate::bson::document_read;
use vstd::prelude::*;

verus! {

/// Options of a delete.
#[derive(Debug)]
pub struct DeleteOptionsT {
    pub write_concern: Option<WriteConcernT>,
    pub hint: Option<Document>,
    pub let_vars: Option<Document>,
    pub comment: Option<Document>,
}

/// New options with nothing set.
pub fn mongoac_delete_options_new() -> (r: DeleteOptionsT)
    ensures
        r.write_concern is None,
        r.hint is None,
        r.let_vars is None,
        r.comment is None,
{
    DeleteOptionsT { write_concern: None, hint: None, let_vars: None, comment: None }
}

/// Sets (or, with `None`, clears) the write concern, as a copy of the given one.
pub fn mongoac_delete_options_set_write_concern(opts: &mut DeleteOptionsT, v: Option<&WriteConcernT>)
    ensures
        v is None ==> final(opts).write_concern is None,
        v matches Some(v) ==> (final(opts).write_concern matches Some(a) && a.same_as(v)),
        *final(opts) == (DeleteOptionsT { write_concern: final(opts).write_concern, ..*old(opts) }),
{
    opts.write_concern = match v {
        Some(x) => Some(x.duplicate()),
        None => None,
    };
}

/// Sets (or, with a null view, clears) the hint document; bytes that do
/// not read as a document are refused with the BSON error and the options stay
/// as they are.
pub fn mongoac_delete_options_set_hint(opts: &mut DeleteOptionsT, v: &BsonViewT) -> (r: Result<(), ErrorT>)
    ensures
        v.data is None ==> r is Ok && final(opts).hint is None,
        v.data is Some ==> (r is Ok <==> document_reads(v.spec_bytes())),
        v.data is Some && r is Ok ==> final(opts).hint is Some,
        v.data is Some && r is Ok ==> final(opts).hint == document_read(v.spec_bytes()),
        r matches Err(e) ==> e is Bson && *final(opts) == *old(opts),
        *final(opts) == (DeleteOptionsT { hint: final(opts).hint, ..*old(opts) }),
{
    let d = optional_document(v)?;
    opts.hint = d;
    Ok(())
}

/// Sets (or, with a null view, clears) the let document; bytes that do
/// not read as a document are refused with the BSON error and the options stay
/// as they are.
pub fn mongoac_delete_options_set_let(opts: &mut DeleteOptionsT, v: &BsonViewT) -> (r: Result<(), ErrorT>)
    ensures
        v.data is None ==> r is Ok && final(opts).let_vars is None,
        v.data is Some ==> (r is Ok <==> document_reads(v.spec_bytes())),
        v.data is Some && r is Ok ==> final(opts).let_vars is Some,
        v.data is Some && r is Ok ==> final(opts).let_vars == document_read(v.spec_bytes()),
        r matches Err(e) ==> e is Bson && *final(opts) == *old(opts),
        *final(opts) == (DeleteOptionsT { let_vars: final(opts).let_vars, ..*old(opts) }),
{
    let d = optional_document(v)?;
    opts.let_vars = d;
    Ok(())
}

/// Sets (or, with a null view, clears) the comment document; bytes that do
/// not read as a document are refused with the BSON error and the options stay
/// as they are.
pub fn mongoac_delete_options_set_comment(opts: &mut DeleteOptionsT, v: &BsonViewT) -> (r: Result<(), ErrorT>)
    ensures
        v.data is None ==> r is Ok && final(opts).comment is None,
        v.data is Some ==> (r is Ok <==> document_reads(v.spec_bytes())),
        v.data is Some && r is Ok ==> final(opts).comment is Some,
        v.data is Some && r is Ok ==> final(opts).comment == document_read(v.spec_bytes()),
        r matches Err(e) ==> e is Bson && *final(opts) == *old(opts),
        *final(opts) == (DeleteOptionsT { comment: final(opts).comment, ..*old(opts) }),
{
    let d = optional_document(v)?;
    opts.comment = d;
    Ok(())
}

} // verus!
