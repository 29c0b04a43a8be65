//! Options of a document count; an option left unset keeps the driver's default.

use crate::read_concern::ReadConcernT;
use crate::bson::optional_document;
use crate::bson::{document_reads, BsonViewT};
use crate::error::ErrorT;
use mongodb::bson::Document;
use crate::bson::document_read;
use vstd::prelude::*;

verus! {

/// Options of a document count.
#[derive(Debug)]
pub struct CountOptionsT {
    pub limit: Option<u64>,
    pub skip: Option<u64>,
    pub max_time_ms: Option<u64>,
    pub read_concern: Option<ReadConcernT>,
    pub hint: Option<Document>,
    pub comment: Option<Document>,
}

/// New options with nothing set.
pub fn mongoac_count_options_new() -> (r: CountOptionsT)
    ensures
        r.limit is None,
        r.skip is None,
        r.max_time_ms is None,
        r.read_concern is None,
        r.hint is None,
        r.comment is None,
{
    CountOptionsT { limit: None, skip: None, max_time_ms: None, read_concern: None, hint: None, comment: None }
}

/// Sets limit.
pub fn mongoac_count_options_set_limit(opts: &mut CountOptionsT, v: u64)
    ensures
        *final(opts) == (CountOptionsT { limit: Some(v), ..*old(opts) }),
{
    opts.limit = Some(v);
}

/// Sets skip.
pub fn mongoac_count_options_set_skip(opts: &mut CountOptionsT, v: u64)
    ensures
        *final(opts) == (CountOptionsT { skip: Some(v), ..*old(opts) }),
{
    opts.skip = Some(v);
}

/// Sets max time ms, in milliseconds.
pub fn mongoac_count_options_set_max_time_ms(opts: &mut CountOptionsT, v: u64)
    ensures
        *final(opts) == (CountOptionsT { max_time_ms: Some(v), ..*old(opts) }),
{
    opts.max_time_ms = Some(v);
}

/// Sets (or, with `None`, clears) the read concern, as a copy of the given one.
pub fn mongoac_count_options_set_read_concern(opts: &mut CountOptionsT, v: Option<&ReadConcernT>)
    ensures
        v is None ==> final(opts).read_concern is None,
        v matches Some(v) ==> (final(opts).read_concern matches Some(a) && a.same_as(v)),
        *final(opts) == (CountOptionsT { read_concern: final(opts).read_concern, ..*old(opts) }),
{
    opts.read_concern = match v {
        Some(x) => Some(x.duplicate()),
        None => None,
    };
}

/// Sets (or, with a null view, clears) the hint document; bytes that do
/// not read as a document are refused with the BSON error and the options stay
/// as they are.
pub fn mongoac_count_options_set_hint(opts: &mut CountOptionsT, v: &BsonViewT) -> (r: Result<(), ErrorT>)
    ensures
        v.data is None ==> r is Ok && final(opts).hint is None,
        v.data is Some ==> (r is Ok <==> document_reads(v.spec_bytes())),
        v.data is Some && r is Ok ==> final(opts).hint is Some,
        v.data is Some && r is Ok ==> final(opts).hint == document_read(v.spec_bytes()),
        r matches Err(e) ==> e is Bson && *final(opts) == *old(opts),
        *final(opts) == (CountOptionsT { hint: final(opts).hint, ..*old(opts) }),
{
    let d = optional_document(v)?;
    opts.hint = d;
    Ok(())
}

/// Sets (or, with a null view, clears) the comment document; bytes that do
/// not read as a document are refused with the BSON error and the options stay
/// as they are.
pub fn mongoac_count_options_set_comment(opts: &mut CountOptionsT, v: &BsonViewT) -> (r: Result<(), ErrorT>)
    ensures
        v.data is None ==> r is Ok && final(opts).comment is None,
        v.data is Some ==> (r is Ok <==> document_reads(v.spec_bytes())),
        v.data is Some && r is Ok ==> final(opts).comment is Some,
        v.data is Some && r is Ok ==> final(opts).comment == document_read(v.spec_bytes()),
        r matches Err(e) ==> e is Bson && *final(opts) == *old(opts),
        *final(opts) == (CountOptionsT { comment: final(opts).comment, ..*old(opts) }),
{
    let d = optional_document(v)?;
    opts.comment = d;
    Ok(())
}

} // verus!
