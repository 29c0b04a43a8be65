//! Options of an aggregation; an option left unset keeps the driver's default.

use crate::write_concern::WriteConcernT;
use crate::read_concern::ReadConcernT;
use crate::bson::optional_document;
use crate::bson::{document_reads, BsonViewT};
use crate::error::ErrorT;
use mongodb::bson::Document;
use crate::bson::document_read;
use vstd::prelude::*;

verus! {

/// Options of an aggregation.
#[derive(Debug)]
pub struct AggregateOptionsT {
    pub allow_disk_use: Option<bool>,
    pub batch_size: Option<u32>,
    pub bypass_document_validation: Option<bool>,
    pub max_time_ms: Option<u64>,
    pub read_concern: Option<ReadConcernT>,
    pub write_concern: Option<WriteConcernT>,
    pub hint: Option<Document>,
    pub let_vars: Option<Document>,
    pub comment: Option<Document>,
}

/// New options with nothing set.
pub fn mongoac_aggregate_options_new() -> (r: AggregateOptionsT)
    ensures
        r.allow_disk_use is None,
        r.batch_size is None,
        r.bypass_document_validation is None,
        r.max_time_ms is None,
        r.read_concern is None,
        r.write_concern is None,
        r.hint is None,
        r.let_vars is None,
        r.comment is None,
{
    AggregateOptionsT { allow_disk_use: None, batch_size: None, bypass_document_validation: None, max_time_ms: None, read_concern: None, write_concern: None, hint: None, let_vars: None, comment: None }
}

/// Sets allow disk use.
pub fn mongoac_aggregate_options_set_allow_disk_use(opts: &mut AggregateOptionsT, v: bool)
    ensures
        *final(opts) == (AggregateOptionsT { allow_disk_use: Some(v), ..*old(opts) }),
{
    opts.allow_disk_use = Some(v);
}

/// Sets batch size.
pub fn mongoac_aggregate_options_set_batch_size(opts: &mut AggregateOptionsT, v: u32)
    ensures
        *final(opts) == (AggregateOptionsT { batch_size: Some(v), ..*old(opts) }),
{
    opts.batch_size = Some(v);
}

/// Sets bypass document validation.
pub fn mongoac_aggregate_options_set_bypass_document_validation(opts: &mut AggregateOptionsT, v: bool)
    ensures
        *final(opts) == (AggregateOptionsT { bypass_document_validation: Some(v), ..*old(opts) }),
{
    opts.bypass_document_validation = Some(v);
}

/// Sets max time ms, in milliseconds.
pub fn mongoac_aggregate_options_set_max_time_ms(opts: &mut AggregateOptionsT, v: u64)
    ensures
        *final(opts) == (AggregateOptionsT { max_time_ms: Some(v), ..*old(opts) }),
{
    opts.max_time_ms = Some(v);
}

/// Sets (or, with `None`, clears) the read concern, as a copy of the given one.
pub fn mongoac_aggregate_options_set_read_concern(opts: &mut AggregateOptionsT, v: Option<&ReadConcernT>)
    ensures
        v is None ==> final(opts).read_concern is None,
        v matches Some(v) ==> (final(opts).read_concern matches Some(a) && a.same_as(v)),
        *final(opts) == (AggregateOptionsT { read_concern: final(opts).read_concern, ..*old(opts) }),
{
    opts.read_concern = match v {
        Some(x) => Some(x.duplicate()),
        None => None,
    };
}

/// Sets (or, with `None`, clears) the write concern, as a copy of the given one.
pub fn mongoac_aggregate_options_set_write_concern(opts: &mut AggregateOptionsT, v: Option<&WriteConcernT>)
    ensures
        v is None ==> final(opts).write_concern is None,
        v matches Some(v) ==> (final(opts).write_concern matches Some(a) && a.same_as(v)),
        *final(opts) == (AggregateOptionsT { write_concern: final(opts).write_concern, ..*old(opts) }),
{
    opts.write_concern = match v {
        Some(x) => Some(x.duplicate()),
        None => None,
    };
}

/// Sets (or, with a null view, clears) the hint document; bytes that do
/// not read as a document are refused with the BSON error and the options stay
/// as they are.
pub fn mongoac_aggregate_options_set_hint(opts: &mut AggregateOptionsT, v: &BsonViewT) -> (r: Result<(), ErrorT>)
    ensures
        v.data is None ==> r is Ok && final(opts).hint is None,
        v.data is Some ==> (r is Ok <==> document_reads(v.spec_bytes())),
        v.data is Some && r is Ok ==> final(opts).hint is Some,
        v.data is Some && r is Ok ==> final(opts).hint == document_read(v.spec_bytes()),
        r matches Err(e) ==> e is Bson && *final(opts) == *old(opts),
        *final(opts) == (AggregateOptionsT { hint: final(opts).hint, ..*old(opts) }),
{
    let d = optional_document(v)?;
    opts.hint = d;
    Ok(())
}

/// Sets (or, with a null view, clears) the let document; bytes that do
/// not read as a document are refused with the BSON error and the options stay
/// as they are.
pub fn mongoac_aggregate_options_set_let(opts: &mut AggregateOptionsT, v: &BsonViewT) -> (r: Result<(), ErrorT>)
    ensures
        v.data is None ==> r is Ok && final(opts).let_vars is None,
        v.data is Some ==> (r is Ok <==> document_reads(v.spec_bytes())),
        v.data is Some && r is Ok ==> final(opts).let_vars is Some,
        v.data is Some && r is Ok ==> final(opts).let_vars == document_read(v.spec_bytes()),
        r matches Err(e) ==> e is Bson && *final(opts) == *old(opts),
        *final(opts) == (AggregateOptionsT { let_vars: final(opts).let_vars, ..*old(opts) }),
{
    let d = optional_document(v)?;
    opts.let_vars = d;
    Ok(())
}

/// Sets (or, with a null view, clears) the comment document; bytes that do
/// not read as a document are refused with the BSON error and the options stay
/// as they are.
pub fn mongoac_aggregate_options_set_comment(opts: &mut AggregateOptionsT, v: &BsonViewT) -> (r: Result<(), ErrorT>)
    ensures
        v.data is None ==> r is Ok && final(opts).comment is None,
        v.data is Some ==> (r is Ok <==> document_reads(v.spec_bytes())),
        v.data is Some && r is Ok ==> final(opts).comment is Some,
        v.data is Some && r is Ok ==> final(opts).comment == document_read(v.spec_bytes()),
        r matches Err(e) ==> e is Bson && *final(opts) == *old(opts),
        *final(opts) == (AggregateOptionsT { comment: final(opts).comment, ..*old(opts) }),
{
    let d = optional_document(v)?;
    opts.comment = d;
    Ok(())
}

} // verus!
