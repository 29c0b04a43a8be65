//! Options of an update; an option left unset keeps the driver's default.

use crate::write_concern::WriteConcernT;
use crate::bson::optional_document;
use crate::error::ErrorCodeT;
use crate::bson::read_document;
use crate::bson::{document_reads, BsonViewT};
use crate::error::ErrorT;
use mongodb::bson::Document;
use crate::bson::document_read;
use vstd::prelude::*;

verus! {

/// Options of an update.
#[derive(Debug)]
pub struct UpdateOptionsT {
    pub array_filters: Option<Vec<Document>>,
    pub bypass_document_validation: Option<bool>,
    pub upsert: Option<bool>,
    pub write_concern: Option<WriteConcernT>,
    pub hint: Option<Document>,
    pub let_vars: Option<Document>,
    pub comment: Option<Document>,
    pub sort: Option<Document>,
}

/// New options with nothing set.
pub fn mongoac_update_options_new() -> (r: UpdateOptionsT)
    ensures
        r.array_filters is None,
        r.bypass_document_validation is None,
        r.upsert is None,
        r.write_concern is None,
        r.hint is None,
        r.let_vars is None,
        r.comment is None,
        r.sort is None,
{
    UpdateOptionsT { array_filters: None, bypass_document_validation: None, upsert: None, write_concern: None, hint: None, let_vars: None, comment: None, sort: None }
}

/// The number of array filters held.
pub open spec fn array_filter_count(opts: &UpdateOptionsT) -> nat {
    match opts.array_filters {
        Some(f) => f@.len(),
        None => 0,
    }
}

/// Appends an array filter document; a null view is refused, and bytes that
/// do not read as a document report the BSON error. On error the options stay
/// as they are.
pub fn mongoac_update_options_add_array_filter(opts: &mut UpdateOptionsT, filter: &BsonViewT) -> (r: Result<(), ErrorT>)
    ensures
        filter.data is None ==> (r matches Err(e) && e.is_mongoac(ErrorCodeT::InvalidArgument, "filter: must not be null"@)),
        filter.data is Some ==> (r is Ok <==> document_reads(filter.spec_bytes())),
        r matches Err(_) ==> *final(opts) == *old(opts),
        r is Ok ==> (final(opts).array_filters matches Some(f) && f@.len() == array_filter_count(old(opts)) + 1
            && match old(opts).array_filters {
                Some(g) => f@.drop_last() == g@,
                None => true,
            }),
        r is Ok ==> (final(opts).array_filters matches Some(f) && document_read(filter.spec_bytes()) == Some(
            f@.last(),
        )),
        *final(opts) == (UpdateOptionsT { array_filters: final(opts).array_filters, ..*old(opts) }),
{
    if filter.data.is_none() {
        return Err(ErrorT::from_mongoac(ErrorCodeT::InvalidArgument, "filter: must not be null"));
    }
    let d = match read_document(filter.as_bytes()) {
        Ok(d) => d,
        Err(e) => {
            return Err(ErrorT::from_bson_error(e));
        },
    };
    let mut filters = match opts.array_filters.take() {
        Some(f) => f,
        None => Vec::new(),
    };
    let ghost before = filters@;
    filters.push(d);
    assert(filters@.drop_last() =~= before);
    opts.array_filters = Some(filters);
    Ok(())
}

/// Sets bypass document validation.
pub fn mongoac_update_options_set_bypass_document_validation(opts: &mut UpdateOptionsT, v: bool)
    ensures
        *final(opts) == (UpdateOptionsT { bypass_document_validation: Some(v), ..*old(opts) }),
{
    opts.bypass_document_validation = Some(v);
}

/// Sets upsert.
pub fn mongoac_update_options_set_upsert(opts: &mut UpdateOptionsT, v: bool)
    ensures
        *final(opts) == (UpdateOptionsT { upsert: Some(v), ..*old(opts) }),
{
    opts.upsert = Some(v);
}

/// Sets (or, with `None`, clears) the write concern, as a copy of the given one.
pub fn mongoac_update_options_set_write_concern(opts: &mut UpdateOptionsT, v: Option<&WriteConcernT>)
    ensures
        v is None ==> final(opts).write_concern is None,
        v matches Some(v) ==> (final(opts).write_concern matches Some(a) && a.same_as(v)),
        *final(opts) == (UpdateOptionsT { write_concern: final(opts).write_concern, ..*old(opts) }),
{
    opts.write_concern = match v {
        Some(x) => Some(x.duplicate()),
        None => None,
    };
}

/// Sets (or, with a null view, clears) the hint document; bytes that do
/// not read as a document are refused with the BSON error and the options stay
/// as they are.
pub fn mongoac_update_options_set_hint(opts: &mut UpdateOptionsT, v: &BsonViewT) -> (r: Result<(), ErrorT>)
    ensures
        v.data is None ==> r is Ok && final(opts).hint is None,
        v.data is Some ==> (r is Ok <==> document_reads(v.spec_bytes())),
        v.data is Some && r is Ok ==> final(opts).hint is Some,
        v.data is Some && r is Ok ==> final(opts).hint == document_read(v.spec_bytes()),
        r matches Err(e) ==> e is Bson && *final(opts) == *old(opts),
        *final(opts) == (UpdateOptionsT { hint: final(opts).hint, ..*old(opts) }),
{
    let d = optional_document(v)?;
    opts.hint = d;
    Ok(())
}

/// Sets (or, with a null view, clears) the let document; bytes that do
/// not read as a document are refused with the BSON error and the options stay
/// as they are.
pub fn mongoac_update_options_set_let(opts: &mut UpdateOptionsT, v: &BsonViewT) -> (r: Result<(), ErrorT>)
    ensures
        v.data is None ==> r is Ok && final(opts).let_vars is None,
        v.data is Some ==> (r is Ok <==> document_reads(v.spec_bytes())),
        v.data is Some && r is Ok ==> final(opts).let_vars is Some,
        v.data is Some && r is Ok ==> final(opts).let_vars == document_read(v.spec_bytes()),
        r matches Err(e) ==> e is Bson && *final(opts) == *old(opts),
        *final(opts) == (UpdateOptionsT { let_vars: final(opts).let_vars, ..*old(opts) }),
{
    let d = optional_document(v)?;
    opts.let_vars = d;
    Ok(())
}

/// Sets (or, with a null view, clears) the comment document; bytes that do
/// not read as a document are refused with the BSON error and the options stay
/// as they are.
pub fn mongoac_update_options_set_comment(opts: &mut UpdateOptionsT, v: &BsonViewT) -> (r: Result<(), ErrorT>)
    ensures
        v.data is None ==> r is Ok && final(opts).comment is None,
        v.data is Some ==> (r is Ok <==> document_reads(v.spec_bytes())),
        v.data is Some && r is Ok ==> final(opts).comment is Some,
        v.data is Some && r is Ok ==> final(opts).comment == document_read(v.spec_bytes()),
        r matches Err(e) ==> e is Bson && *final(opts) == *old(opts),
        *final(opts) == (UpdateOptionsT { comment: final(opts).comment, ..*old(opts) }),
{
    let d = optional_document(v)?;
    opts.comment = d;
    Ok(())
}

/// Sets (or, with a null view, clears) the sort document; bytes that do
/// not read as a document are refused with the BSON error and the options stay
/// as they are.
pub fn mongoac_update_options_set_sort(opts: &mut UpdateOptionsT, v: &BsonViewT) -> (r: Result<(), ErrorT>)
    ensures
        v.data is None ==> r is Ok && final(opts).sort is None,
        v.data is Some ==> (r is Ok <==> document_reads(v.spec_bytes())),
        v.data is Some && r is Ok ==> final(opts).sort is Some,
        v.data is Some && r is Ok ==> final(opts).sort == document_read(v.spec_bytes()),
        r matches Err(e) ==> e is Bson && *final(opts) == *old(opts),
        *final(opts) == (UpdateOptionsT { sort: final(opts).sort, ..*old(opts) }),
{
    let d = optional_document(v)?;
    opts.sort = d;
    Ok(())
}

} // verus!
