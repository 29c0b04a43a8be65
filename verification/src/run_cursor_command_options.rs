//! Options of running a cursor command; an option left unset keeps the driver's default.

use crate::cursor_type::{effective_cursor_type, CursorTypeT};
use crate::read_preference::SelectionCriteriaT;
use crate::read_preference::ReadPreferenceT;
use crate::bson::optional_document;
use crate::bson::{document_reads, BsonViewT};
use crate::error::ErrorT;
use mongodb::bson::Document;
use crate::bson::document_read;
use vstd::prelude::*;

verus! {

/// Options of running a cursor command. `S` is the type of a server predicate supplied by
/// the caller.
#[derive(Debug)]
pub struct RunCursorCommandOptionsT<S> {
    pub selection_criteria: Option<SelectionCriteriaT<S>>,
    pub cursor_type: Option<CursorTypeT>,
    pub batch_size: Option<u32>,
    pub max_time_ms: Option<u64>,
    pub comment: Option<Document>,
}

/// New options with nothing set.
pub fn mongoac_run_cursor_command_options_new<S>() -> (r: RunCursorCommandOptionsT<S>)
    ensures
        r.selection_criteria is None,
        r.cursor_type is None,
        r.batch_size is None,
        r.max_time_ms is None,
        r.comment is None,
{
    RunCursorCommandOptionsT { selection_criteria: None, cursor_type: None, batch_size: None, max_time_ms: None, comment: None }
}

/// Selects servers by the read preference (or, with `None`, clears the
/// selection), as a copy of the given one.
pub fn mongoac_run_cursor_command_options_set_read_preference<S>(opts: &mut RunCursorCommandOptionsT<S>, v: Option<&ReadPreferenceT>)
    ensures
        v is None ==> final(opts).selection_criteria is None,
        v matches Some(v) ==> (final(opts).selection_criteria matches Some(SelectionCriteriaT::ReadPreference(a)) && a.same_as(v)),
        *final(opts) == (RunCursorCommandOptionsT { selection_criteria: final(opts).selection_criteria, ..*old(opts) }),
{
    opts.selection_criteria = match v {
        Some(x) => Some(SelectionCriteriaT::ReadPreference(x.duplicate())),
        None => None,
    };
}

/// Selects servers by the caller's predicate (or, with `None`, clears the
/// selection).
pub fn mongoac_run_cursor_command_options_set_server_selector<S>(opts: &mut RunCursorCommandOptionsT<S>, v: Option<S>)
    ensures
        v is None ==> final(opts).selection_criteria is None,
        v matches Some(p) ==> final(opts).selection_criteria == Some(SelectionCriteriaT::<S>::Predicate(p)),
        *final(opts) == (RunCursorCommandOptionsT { selection_criteria: final(opts).selection_criteria, ..*old(opts) }),
{
    opts.selection_criteria = match v {
        Some(p) => Some(SelectionCriteriaT::Predicate(p)),
        None => None,
    };
}

/// Sets the cursor type; a number that names no cursor type reads as
/// non-tailable.
pub fn mongoac_run_cursor_command_options_set_cursor_type<S>(opts: &mut RunCursorCommandOptionsT<S>, v: CursorTypeT)
    ensures
        *final(opts) == (RunCursorCommandOptionsT { cursor_type: Some(effective_cursor_type(v)), ..*old(opts) }),
{
    opts.cursor_type = Some(v.effective());
}

/// Sets batch size.
pub fn mongoac_run_cursor_command_options_set_batch_size<S>(opts: &mut RunCursorCommandOptionsT<S>, v: u32)
    ensures
        *final(opts) == (RunCursorCommandOptionsT { batch_size: Some(v), ..*old(opts) }),
{
    opts.batch_size = Some(v);
}

/// Sets max time ms, in milliseconds.
pub fn mongoac_run_cursor_command_options_set_max_time_ms<S>(opts: &mut RunCursorCommandOptionsT<S>, v: u64)
    ensures
        *final(opts) == (RunCursorCommandOptionsT { max_time_ms: Some(v), ..*old(opts) }),
{
    opts.max_time_ms = Some(v);
}

/// Sets (or, with a null view, clears) the comment document; bytes that do
/// not read as a document are refused with the BSON error and the options stay
/// as they are.
pub fn mongoac_run_cursor_command_options_set_comment<S>(opts: &mut RunCursorCommandOptionsT<S>, v: &BsonViewT) -> (r: Result<(), ErrorT>)
    ensures
        v.data is None ==> r is Ok && final(opts).comment is None,
        v.data is Some ==> (r is Ok <==> document_reads(v.spec_bytes())),
        v.data is Some && r is Ok ==> final(opts).comment is Some,
        v.data is Some && r is Ok ==> final(opts).comment == document_read(v.spec_bytes()),
        r matches Err(e) ==> e is Bson && *final(opts) == *old(opts),
        *final(opts) == (RunCursorCommandOptionsT { comment: final(opts).comment, ..*old(opts) }),
{
    let d = optional_document(v)?;
    opts.comment = d;
    Ok(())
}

} // verus!
