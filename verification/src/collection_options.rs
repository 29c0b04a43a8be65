//! Options of a collection handle; an option left unset keeps the driver's default.

use crate::read_preference::SelectionCriteriaT;
use crate::read_preference::ReadPreferenceT;
use crate::write_concern::WriteConcernT;
use crate::read_concern::ReadConcernT;
use vstd::prelude::*;

verus! {

/// Options of a collection handle. `S` is the type of a server predicate supplied by
/// the caller.
#[derive(Debug)]
pub struct CollectionOptionsT<S> {
    pub read_concern: Option<ReadConcernT>,
    pub write_concern: Option<WriteConcernT>,
    pub selection_criteria: Option<SelectionCriteriaT<S>>,
}

/// New options with nothing set.
pub fn mongoac_collection_options_new<S>() -> (r: CollectionOptionsT<S>)
    ensures
        r.read_concern is None,
        r.write_concern is None,
        r.selection_criteria is None,
{
    CollectionOptionsT { read_concern: None, write_concern: None, selection_criteria: None }
}

/// Sets (or, with `None`, clears) the read concern, as a copy of the given one.
pub fn mongoac_collection_options_set_read_concern<S>(opts: &mut CollectionOptionsT<S>, v: Option<&ReadConcernT>)
    ensures
        v is None ==> final(opts).read_concern is None,
        v matches Some(v) ==> (final(opts).read_concern matches Some(a) && a.same_as(v)),
        *final(opts) == (CollectionOptionsT { read_concern: final(opts).read_concern, ..*old(opts) }),
{
    opts.read_concern = match v {
        Some(x) => Some(x.duplicate()),
        None => None,
    };
}

/// Sets (or, with `None`, clears) the write concern, as a copy of the given one.
pub fn mongoac_collection_options_set_write_concern<S>(opts: &mut CollectionOptionsT<S>, v: Option<&WriteConcernT>)
    ensures
        v is None ==> final(opts).write_concern is None,
        v matches Some(v) ==> (final(opts).write_concern matches Some(a) && a.same_as(v)),
        *final(opts) == (CollectionOptionsT { write_concern: final(opts).write_concern, ..*old(opts) }),
{
    opts.write_concern = match v {
        Some(x) => Some(x.duplicate()),
        None => None,
    };
}

/// Selects servers by the read preference (or, with `None`, clears the
/// selection), as a copy of the given one.
pub fn mongoac_collection_options_set_read_preference<S>(opts: &mut CollectionOptionsT<S>, v: Option<&ReadPreferenceT>)
    ensures
        v is None ==> final(opts).selection_criteria is None,
        v matches Some(v) ==> (final(opts).selection_criteria matches Some(SelectionCriteriaT::ReadPreference(a)) && a.same_as(v)),
        *final(opts) == (CollectionOptionsT { selection_criteria: final(opts).selection_criteria, ..*old(opts) }),
{
    opts.selection_criteria = match v {
        Some(x) => Some(SelectionCriteriaT::ReadPreference(x.duplicate())),
        None => None,
    };
}

/// Selects servers by the caller's predicate (or, with `None`, clears the
/// selection).
pub fn mongoac_collection_options_set_server_selector<S>(opts: &mut CollectionOptionsT<S>, v: Option<S>)
    ensures
        v is None ==> final(opts).selection_criteria is None,
        v matches Some(p) ==> final(opts).selection_criteria == Some(SelectionCriteriaT::<S>::Predicate(p)),
        *final(opts) == (CollectionOptionsT { selection_criteria: final(opts).selection_criteria, ..*old(opts) }),
{
    opts.selection_criteria = match v {
        Some(p) => Some(SelectionCriteriaT::Predicate(p)),
        None => None,
    };
}

} // verus!
