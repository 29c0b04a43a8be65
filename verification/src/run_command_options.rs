//! Options of running a command; an option left unset keeps the driver's default.

use crate::read_preference::SelectionCriteriaT;
use crate::read_preference::ReadPreferenceT;
use vstd::prelude::*;

verus! {

/// Options of running a command. `S` is the type of a server predicate supplied by
/// the caller.
#[derive(Debug)]
pub struct RunCommandOptionsT<S> {
    pub selection_criteria: Option<SelectionCriteriaT<S>>,
}

/// New options with nothing set.
pub fn mongoac_run_command_options_new<S>() -> (r: RunCommandOptionsT<S>)
    ensures
        r.selection_criteria is None,
{
    RunCommandOptionsT { selection_criteria: None }
}

/// Selects servers by the read preference (or, with `None`, clears the
/// selection), as a copy of the given one.
pub fn mongoac_run_command_options_set_read_preference<S>(opts: &mut RunCommandOptionsT<S>, v: Option<&ReadPreferenceT>)
    ensures
        v is None ==> final(opts).selection_criteria is None,
        v matches Some(v) ==> (final(opts).selection_criteria matches Some(SelectionCriteriaT::ReadPreference(a)) && a.same_as(v)),
        *final(opts) == (RunCommandOptionsT { selection_criteria: final(opts).selection_criteria, ..*old(opts) }),
{
    opts.selection_criteria = match v {
        Some(x) => Some(SelectionCriteriaT::ReadPreference(x.duplicate())),
        None => None,
    };
}

/// Selects servers by the caller's predicate (or, with `None`, clears the
/// selection).
pub fn mongoac_run_command_options_set_server_selector<S>(opts: &mut RunCommandOptionsT<S>, v: Option<S>)
    ensures
        v is None ==> final(opts).selection_criteria is None,
        v matches Some(p) ==> final(opts).selection_criteria == Some(SelectionCriteriaT::<S>::Predicate(p)),
        *final(opts) == (RunCommandOptionsT { selection_criteria: final(opts).selection_criteria, ..*old(opts) }),
{
    opts.selection_criteria = match v {
        Some(p) => Some(SelectionCriteriaT::Predicate(p)),
        None => None,
    };
}

} // verus!
