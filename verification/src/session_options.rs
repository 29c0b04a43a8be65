//! Options of a client session; an option left unset keeps the driver's default.

use crate::transaction_options::TransactionOptionsT;
use vstd::prelude::*;

verus! {

/// Options of a client session.
#[derive(Debug)]
pub struct SessionOptionsT {
    pub causal_consistency: Option<bool>,
    pub snapshot: Option<bool>,
    pub snapshot_time: Option<(u32, u32)>,
    pub default_transaction_options: Option<TransactionOptionsT>,
}

/// New options with nothing set.
pub fn mongoac_session_options_new() -> (r: SessionOptionsT)
    ensures
        r.causal_consistency is None,
        r.snapshot is None,
        r.snapshot_time is None,
        r.default_transaction_options is None,
{
    SessionOptionsT { causal_consistency: None, snapshot: None, snapshot_time: None, default_transaction_options: None }
}

/// Sets causal consistency.
pub fn mongoac_session_options_set_causal_consistency(opts: &mut SessionOptionsT, v: bool)
    ensures
        *final(opts) == (SessionOptionsT { causal_consistency: Some(v), ..*old(opts) }),
{
    opts.causal_consistency = Some(v);
}

/// Sets snapshot.
pub fn mongoac_session_options_set_snapshot(opts: &mut SessionOptionsT, v: bool)
    ensures
        *final(opts) == (SessionOptionsT { snapshot: Some(v), ..*old(opts) }),
{
    opts.snapshot = Some(v);
}

/// Sets the snapshot time: seconds since the epoch and an increment.
pub fn mongoac_session_options_set_snapshot_time(opts: &mut SessionOptionsT, time: u32, increment: u32)
    ensures
        *final(opts) == (SessionOptionsT { snapshot_time: Some((time, increment)), ..*old(opts) }),
{
    opts.snapshot_time = Some((time, increment));
}

/// Sets (or, with `None`, clears) the default transaction options, as a copy of the given one.
pub fn mongoac_session_options_set_default_transaction_options(opts: &mut SessionOptionsT, v: Option<&TransactionOptionsT>)
    ensures
        v is None ==> final(opts).default_transaction_options is None,
        v matches Some(v) ==> (final(opts).default_transaction_options matches Some(a) && a.same_as(v)),
        *final(opts) == (SessionOptionsT { default_transaction_options: final(opts).default_transaction_options, ..*old(opts) }),
{
    opts.default_transaction_options = match v {
        Some(x) => Some(x.duplicate()),
        None => None,
    };
}

} // verus!
