//! Options of a transaction; an option left unset keeps the driver's default.

use crate::read_preference::ReadPreferenceT;
use crate::write_concern::WriteConcernT;
use crate::read_concern::ReadConcernT;
use vstd::prelude::*;

verus! {

/// Options of a transaction.
#[derive(Debug)]
pub struct TransactionOptionsT {
    pub read_concern: Option<ReadConcernT>,
    pub write_concern: Option<WriteConcernT>,
    pub read_preference: Option<ReadPreferenceT>,
    pub max_commit_time_ms: Option<u64>,
}

/// New options with nothing set.
pub fn mongoac_transaction_options_new() -> (r: TransactionOptionsT)
    ensures
        r.read_concern is None,
        r.write_concern is None,
        r.read_preference is None,
        r.max_commit_time_ms is None,
{
    TransactionOptionsT { read_concern: None, write_concern: None, read_preference: None, max_commit_time_ms: None }
}

/// Sets (or, with `None`, clears) the read concern, as a copy of the given one.
pub fn mongoac_transaction_options_set_read_concern(opts: &mut TransactionOptionsT, v: Option<&ReadConcernT>)
    ensures
        v is None ==> final(opts).read_concern is None,
        v matches Some(v) ==> (final(opts).read_concern matches Some(a) && a.same_as(v)),
        *final(opts) == (TransactionOptionsT { read_concern: final(opts).read_concern, ..*old(opts) }),
{
    opts.read_concern = match v {
        Some(x) => Some(x.duplicate()),
        None => None,
    };
}

/// Sets (or, with `None`, clears) the write concern, as a copy of the given one.
pub fn mongoac_transaction_options_set_write_concern(opts: &mut TransactionOptionsT, v: Option<&WriteConcernT>)
    ensures
        v is None ==> final(opts).write_concern is None,
        v matches Some(v) ==> (final(opts).write_concern matches Some(a) && a.same_as(v)),
        *final(opts) == (TransactionOptionsT { write_concern: final(opts).write_concern, ..*old(opts) }),
{
    opts.write_concern = match v {
        Some(x) => Some(x.duplicate()),
        None => None,
    };
}

/// Sets (or, with `None`, clears) the read preference, as a copy of the given one.
pub fn mongoac_transaction_options_set_read_preference(opts: &mut TransactionOptionsT, v: Option<&ReadPreferenceT>)
    ensures
        v is None ==> final(opts).read_preference is None,
        v matches Some(v) ==> (final(opts).read_preference matches Some(a) && a.same_as(v)),
        *final(opts) == (TransactionOptionsT { read_preference: final(opts).read_preference, ..*old(opts) }),
{
    opts.read_preference = match v {
        Some(x) => Some(x.duplicate()),
        None => None,
    };
}

/// Sets max commit time ms, in milliseconds.
pub fn mongoac_transaction_options_set_max_commit_time_ms(opts: &mut TransactionOptionsT, v: u64)
    ensures
        *final(opts) == (TransactionOptionsT { max_commit_time_ms: Some(v), ..*old(opts) }),
{
    opts.max_commit_time_ms = Some(v);
}

/// Whether two optional values are both absent or both present and the same.
pub open spec fn same_opt_read_concern(a: Option<ReadConcernT>, b: Option<ReadConcernT>) -> bool {
    match (a, b) {
        (Some(x), Some(y)) => x.same_as(&y),
        (None, None) => true,
        _ => false,
    }
}

/// Whether two optional values are both absent or both present and the same.
pub open spec fn same_opt_write_concern(a: Option<WriteConcernT>, b: Option<WriteConcernT>) -> bool {
    match (a, b) {
        (Some(x), Some(y)) => x.same_as(&y),
        (None, None) => true,
        _ => false,
    }
}

/// Whether two optional values are both absent or both present and the same.
pub open spec fn same_opt_read_preference(a: Option<ReadPreferenceT>, b: Option<ReadPreferenceT>) -> bool {
    match (a, b) {
        (Some(x), Some(y)) => x.same_as(&y),
        (None, None) => true,
        _ => false,
    }
}

impl TransactionOptionsT {
    /// Whether two sets of transaction options hold the same values.
    pub open spec fn same_as(&self, other: &Self) -> bool {
        &&& same_opt_read_concern(self.read_concern, other.read_concern)
        &&& same_opt_write_concern(self.write_concern, other.write_concern)
        &&& same_opt_read_preference(self.read_preference, other.read_preference)
        &&& self.max_commit_time_ms == other.max_commit_time_ms
    }

    /// A copy of the options.
    pub fn duplicate(&self) -> (r: Self)
        ensures
            r.same_as(self),
    {
        TransactionOptionsT {
            read_concern: match &self.read_concern {
                Some(x) => Some(x.duplicate()),
                None => None,
            },
            write_concern: match &self.write_concern {
                Some(x) => Some(x.duplicate()),
                None => None,
            },
            read_preference: match &self.read_preference {
                Some(x) => Some(x.duplicate()),
                None => None,
            },
            max_commit_time_ms: self.max_commit_time_ms,
        }
    }
}

} // verus!
