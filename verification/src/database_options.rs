//! Options of a database handle; an option left unset keeps the driver's default.

use crate::read_preference::ReadPreferenceT;
use crate::write_concern::WriteConcernT;
use crate::read_concern::ReadConcernT;
use vstd::prelude::*;

verus! {

/// Options of a database handle.
#[derive(Debug)]
pub struct DatabaseOptionsT {
    pub read_concern: Option<ReadConcernT>,
    pub write_concern: Option<WriteConcernT>,
    pub read_preference: Option<ReadPreferenceT>,
}

/// New options with nothing set.
pub fn mongoac_database_options_new() -> (r: DatabaseOptionsT)
    ensures
        r.read_concern is None,
        r.write_concern is None,
        r.read_preference is None,
{
    DatabaseOptionsT { read_concern: None, write_concern: None, read_preference: None }
}

/// Sets (or, with `None`, clears) the read concern, as a copy of the given one.
pub fn mongoac_database_options_set_read_concern(opts: &mut DatabaseOptionsT, v: Option<&ReadConcernT>)
    ensures
        v is None ==> final(opts).read_concern is None,
        v matches Some(v) ==> (final(opts).read_concern matches Some(a) && a.same_as(v)),
        *final(opts) == (DatabaseOptionsT { read_concern: final(opts).read_concern, ..*old(opts) }),
{
    opts.read_concern = match v {
        Some(x) => Some(x.duplicate()),
        None => None,
    };
}

/// Sets (or, with `None`, clears) the write concern, as a copy of the given one.
pub fn mongoac_database_options_set_write_concern(opts: &mut DatabaseOptionsT, v: Option<&WriteConcernT>)
    ensures
        v is None ==> final(opts).write_concern is None,
        v matches Some(v) ==> (final(opts).write_concern matches Some(a) && a.same_as(v)),
        *final(opts) == (DatabaseOptionsT { write_concern: final(opts).write_concern, ..*old(opts) }),
{
    opts.write_concern = match v {
        Some(x) => Some(x.duplicate()),
        None => None,
    };
}

/// Sets (or, with `None`, clears) the read preference, as a copy of the given one.
pub fn mongoac_database_options_set_read_preference(opts: &mut DatabaseOptionsT, v: Option<&ReadPreferenceT>)
    ensures
        v is None ==> final(opts).read_preference is None,
        v matches Some(v) ==> (final(opts).read_preference matches Some(a) && a.same_as(v)),
        *final(opts) == (DatabaseOptionsT { read_preference: final(opts).read_preference, ..*old(opts) }),
{
    opts.read_preference = match v {
        Some(x) => Some(x.duplicate()),
        None => None,
    };
}

} // verus!
