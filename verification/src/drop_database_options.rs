//! Options of dropping a database; an option left unset keeps the driver's default.

use crate::write_concern::WriteConcernT;
use vstd::prelude::*;

verus! {

/// Options of dropping a database.
#[derive(Debug)]
pub struct DropDatabaseOptionsT {
    pub write_concern: Option<WriteConcernT>,
}

/// New options with nothing set.
pub fn mongoac_drop_database_options_new() -> (r: DropDatabaseOptionsT)
    ensures
        r.write_concern is None,
{
    DropDatabaseOptionsT { write_concern: None }
}

/// Sets (or, with `None`, clears) the write concern, as a copy of the given one.
pub fn mongoac_drop_database_options_set_write_concern(opts: &mut DropDatabaseOptionsT, v: Option<&WriteConcernT>)
    ensures
        v is None ==> final(opts).write_concern is None,
        v matches Some(v) ==> (final(opts).write_concern matches Some(a) && a.same_as(v)),
        *final(opts) == (DropDatabaseOptionsT { write_concern: final(opts).write_concern, ..*old(opts) }),
{
    opts.write_concern = match v {
        Some(x) => Some(x.duplicate()),
        None => None,
    };
}

} // verus!
