//! Read concern: the consistency level that reads ask for.

use mongodb::options::{ReadConcern, ReadConcernLevel};
use vstd::prelude::*;

verus! {

/// A read concern level; `Custom` carries any other level name.
#[derive(Debug)]
pub enum ReadConcernLevelT {
    Local,
    Majority,
    Linearizable,
    Available,
    Snapshot,
    Custom(String),
}

/// A read concern.
#[derive(Debug)]
pub struct ReadConcernT {
    pub level: ReadConcernLevelT,
}

/// The level that a level name stands for: the five named levels, and `Custom`
/// for every other name.
pub open spec fn level_named(level: ReadConcernLevelT, name: Seq<char>) -> bool {
    if name == "local"@ {
        level is Local
    } else if name == "majority"@ {
        level is Majority
    } else if name == "linearizable"@ {
        level is Linearizable
    } else if name == "available"@ {
        level is Available
    } else if name == "snapshot"@ {
        level is Snapshot
    } else {
        level matches ReadConcernLevelT::Custom(s) && s@ == name
    }
}

#[verifier::external_type_specification]
#[verifier::external_body]
pub struct ExReadConcern(ReadConcern);

/// Calls `ReadConcern::custom`, which parses the level name: "local",
/// "majority", "linearizable", "available" and "snapshot" name their levels and
/// any other name is kept as a custom level. The resulting level is returned,
/// one variant for each of the driver's.
#[verifier::external_body]
fn read_concern_custom(level: &str) -> (r: ReadConcernLevelT)
    ensures
        level_named(r, level@),
{
    match ReadConcern::custom(level).level {
        ReadConcernLevel::Local => ReadConcernLevelT::Local,
        ReadConcernLevel::Majority => ReadConcernLevelT::Majority,
        ReadConcernLevel::Linearizable => ReadConcernLevelT::Linearizable,
        ReadConcernLevel::Available => ReadConcernLevelT::Available,
        ReadConcernLevel::Snapshot => ReadConcernLevelT::Snapshot,
        ReadConcernLevel::Custom(s) => ReadConcernLevelT::Custom(s),
        _ => ReadConcernLevelT::Custom(level.to_string()),
    }
}

impl ReadConcernT {
    /// A copy of the read concern.
    pub fn duplicate(&self) -> (r: Self)
        ensures
            r.same_as(self),
    {
        ReadConcernT {
            level: match &self.level {
                ReadConcernLevelT::Local => ReadConcernLevelT::Local,
                ReadConcernLevelT::Majority => ReadConcernLevelT::Majority,
                ReadConcernLevelT::Linearizable => ReadConcernLevelT::Linearizable,
                ReadConcernLevelT::Available => ReadConcernLevelT::Available,
                ReadConcernLevelT::Snapshot => ReadConcernLevelT::Snapshot,
                ReadConcernLevelT::Custom(s) => ReadConcernLevelT::Custom(s.clone()),
            },
        }
    }

    /// Whether two read concerns ask for the same level.
    pub open spec fn same_as(&self, other: &Self) -> bool {
        match (self.level, other.level) {
            (ReadConcernLevelT::Custom(a), ReadConcernLevelT::Custom(b)) => a@ == b@,
            (ReadConcernLevelT::Custom(_), _) => false,
            (_, ReadConcernLevelT::Custom(_)) => false,
            (a, b) => a == b,
        }
    }
}

/// A new read concern, at level "local".
pub fn mongoac_read_concern_new() -> (r: ReadConcernT)
    ensures
        r.level is Local,
{
    ReadConcernT { level: ReadConcernLevelT::Local }
}

/// Sets the level to "local".
pub fn mongoac_read_concern_set_level_local(rc: &mut ReadConcernT)
    ensures
        final(rc).level is Local,
{
    rc.level = ReadConcernLevelT::Local;
}

/// Sets the level to "majority".
pub fn mongoac_read_concern_set_level_majority(rc: &mut ReadConcernT)
    ensures
        final(rc).level is Majority,
{
    rc.level = ReadConcernLevelT::Majority;
}

/// Sets the level to "linearizable".
pub fn mongoac_read_concern_set_level_linearizable(rc: &mut ReadConcernT)
    ensures
        final(rc).level is Linearizable,
{
    rc.level = ReadConcernLevelT::Linearizable;
}

/// Sets the level to "available".
pub fn mongoac_read_concern_set_level_available(rc: &mut ReadConcernT)
    ensures
        final(rc).level is Available,
{
    rc.level = ReadConcernLevelT::Available;
}

/// Sets the level to "snapshot".
pub fn mongoac_read_concern_set_level_snapshot(rc: &mut ReadConcernT)
    ensures
        final(rc).level is Snapshot,
{
    rc.level = ReadConcernLevelT::Snapshot;
}

/// Sets the level by name: a named level when the name is one, a custom level
/// otherwise.
pub fn mongoac_read_concern_set_level_string(rc: &mut ReadConcernT, v: &str)
    ensures
        level_named(final(rc).level, v@),
{
    rc.level = read_concern_custom(v);
}

} // verus!
