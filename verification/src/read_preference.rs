//! Read preference: which members of a deployment reads may go to, and the
//! options that every mode but "primary" accepts.

use crate::bson::BsonViewT;
use crate::error::{ErrorCodeT, ErrorT};
use std::collections::HashMap;
use vstd::prelude::*;

verus! {

/// The read preference modes.
#[derive(Debug, Clone, Copy, PartialEq, Eq, Structural)]
pub enum ReadPreferenceModeT {
    Primary,
    Secondary,
    PrimaryPreferred,
    SecondaryPreferred,
    Nearest,
}

/// The options of every mode but "primary".
#[derive(Debug)]
pub struct ReadPreferenceOptionsT {
    pub max_staleness_secs: Option<u64>,
    pub tag_sets: Option<Vec<HashMap<String, String>>>,
    pub hedge_enabled: Option<bool>,
}

/// A read preference. "primary" carries no options.
#[derive(Debug)]
pub struct ReadPreferenceT {
    pub mode: ReadPreferenceModeT,
    pub options: Option<ReadPreferenceOptionsT>,
}

/// Which servers an operation may select: by read preference, or by a
/// predicate over server descriptions supplied by the caller.
#[derive(Debug)]
pub enum SelectionCriteriaT<S> {
    ReadPreference(ReadPreferenceT),
    Predicate(S),
}

impl<S> SelectionCriteriaT<S> {
    /// Whether two criteria are the same read preference, or the same predicate.
    pub open spec fn same_as(&self, other: &Self) -> bool {
        match (self, other) {
            (SelectionCriteriaT::ReadPreference(a), SelectionCriteriaT::ReadPreference(b)) => a.same_as(b),
            (SelectionCriteriaT::Predicate(a), SelectionCriteriaT::Predicate(b)) => a == b,
            _ => false,
        }
    }
}

/// "read preference mode 'primary' does not support <what>".
pub open spec fn primary_does_not_support(what: Seq<char>) -> Seq<char> {
    "read preference mode 'primary' does not support "@ + what
}

/// Whether the bytes deserialize as a tag set (a document of string values).
pub uninterp spec fn tag_set_parses(bytes: Seq<u8>) -> bool;

/// The entries (tag name to tag value) of the tag set the bytes deserialize to.
pub uninterp spec fn tag_set_entries(bytes: Seq<u8>) -> Map<Seq<char>, Seq<char>>;

/// Calls `bson::deserialize_from_slice::<TagSet>`, which reads a BSON document
/// whose values are all strings into a map. Whether it succeeds, and the entries
/// of the map it gives, are functions of the bytes alone, named `tag_set_parses`
/// and `tag_set_entries`.
#[verifier::external_body]
fn deserialize_tag_set(bytes: &[u8]) -> (r: Result<HashMap<String, String>, mongodb::bson::error::Error>)
    ensures
        r is Ok <==> tag_set_parses(bytes@),
        r matches Ok(m) ==> m.deep_view() == tag_set_entries(bytes@),
{
    mongodb::bson::deserialize_from_slice::<HashMap<String, String>>(bytes)
}

/// The tag sets held, each by its entries.
pub open spec fn tag_sets_view(t: Option<Vec<HashMap<String, String>>>) -> Option<Seq<Map<String, String>>> {
    match t {
        Some(v) => Some(v@.map_values(|m: HashMap<String, String>| m@)),
        None => None,
    }
}

/// A copy of a list of tag sets.
fn clone_tag_sets(v: &Vec<HashMap<String, String>>) -> (r: Vec<HashMap<String, String>>)
    ensures
        r@.map_values(|m: HashMap<String, String>| m@) == v@.map_values(|m: HashMap<String, String>| m@),
{
    let mut r: Vec<HashMap<String, String>> = Vec::new();
    let mut i: usize = 0;
    while i < v.len()
        invariant
            i <= v.len(),
            r@.len() == i,
            forall|j: int| 0 <= j < i ==> #[trigger] r@[j]@ == v@[j]@,
        decreases v.len() - i,
    {
        r.push(v[i].clone());
        i = i + 1;
    }
    assert(r@.map_values(|m: HashMap<String, String>| m@) =~= v@.map_values(|m: HashMap<String, String>| m@));
    r
}

impl ReadPreferenceOptionsT {
    /// Whether two option sets hold the same values.
    pub open spec fn same_as(&self, other: &Self) -> bool {
        &&& self.max_staleness_secs == other.max_staleness_secs
        &&& self.hedge_enabled == other.hedge_enabled
        &&& tag_sets_view(self.tag_sets) == tag_sets_view(other.tag_sets)
    }

    /// A copy of the options.
    pub fn duplicate(&self) -> (r: Self)
        ensures
            r.same_as(self),
    {
        ReadPreferenceOptionsT {
            max_staleness_secs: self.max_staleness_secs,
            tag_sets: match &self.tag_sets {
                Some(t) => Some(clone_tag_sets(t)),
                None => None,
            },
            hedge_enabled: self.hedge_enabled,
        }
    }
}

/// The options with no field set.
pub open spec fn empty_options(o: ReadPreferenceOptionsT) -> bool {
    o.max_staleness_secs is None && o.tag_sets is None && o.hedge_enabled is None
}

impl ReadPreferenceT {
    /// The invariant: "primary" carries no options.
    pub open spec fn wf(&self) -> bool {
        self.mode == ReadPreferenceModeT::Primary ==> self.options is None
    }

    /// Whether two read preferences have the same mode and options.
    pub open spec fn same_as(&self, other: &Self) -> bool {
        &&& self.mode == other.mode
        &&& match (self.options, other.options) {
            (Some(a), Some(b)) => a.same_as(&b),
            (None, None) => true,
            _ => false,
        }
    }

    /// A copy of the read preference.
    pub fn duplicate(&self) -> (r: Self)
        ensures
            r.same_as(self),
            self.wf() ==> r.wf(),
    {
        ReadPreferenceT {
            mode: self.mode,
            options: match &self.options {
                Some(o) => Some(o.duplicate()),
                None => None,
            },
        }
    }

    /// The tag sets held, in the order they were added.
    pub open spec fn tag_list(&self) -> Seq<HashMap<String, String>> {
        match self.options {
            Some(o) => match o.tag_sets {
                Some(t) => t@,
                None => Seq::empty(),
            },
            None => Seq::empty(),
        }
    }

    /// Switches to a mode other than "primary", keeping the options of the mode
    /// left, when it had any.
    fn switch_to(&mut self, mode: ReadPreferenceModeT)
        requires
            mode != ReadPreferenceModeT::Primary,
        ensures
            final(self).mode == mode,
            final(self).options == old(self).options,
    {
        self.mode = mode;
    }
}

/// A new read preference, in mode "primary".
pub fn mongoac_read_preference_new() -> (r: ReadPreferenceT)
    ensures
        r.mode == ReadPreferenceModeT::Primary,
        r.options is None,
        r.wf(),
{
    ReadPreferenceT { mode: ReadPreferenceModeT::Primary, options: None }
}

/// Switches to "primary", which drops every option.
pub fn mongoac_read_preference_set_primary(rp: &mut ReadPreferenceT)
    ensures
        final(rp).mode == ReadPreferenceModeT::Primary,
        final(rp).options is None,
        final(rp).wf(),
{
    rp.mode = ReadPreferenceModeT::Primary;
    rp.options = None;
}

/// Switches to "secondary", keeping the options of a mode other than "primary".
pub fn mongoac_read_preference_set_secondary(rp: &mut ReadPreferenceT)
    requires
        old(rp).wf(),
    ensures
        final(rp).mode == ReadPreferenceModeT::Secondary,
        final(rp).options == old(rp).options,
        final(rp).wf(),
{
    rp.switch_to(ReadPreferenceModeT::Secondary);
}

/// Switches to "primaryPreferred", keeping the options of a mode other than
/// "primary".
pub fn mongoac_read_preference_set_primary_preferred(rp: &mut ReadPreferenceT)
    requires
        old(rp).wf(),
    ensures
        final(rp).mode == ReadPreferenceModeT::PrimaryPreferred,
        final(rp).options == old(rp).options,
        final(rp).wf(),
{
    rp.switch_to(ReadPreferenceModeT::PrimaryPreferred);
}

/// Switches to "secondaryPreferred", keeping the options of a mode other than
/// "primary".
pub fn mongoac_read_preference_set_secondary_preferred(rp: &mut ReadPreferenceT)
    requires
        old(rp).wf(),
    ensures
        final(rp).mode == ReadPreferenceModeT::SecondaryPreferred,
        final(rp).options == old(rp).options,
        final(rp).wf(),
{
    rp.switch_to(ReadPreferenceModeT::SecondaryPreferred);
}

/// Switches to "nearest", keeping the options of a mode other than "primary".
pub fn mongoac_read_preference_set_nearest(rp: &mut ReadPreferenceT)
    requires
        old(rp).wf(),
    ensures
        final(rp).mode == ReadPreferenceModeT::Nearest,
        final(rp).options == old(rp).options,
        final(rp).wf(),
{
    rp.switch_to(ReadPreferenceModeT::Nearest);
}

/// The options of a non-primary read preference, created empty when absent.
fn options_mut(rp: &mut ReadPreferenceT) -> (o: &mut ReadPreferenceOptionsT)
    ensures
        match old(rp).options {
            Some(prev) => *o == prev,
            None => empty_options(*o),
        },
        final(rp).mode == old(rp).mode,
        final(rp).options == Some(*final(o)),
{
    if rp.options.is_none() {
        rp.options = Some(ReadPreferenceOptionsT { max_staleness_secs: None, tag_sets: None, hedge_enabled: None });
    }
    match &mut rp.options {
        Some(o) => o,
        None => vstd::pervasive::unreached(),
    }
}

/// Sets the maximum staleness, in seconds; "primary" refuses it and stays as it is.
pub fn mongoac_read_preference_set_max_staleness_seconds(rp: &mut ReadPreferenceT, v: u64) -> (r: Result<(), ErrorT>)
    requires
        old(rp).wf(),
    ensures
        final(rp).wf(),
        old(rp).mode == ReadPreferenceModeT::Primary ==> {
            &&& r matches Err(e) && e.is_mongoac(
                ErrorCodeT::InvalidArgument,
                primary_does_not_support("maxStalenessSeconds"@),
            )
            &&& final(rp).mode == old(rp).mode
            &&& final(rp).options == old(rp).options
        },
        old(rp).mode != ReadPreferenceModeT::Primary ==> {
            &&& r is Ok
            &&& final(rp).mode == old(rp).mode
            &&& final(rp).options matches Some(o) && o.max_staleness_secs == Some(v) && match old(
                rp,
            ).options {
                Some(p) => o.tag_sets == p.tag_sets && o.hedge_enabled == p.hedge_enabled,
                None => o.tag_sets is None && o.hedge_enabled is None,
            }
        },
{
    if rp.mode == ReadPreferenceModeT::Primary {
        let msg = String::from_str("read preference mode 'primary' does not support ").concat(
            "maxStalenessSeconds",
        );
        return Err(ErrorT::from_mongoac(ErrorCodeT::InvalidArgument, msg.as_str()));
    }
    let o = options_mut(rp);
    o.max_staleness_secs = Some(v);
    Ok(())
}

/// Appends a tag set, given as a BSON document of string values; "primary"
/// refuses tag sets, a null document is refused, and a document that does not
/// deserialize reports the BSON error. On any error the read preference stays
/// as it is.
pub fn mongoac_read_preference_add_tag_set(rp: &mut ReadPreferenceT, tag_set: &BsonViewT) -> (r: Result<(), ErrorT>)
    requires
        old(rp).wf(),
    ensures
        final(rp).wf(),
        r is Err ==> final(rp).mode == old(rp).mode && final(rp).options == old(rp).options,
        old(rp).mode == ReadPreferenceModeT::Primary ==> (r matches Err(e) && e.is_mongoac(
            ErrorCodeT::InvalidArgument,
            primary_does_not_support("tag sets"@),
        )),
        old(rp).mode != ReadPreferenceModeT::Primary && tag_set.data is None ==> (r matches Err(e)
            && e.is_mongoac(ErrorCodeT::InvalidArgument, "tag_set: must not be null"@)),
        old(rp).mode != ReadPreferenceModeT::Primary && tag_set.data is Some ==> {
            &&& r is Ok <==> tag_set_parses(tag_set.spec_bytes())
            &&& r matches Err(e) ==> e is Bson
            &&& r is Ok ==> {
                &&& final(rp).mode == old(rp).mode
                &&& final(rp).tag_list().len() == old(rp).tag_list().len() + 1
                &&& final(rp).tag_list().drop_last() == old(rp).tag_list()
                &&& final(rp).tag_list().last().deep_view() == tag_set_entries(tag_set.spec_bytes())
                &&& final(rp).options matches Some(o) && match old(rp).options {
                    Some(p) => o.max_staleness_secs == p.max_staleness_secs && o.hedge_enabled
                        == p.hedge_enabled,
                    None => o.max_staleness_secs is None && o.hedge_enabled is None,
                }
            }
        },
{
    if rp.mode == ReadPreferenceModeT::Primary {
        let msg = String::from_str("read preference mode 'primary' does not support ").concat(
            "tag sets",
        );
        return Err(ErrorT::from_mongoac(ErrorCodeT::InvalidArgument, msg.as_str()));
    }
    if tag_set.data.is_none() {
        return Err(ErrorT::from_mongoac(ErrorCodeT::InvalidArgument, "tag_set: must not be null"));
    }
    let ts = match deserialize_tag_set(tag_set.as_bytes()) {
        Ok(ts) => ts,
        Err(e) => {
            return Err(ErrorT::from_bson_error(e));
        },
    };
    let o = options_mut(rp);
    let mut sets = match o.tag_sets.take() {
        Some(s) => s,
        None => Vec::new(),
    };
    sets.push(ts);
    o.tag_sets = Some(sets);
    Ok(())
}

/// Enables or disables hedged reads; "primary" refuses it and stays as it is.
pub fn mongoac_read_preference_set_hedge_enabled(rp: &mut ReadPreferenceT, v: bool) -> (r: Result<(), ErrorT>)
    requires
        old(rp).wf(),
    ensures
        final(rp).wf(),
        old(rp).mode == ReadPreferenceModeT::Primary ==> {
            &&& r matches Err(e) && e.is_mongoac(
                ErrorCodeT::InvalidArgument,
                primary_does_not_support("hedged reads"@),
            )
            &&& final(rp).mode == old(rp).mode
            &&& final(rp).options == old(rp).options
        },
        old(rp).mode != ReadPreferenceModeT::Primary ==> {
            &&& r is Ok
            &&& final(rp).mode == old(rp).mode
            &&& final(rp).options matches Some(o) && o.hedge_enabled == Some(v) && match old(
                rp,
            ).options {
                Some(p) => o.tag_sets == p.tag_sets && o.max_staleness_secs == p.max_staleness_secs,
                None => o.tag_sets is None && o.max_staleness_secs is None,
            }
        },
{
    if rp.mode == ReadPreferenceModeT::Primary {
        let msg = String::from_str("read preference mode 'primary' does not support ").concat(
            "hedged reads",
        );
        return Err(ErrorT::from_mongoac(ErrorCodeT::InvalidArgument, msg.as_str()));
    }
    let o = options_mut(rp);
    o.hedge_enabled = Some(v);
    Ok(())
}

} // verus!
