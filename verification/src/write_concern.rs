//! Write concern: the acknowledgment that writes ask for.

use vstd::prelude::*;

verus! {

/// The `w` of a write concern.
#[derive(Debug)]
pub enum AcknowledgmentT {
    Nodes(u32),
    Majority,
    Custom(String),
}

/// A write concern; unset fields defer to the server's defaults.
#[derive(Debug)]
pub struct WriteConcernT {
    pub w: Option<AcknowledgmentT>,
    pub w_timeout_ms: Option<u64>,
    pub journal: Option<bool>,
}

impl AcknowledgmentT {
    /// A copy of the acknowledgment.
    pub fn duplicate(&self) -> (r: Self)
        ensures
            r.same_as(self),
    {
        match self {
            AcknowledgmentT::Nodes(n) => AcknowledgmentT::Nodes(*n),
            AcknowledgmentT::Majority => AcknowledgmentT::Majority,
            AcknowledgmentT::Custom(s) => AcknowledgmentT::Custom(s.clone()),
        }
    }

    /// Whether two acknowledgments ask for the same thing.
    pub open spec fn same_as(&self, other: &Self) -> bool {
        match (*self, *other) {
            (AcknowledgmentT::Nodes(a), AcknowledgmentT::Nodes(b)) => a == b,
            (AcknowledgmentT::Majority, AcknowledgmentT::Majority) => true,
            (AcknowledgmentT::Custom(a), AcknowledgmentT::Custom(b)) => a@ == b@,
            _ => false,
        }
    }
}

impl WriteConcernT {
    /// Whether two write concerns ask for the same thing.
    pub open spec fn same_as(&self, other: &Self) -> bool {
        &&& match (self.w, other.w) {
            (Some(a), Some(b)) => a.same_as(&b),
            (None, None) => true,
            _ => false,
        }
        &&& self.w_timeout_ms == other.w_timeout_ms
        &&& self.journal == other.journal
    }

    /// A copy of the write concern.
    pub fn duplicate(&self) -> (r: Self)
        ensures
            r.same_as(self),
    {
        WriteConcernT {
            w: match &self.w {
                Some(a) => Some(a.duplicate()),
                None => None,
            },
            w_timeout_ms: self.w_timeout_ms,
            journal: self.journal,
        }
    }
}

/// A new write concern with every field unset.
pub fn mongoac_write_concern_new() -> (r: WriteConcernT)
    ensures
        r.w is None,
        r.w_timeout_ms is None,
        r.journal is None,
{
    WriteConcernT { w: None, w_timeout_ms: None, journal: None }
}

/// Asks for acknowledgment by a majority.
pub fn mongoac_write_concern_set_w_majority(wc: &mut WriteConcernT)
    ensures
        final(wc).w matches Some(AcknowledgmentT::Majority),
        final(wc).w_timeout_ms == old(wc).w_timeout_ms,
        final(wc).journal == old(wc).journal,
{
    wc.w = Some(AcknowledgmentT::Majority);
}

/// Asks for acknowledgment by the given number of nodes.
pub fn mongoac_write_concern_set_w_nodes(wc: &mut WriteConcernT, v: u32)
    ensures
        final(wc).w matches Some(AcknowledgmentT::Nodes(n)) && n == v,
        final(wc).w_timeout_ms == old(wc).w_timeout_ms,
        final(wc).journal == old(wc).journal,
{
    wc.w = Some(AcknowledgmentT::Nodes(v));
}

/// Asks for acknowledgment by a custom write concern name.
pub fn mongoac_write_concern_set_w_custom(wc: &mut WriteConcernT, v: &str)
    ensures
        final(wc).w matches Some(AcknowledgmentT::Custom(s)) && s@ == v@,
        final(wc).w_timeout_ms == old(wc).w_timeout_ms,
        final(wc).journal == old(wc).journal,
{
    wc.w = Some(AcknowledgmentT::Custom(String::from_str(v)));
}

/// Sets the acknowledgment time limit, in milliseconds.
pub fn mongoac_write_concern_set_w_timeout_ms(wc: &mut WriteConcernT, v: u64)
    ensures
        final(wc).w_timeout_ms == Some(v),
        final(wc).w == old(wc).w,
        final(wc).journal == old(wc).journal,
{
    wc.w_timeout_ms = Some(v);
}

/// Asks for acknowledgment that the write reached the journal.
pub fn mongoac_write_concern_set_journal(wc: &mut WriteConcernT, v: bool)
    ensures
        final(wc).journal == Some(v),
        final(wc).w == old(wc).w,
        final(wc).w_timeout_ms == old(wc).w_timeout_ms,
{
    wc.journal = Some(v);
}

} // verus!
