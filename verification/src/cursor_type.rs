//! Cursor types, as the C API numbers them.

use mongodb::options::CursorType;
use vstd::prelude::*;
use vstd::std_specs::convert::FromSpecImpl;

verus! {

#[allow(non_camel_case_types)]
pub type mongoac_cursor_type_t = i32;

pub const MONGOAC_CURSOR_TYPE_NON_TAILABLE: mongoac_cursor_type_t = 0;

pub const MONGOAC_CURSOR_TYPE_TAILABLE: mongoac_cursor_type_t = 1;

pub const MONGOAC_CURSOR_TYPE_TAILABLE_AWAIT: mongoac_cursor_type_t = 2;

/// A cursor type; other values are carried as `Unused` and read as non-tailable.
#[derive(Debug, Clone, Copy, PartialEq, Eq, Structural)]
pub enum CursorTypeT {
    NonTailable,
    Tailable,
    TailableAwait,
    Unused(i32),
}

/// The cursor type that an integer names.
pub open spec fn cursor_type_from_i32(v: i32) -> CursorTypeT {
    if v == MONGOAC_CURSOR_TYPE_NON_TAILABLE {
        CursorTypeT::NonTailable
    } else if v == MONGOAC_CURSOR_TYPE_TAILABLE {
        CursorTypeT::Tailable
    } else if v == MONGOAC_CURSOR_TYPE_TAILABLE_AWAIT {
        CursorTypeT::TailableAwait
    } else {
        CursorTypeT::Unused(v)
    }
}

/// The integer that a cursor type stands for.
pub open spec fn cursor_type_to_i32(c: CursorTypeT) -> i32 {
    match c {
        CursorTypeT::NonTailable => MONGOAC_CURSOR_TYPE_NON_TAILABLE,
        CursorTypeT::Tailable => MONGOAC_CURSOR_TYPE_TAILABLE,
        CursorTypeT::TailableAwait => MONGOAC_CURSOR_TYPE_TAILABLE_AWAIT,
        CursorTypeT::Unused(v) => v,
    }
}

/// The cursor type that is used: an unknown value means non-tailable.
pub open spec fn effective_cursor_type(c: CursorTypeT) -> CursorTypeT {
    match c {
        CursorTypeT::Unused(_) => CursorTypeT::NonTailable,
        _ => c,
    }
}

impl From<i32> for CursorTypeT {
    fn from(v: i32) -> (r: Self) {
        if v == MONGOAC_CURSOR_TYPE_NON_TAILABLE {
            CursorTypeT::NonTailable
        } else if v == MONGOAC_CURSOR_TYPE_TAILABLE {
            CursorTypeT::Tailable
        } else if v == MONGOAC_CURSOR_TYPE_TAILABLE_AWAIT {
            CursorTypeT::TailableAwait
        } else {
            CursorTypeT::Unused(v)
        }
    }
}

impl FromSpecImpl<i32> for CursorTypeT {
    open spec fn obeys_from_spec() -> bool {
        true
    }

    open spec fn from_spec(v: i32) -> Self {
        cursor_type_from_i32(v)
    }
}

impl From<CursorTypeT> for i32 {
    fn from(c: CursorTypeT) -> (r: i32) {
        match c {
            CursorTypeT::NonTailable => MONGOAC_CURSOR_TYPE_NON_TAILABLE,
            CursorTypeT::Tailable => MONGOAC_CURSOR_TYPE_TAILABLE,
            CursorTypeT::TailableAwait => MONGOAC_CURSOR_TYPE_TAILABLE_AWAIT,
            CursorTypeT::Unused(v) => v,
        }
    }
}

impl FromSpecImpl<CursorTypeT> for i32 {
    open spec fn obeys_from_spec() -> bool {
        true
    }

    open spec fn from_spec(c: CursorTypeT) -> i32 {
        cursor_type_to_i32(c)
    }
}

#[verifier::external_type_specification]
#[verifier::external_body]
pub struct ExCursorType(CursorType);

/// The driver's cursor type of the same name as one of the three named types.
pub uninterp spec fn driver_cursor_type_named(c: CursorTypeT) -> CursorType;

/// Builds the driver's cursor type of the same name, one variant for each of the
/// three named types; `Unused` does not occur here. The driver's value is
/// opaque here: the contract only names it by the type it was built from.
#[verifier::external_body]
fn driver_cursor_type(c: CursorTypeT) -> (r: CursorType)
    requires
        !(c is Unused),
    ensures
        r == driver_cursor_type_named(c),
{
    match c {
        CursorTypeT::Tailable => CursorType::Tailable,
        CursorTypeT::TailableAwait => CursorType::TailableAwait,
        _ => CursorType::NonTailable,
    }
}

impl CursorTypeT {
    /// The cursor type that is used: an unknown value means non-tailable.
    pub fn effective(self) -> (r: CursorTypeT)
        ensures
            r == effective_cursor_type(self),
    {
        match self {
            CursorTypeT::Unused(_) => CursorTypeT::NonTailable,
            _ => self,
        }
    }

    /// The driver's cursor type for this one, unknown values read as non-tailable.
    pub fn to_driver(self) -> (r: CursorType)
        ensures
            r == driver_cursor_type_named(effective_cursor_type(self)),
    {
        driver_cursor_type(self.effective())
    }
}

/// Every integer survives the trip through `CursorTypeT` unchanged.
pub proof fn lemma_cursor_type_i32_round_trip(v: i32)
    ensures
        cursor_type_to_i32(cursor_type_from_i32(v)) == v,
{
}

/// Every integer outside the named set is used as a non-tailable cursor.
pub proof fn lemma_unknown_cursor_type_is_non_tailable(v: i32)
    requires
        !(0 <= v <= 2),
    ensures
        effective_cursor_type(cursor_type_from_i32(v)) == CursorTypeT::NonTailable,
{
}

/// Each named cursor type is the integer of the C API: non-tailable 0,
/// tailable 1, tailable-await 2, both ways.
pub proof fn lemma_cursor_types_are_the_c_constants()
    ensures
        MONGOAC_CURSOR_TYPE_NON_TAILABLE == 0,
        cursor_type_to_i32(CursorTypeT::NonTailable) == 0,
        cursor_type_from_i32(0) == CursorTypeT::NonTailable,
        MONGOAC_CURSOR_TYPE_TAILABLE == 1,
        cursor_type_to_i32(CursorTypeT::Tailable) == 1,
        cursor_type_from_i32(1) == CursorTypeT::Tailable,
        MONGOAC_CURSOR_TYPE_TAILABLE_AWAIT == 2,
        cursor_type_to_i32(CursorTypeT::TailableAwait) == 2,
        cursor_type_from_i32(2) == CursorTypeT::TailableAwait,
{
}

} // verus!
