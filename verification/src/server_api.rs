//! The declared Stable API version and its flags.

use vstd::prelude::*;

verus! {

/// A Stable API declaration; the version is always "1".
#[derive(Debug, Clone, Copy, PartialEq, Eq, Structural)]
pub struct ServerApiT {
    pub strict: Option<bool>,
    pub deprecation_errors: Option<bool>,
}

/// A new declaration of API version "1", with both flags unset.
pub fn mongoac_server_api_new() -> (r: ServerApiT)
    ensures
        r == (ServerApiT { strict: None, deprecation_errors: None }),
{
    ServerApiT { strict: None, deprecation_errors: None }
}

/// Sets the strict flag.
pub fn mongoac_server_api_set_strict(api: &mut ServerApiT, v: bool)
    ensures
        *final(api) == (ServerApiT { strict: Some(v), ..*old(api) }),
{
    api.strict = Some(v);
}

/// Sets the deprecation-errors flag.
pub fn mongoac_server_api_set_deprecation_errors(api: &mut ServerApiT, v: bool)
    ensures
        *final(api) == (ServerApiT { deprecation_errors: Some(v), ..*old(api) }),
{
    api.deprecation_errors = Some(v);
}

} // verus!
