//! TLS settings of a client.

use vstd::prelude::*;

verus! {

/// TLS settings; unset fields keep the driver's defaults.
#[derive(Debug)]
pub struct TlsOptionsT {
    pub allow_invalid_certificates: Option<bool>,
    pub ca_file_path: Option<String>,
    pub cert_key_file_path: Option<String>,
}

impl TlsOptionsT {
    /// Whether two TLS settings hold the same values.
    pub open spec fn same_as(&self, other: &Self) -> bool {
        &&& self.allow_invalid_certificates == other.allow_invalid_certificates
        &&& opt_view(self.ca_file_path) == opt_view(other.ca_file_path)
        &&& opt_view(self.cert_key_file_path) == opt_view(other.cert_key_file_path)
    }

    /// A copy of the settings.
    pub fn duplicate(&self) -> (r: Self)
        ensures
            r.same_as(self),
    {
        TlsOptionsT {
            allow_invalid_certificates: self.allow_invalid_certificates,
            ca_file_path: clone_opt_string(&self.ca_file_path),
            cert_key_file_path: clone_opt_string(&self.cert_key_file_path),
        }
    }
}

/// The path held by an optional string, by content.
pub open spec fn opt_view(s: Option<String>) -> Option<Seq<char>> {
    match s {
        Some(v) => Some(v@),
        None => None,
    }
}

/// Copies an optional string.
pub fn clone_opt_string(s: &Option<String>) -> (r: Option<String>)
    ensures
        opt_view(r) == opt_view(*s),
{
    match s {
        Some(v) => Some(v.clone()),
        None => None,
    }
}

/// An optional string copied from an optional string slice.
pub fn opt_str_to_string(s: Option<&str>) -> (r: Option<String>)
    ensures
        opt_view(r) == match s {
            Some(v) => Some(v@),
            None => None::<Seq<char>>,
        },
{
    match s {
        Some(v) => Some(String::from_str(v)),
        None => None,
    }
}

/// A new set of TLS settings, all unset.
pub fn mongoac_tls_options_new() -> (r: TlsOptionsT)
    ensures
        r.allow_invalid_certificates is None,
        r.ca_file_path is None,
        r.cert_key_file_path is None,
{
    TlsOptionsT { allow_invalid_certificates: None, ca_file_path: None, cert_key_file_path: None }
}

/// Allows or forbids invalid certificates.
pub fn mongoac_tls_options_set_allow_invalid_certificates(opts: &mut TlsOptionsT, v: bool)
    ensures
        final(opts).allow_invalid_certificates == Some(v),
        final(opts).ca_file_path == old(opts).ca_file_path,
        final(opts).cert_key_file_path == old(opts).cert_key_file_path,
{
    opts.allow_invalid_certificates = Some(v);
}

/// Sets (or, with `None`, clears) the CA file path.
pub fn mongoac_tls_options_set_ca_file_path(opts: &mut TlsOptionsT, v: Option<&str>)
    ensures
        opt_view(final(opts).ca_file_path) == match v {
            Some(p) => Some(p@),
            None => None::<Seq<char>>,
        },
        final(opts).allow_invalid_certificates == old(opts).allow_invalid_certificates,
        final(opts).cert_key_file_path == old(opts).cert_key_file_path,
{
    opts.ca_file_path = opt_str_to_string(v);
}

/// Sets (or, with `None`, clears) the certificate-key file path.
pub fn mongoac_tls_options_set_cert_key_file_path(opts: &mut TlsOptionsT, v: Option<&str>)
    ensures
        opt_view(final(opts).cert_key_file_path) == match v {
            Some(p) => Some(p@),
            None => None::<Seq<char>>,
        },
        final(opts).allow_invalid_certificates == old(opts).allow_invalid_certificates,
        final(opts).ca_file_path == old(opts).ca_file_path,
{
    opts.cert_key_file_path = opt_str_to_string(v);
}

} // verus!
