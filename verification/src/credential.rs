//! Authentication credentials of a client.

use crate::bson::{optional_options_document, document_deserialized, document_deserializes, BsonViewT};
use crate::error::{ErrorCodeT, ErrorT};
use crate::text::{i32_to_string, signed_decimal};
use crate::tls_options::{clone_opt_string, opt_str_to_string, opt_view};
use mongodb::bson::Document;
use vstd::prelude::*;
use vstd::std_specs::convert::FromSpecImpl;

verus! {

#[allow(non_camel_case_types)]
pub type mongoac_auth_mechanism_t = i32;

pub const MONGOAC_AUTH_MECHANISM_SCRAM_SHA_1: mongoac_auth_mechanism_t = 0;

pub const MONGOAC_AUTH_MECHANISM_SCRAM_SHA_256: mongoac_auth_mechanism_t = 1;

pub const MONGOAC_AUTH_MECHANISM_MONGODB_X509: mongoac_auth_mechanism_t = 2;

pub const MONGOAC_AUTH_MECHANISM_PLAIN: mongoac_auth_mechanism_t = 3;

pub const MONGOAC_AUTH_MECHANISM_MONGODB_AWS: mongoac_auth_mechanism_t = 4;

pub const MONGOAC_AUTH_MECHANISM_MONGODB_OIDC: mongoac_auth_mechanism_t = 5;

/// An authentication mechanism; other values are carried as `Unknown`.
#[derive(Debug, Clone, Copy, PartialEq, Eq, Structural)]
pub enum AuthMechanismT {
    ScramSha1,
    ScramSha256,
    MongoDbX509,
    Plain,
    MongoDbAws,
    MongoDbOidc,
    Unknown(i32),
}

/// The mechanism that an integer names.
pub open spec fn auth_mechanism_from_i32(v: i32) -> AuthMechanismT {
    if v == 0 {
        AuthMechanismT::ScramSha1
    } else if v == 1 {
        AuthMechanismT::ScramSha256
    } else if v == 2 {
        AuthMechanismT::MongoDbX509
    } else if v == 3 {
        AuthMechanismT::Plain
    } else if v == 4 {
        AuthMechanismT::MongoDbAws
    } else if v == 5 {
        AuthMechanismT::MongoDbOidc
    } else {
        AuthMechanismT::Unknown(v)
    }
}

/// The integer that a mechanism stands for.
pub open spec fn auth_mechanism_to_i32(m: AuthMechanismT) -> i32 {
    match m {
        AuthMechanismT::ScramSha1 => 0,
        AuthMechanismT::ScramSha256 => 1,
        AuthMechanismT::MongoDbX509 => 2,
        AuthMechanismT::Plain => 3,
        AuthMechanismT::MongoDbAws => 4,
        AuthMechanismT::MongoDbOidc => 5,
        AuthMechanismT::Unknown(v) => v,
    }
}

impl From<i32> for AuthMechanismT {
    fn from(v: i32) -> (r: Self) {
        if v == MONGOAC_AUTH_MECHANISM_SCRAM_SHA_1 {
            AuthMechanismT::ScramSha1
        } else if v == MONGOAC_AUTH_MECHANISM_SCRAM_SHA_256 {
            AuthMechanismT::ScramSha256
        } else if v == MONGOAC_AUTH_MECHANISM_MONGODB_X509 {
            AuthMechanismT::MongoDbX509
        } else if v == MONGOAC_AUTH_MECHANISM_PLAIN {
            AuthMechanismT::Plain
        } else if v == MONGOAC_AUTH_MECHANISM_MONGODB_AWS {
            AuthMechanismT::MongoDbAws
        } else if v == MONGOAC_AUTH_MECHANISM_MONGODB_OIDC {
            AuthMechanismT::MongoDbOidc
        } else {
            AuthMechanismT::Unknown(v)
        }
    }
}

impl FromSpecImpl<i32> for AuthMechanismT {
    open spec fn obeys_from_spec() -> bool {
        true
    }

    open spec fn from_spec(v: i32) -> Self {
        auth_mechanism_from_i32(v)
    }
}

impl From<AuthMechanismT> for i32 {
    fn from(m: AuthMechanismT) -> (r: i32) {
        match m {
            AuthMechanismT::ScramSha1 => MONGOAC_AUTH_MECHANISM_SCRAM_SHA_1,
            AuthMechanismT::ScramSha256 => MONGOAC_AUTH_MECHANISM_SCRAM_SHA_256,
            AuthMechanismT::MongoDbX509 => MONGOAC_AUTH_MECHANISM_MONGODB_X509,
            AuthMechanismT::Plain => MONGOAC_AUTH_MECHANISM_PLAIN,
            AuthMechanismT::MongoDbAws => MONGOAC_AUTH_MECHANISM_MONGODB_AWS,
            AuthMechanismT::MongoDbOidc => MONGOAC_AUTH_MECHANISM_MONGODB_OIDC,
            AuthMechanismT::Unknown(v) => v,
        }
    }
}

impl FromSpecImpl<AuthMechanismT> for i32 {
    open spec fn obeys_from_spec() -> bool {
        true
    }

    open spec fn from_spec(m: AuthMechanismT) -> i32 {
        auth_mechanism_to_i32(m)
    }
}

/// "unknown mongoac_auth_mechanism_t: <v>".
pub open spec fn unknown_mechanism_message(v: i32) -> Seq<char> {
    "unknown mongoac_auth_mechanism_t: "@ + signed_decimal(v as int)
}

/// Checks that a mechanism is one the driver knows; an unknown value is an
/// invalid argument that names it.
pub fn check_auth_mechanism(m: AuthMechanismT) -> (r: Result<AuthMechanismT, ErrorT>)
    ensures
        !(m is Unknown) ==> r == Ok::<AuthMechanismT, ErrorT>(m),
        m matches AuthMechanismT::Unknown(v) ==> (r matches Err(e) && e.is_mongoac(
            ErrorCodeT::InvalidArgument,
            unknown_mechanism_message(v),
        )),
{
    match m {
        AuthMechanismT::Unknown(v) => {
            let msg = String::from_str("unknown mongoac_auth_mechanism_t: ").concat(
                i32_to_string(v).as_str(),
            );
            Err(ErrorT::from_mongoac(ErrorCodeT::InvalidArgument, msg.as_str()))
        },
        _ => Ok(m),
    }
}

/// A credential; the mechanism, when set, is always a known one.
#[derive(Debug)]
pub struct CredentialT {
    pub username: Option<String>,
    pub source: Option<String>,
    pub password: Option<String>,
    pub mechanism: Option<AuthMechanismT>,
    pub mechanism_properties: Option<Document>,
}

/// Calls `Document::clone`, which copies every key and value in order. Verus
/// sees a document only as an opaque value, so the copy is stated as the same value.
#[verifier::external_body]
fn clone_document(d: &Document) -> (r: Document)
    ensures
        r == *d,
{
    d.clone()
}

impl CredentialT {
    /// Whether two credentials hold the same values.
    pub open spec fn same_as(&self, other: &Self) -> bool {
        &&& opt_view(self.username) == opt_view(other.username)
        &&& opt_view(self.source) == opt_view(other.source)
        &&& opt_view(self.password) == opt_view(other.password)
        &&& self.mechanism == other.mechanism
        &&& self.mechanism_properties == other.mechanism_properties
    }

    /// A copy of the credential.
    pub fn duplicate(&self) -> (r: Self)
        ensures
            r.same_as(self),
    {
        CredentialT {
            username: clone_opt_string(&self.username),
            source: clone_opt_string(&self.source),
            password: clone_opt_string(&self.password),
            mechanism: self.mechanism,
            mechanism_properties: match &self.mechanism_properties {
                Some(d) => Some(clone_document(d)),
                None => None,
            },
        }
    }
}

/// The text of an optional string slice.
pub open spec fn opt_str_view(s: Option<&str>) -> Option<Seq<char>> {
    match s {
        Some(v) => Some(v@),
        None => None,
    }
}

/// A new credential with every field unset.
pub fn mongoac_credential_new() -> (r: CredentialT)
    ensures
        r.username is None,
        r.source is None,
        r.password is None,
        r.mechanism is None,
        r.mechanism_properties is None,
{
    CredentialT { username: None, source: None, password: None, mechanism: None, mechanism_properties: None }
}

/// Sets (or, with `None`, clears) the user name.
pub fn mongoac_credential_set_username(cred: &mut CredentialT, v: Option<&str>)
    ensures
        opt_view(final(cred).username) == opt_str_view(v),
        final(cred).source == old(cred).source,
        final(cred).password == old(cred).password,
        final(cred).mechanism == old(cred).mechanism,
        final(cred).mechanism_properties == old(cred).mechanism_properties,
{
    cred.username = opt_str_to_string(v);
}

/// Sets (or, with `None`, clears) the authentication source.
pub fn mongoac_credential_set_source(cred: &mut CredentialT, v: Option<&str>)
    ensures
        opt_view(final(cred).source) == opt_str_view(v),
        final(cred).username == old(cred).username,
        final(cred).password == old(cred).password,
        final(cred).mechanism == old(cred).mechanism,
        final(cred).mechanism_properties == old(cred).mechanism_properties,
{
    cred.source = opt_str_to_string(v);
}

/// Sets (or, with `None`, clears) the password.
pub fn mongoac_credential_set_password(cred: &mut CredentialT, v: Option<&str>)
    ensures
        opt_view(final(cred).password) == opt_str_view(v),
        final(cred).username == old(cred).username,
        final(cred).source == old(cred).source,
        final(cred).mechanism == old(cred).mechanism,
        final(cred).mechanism_properties == old(cred).mechanism_properties,
{
    cred.password = opt_str_to_string(v);
}

/// Sets the mechanism by its number; an unknown number is refused and the
/// credential stays as it is.
pub fn mongoac_credential_set_mechanism(cred: &mut CredentialT, v: mongoac_auth_mechanism_t) -> (r: Result<(), ErrorT>)
    ensures
        r is Ok <==> 0 <= v <= 5,
        r is Ok ==> final(cred).mechanism == Some(auth_mechanism_from_i32(v)),
        r matches Err(e) ==> e.is_mongoac(ErrorCodeT::InvalidArgument, unknown_mechanism_message(v))
            && final(cred).mechanism == old(cred).mechanism,
        final(cred).username == old(cred).username,
        final(cred).source == old(cred).source,
        final(cred).password == old(cred).password,
        final(cred).mechanism_properties == old(cred).mechanism_properties,
{
    let m = check_auth_mechanism(AuthMechanismT::from(v))?;
    cred.mechanism = Some(m);
    Ok(())
}

/// Sets (or, with a null view, clears) the mechanism properties, a BSON
/// document; a document that does not deserialize is refused and the credential
/// stays as it is.
pub fn mongoac_credential_set_mechanism_properties(cred: &mut CredentialT, v: &BsonViewT) -> (r: Result<(), ErrorT>)
    ensures
        v.data is None ==> r is Ok && final(cred).mechanism_properties is None,
        v.data is Some ==> (r is Ok <==> document_deserializes(v.spec_bytes())),
        v.data is Some && r is Ok ==> final(cred).mechanism_properties is Some,
        v.data is Some && r is Ok ==> final(cred).mechanism_properties == document_deserialized(v.spec_bytes()),
        r matches Err(e) ==> e is Bson && final(cred).mechanism_properties == old(
            cred,
        ).mechanism_properties,
        final(cred).username == old(cred).username,
        final(cred).source == old(cred).source,
        final(cred).password == old(cred).password,
        final(cred).mechanism == old(cred).mechanism,
{
    let props = optional_options_document(v)?;
    cred.mechanism_properties = props;
    Ok(())
}

/// Every integer survives the trip through `AuthMechanismT` unchanged.
pub proof fn lemma_auth_mechanism_i32_round_trip(v: i32)
    ensures
        auth_mechanism_to_i32(auth_mechanism_from_i32(v)) == v,
{
}

/// Each named mechanism is the integer of the C API: SCRAM-SHA-1 0,
/// SCRAM-SHA-256 1, MONGODB-X509 2, PLAIN 3, MONGODB-AWS 4, MONGODB-OIDC 5, both
/// ways.
pub proof fn lemma_auth_mechanisms_are_the_c_constants()
    ensures
        MONGOAC_AUTH_MECHANISM_SCRAM_SHA_1 == 0,
        auth_mechanism_to_i32(AuthMechanismT::ScramSha1) == 0,
        auth_mechanism_from_i32(0) == AuthMechanismT::ScramSha1,
        MONGOAC_AUTH_MECHANISM_SCRAM_SHA_256 == 1,
        auth_mechanism_to_i32(AuthMechanismT::ScramSha256) == 1,
        auth_mechanism_from_i32(1) == AuthMechanismT::ScramSha256,
        MONGOAC_AUTH_MECHANISM_MONGODB_X509 == 2,
        auth_mechanism_to_i32(AuthMechanismT::MongoDbX509) == 2,
        auth_mechanism_from_i32(2) == AuthMechanismT::MongoDbX509,
        MONGOAC_AUTH_MECHANISM_PLAIN == 3,
        auth_mechanism_to_i32(AuthMechanismT::Plain) == 3,
        auth_mechanism_from_i32(3) == AuthMechanismT::Plain,
        MONGOAC_AUTH_MECHANISM_MONGODB_AWS == 4,
        auth_mechanism_to_i32(AuthMechanismT::MongoDbAws) == 4,
        auth_mechanism_from_i32(4) == AuthMechanismT::MongoDbAws,
        MONGOAC_AUTH_MECHANISM_MONGODB_OIDC == 5,
        auth_mechanism_to_i32(AuthMechanismT::MongoDbOidc) == 5,
        auth_mechanism_from_i32(5) == AuthMechanismT::MongoDbOidc,
{
}

} // verus!
