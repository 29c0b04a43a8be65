//! Strings as the C API passes them: a non-owning view and an owning buffer of
//! bytes, each of which may be absent (a null pointer in C).

use crate::error::{ErrorCodeT, ErrorT};
use std::str::Utf8Error;
use vstd::prelude::*;
use vstd::utf8::{decode_utf8, valid_utf8};
use vstd::string::StringSliceAdditionalSpecFns;

verus! {

#[verifier::external_type_specification]
#[verifier::external_body]
pub struct ExUtf8Error(Utf8Error);

/// Calls `std::str::from_utf8`, which accepts exactly the valid UTF-8 byte
/// strings and then views them as the characters they encode.
#[verifier::external_body]
fn utf8_decode(bytes: &[u8]) -> (r: Result<&str, Utf8Error>)
    ensures
        r is Ok <==> valid_utf8(bytes@),
        r matches Ok(s) ==> s@ == decode_utf8(bytes@),
{
    std::str::from_utf8(bytes)
}

/// Renders a UTF-8 error with its `Display` impl. Nothing is claimed of the text.
#[verifier::external_body]
fn utf8_error_text(e: &Utf8Error) -> (r: String) {
    e.to_string()
}

/// A non-owning view of a string's bytes; `None` stands for a null pointer.
#[derive(Debug)]
pub struct StringViewT {
    pub data: Option<Vec<u8>>,
}

/// An owning buffer of a string's bytes; `None` stands for a null pointer.
#[derive(Debug)]
pub struct StringT {
    pub data: Option<Vec<u8>>,
}

/// The bytes of an optional buffer; none for a null pointer.
pub open spec fn opt_bytes(data: Option<Vec<u8>>) -> Seq<u8> {
    match data {
        Some(b) => b@,
        None => Seq::empty(),
    }
}

/// Decodes bytes as UTF-8, reporting invalid bytes as an invalid argument.
fn decode(bytes: &[u8]) -> (r: Result<String, ErrorT>)
    ensures
        r is Ok <==> valid_utf8(bytes@),
        r matches Ok(s) ==> s@ == decode_utf8(bytes@),
        r matches Err(e) ==> e.spec_category() == crate::error::ErrorCategoryT::MongoAC
            && e.spec_code() == ErrorCodeT::InvalidArgument,
{
    match utf8_decode(bytes) {
        Ok(s) => Ok(String::from_str(s)),
        Err(e) => {
            let text = utf8_error_text(&e);
            Err(ErrorT::from_mongoac(ErrorCodeT::InvalidArgument, text.as_str()))
        },
    }
}

impl StringViewT {
    /// The viewed bytes; empty for a null view.
    pub fn as_bytes(&self) -> (r: &[u8])
        ensures
            r@ == opt_bytes(self.data),
    {
        match &self.data {
            Some(b) => b.as_slice(),
            None => &[],
        }
    }

    /// The viewed text; fails with an invalid argument when the bytes are not
    /// valid UTF-8. A null view reads as the empty string.
    pub fn to_string_checked(&self) -> (r: Result<String, ErrorT>)
        ensures
            r is Ok <==> valid_utf8(opt_bytes(self.data)),
            r matches Ok(s) ==> s@ == decode_utf8(opt_bytes(self.data)),
            r matches Err(e) ==> e.spec_code() == ErrorCodeT::InvalidArgument,
    {
        decode(self.as_bytes())
    }

    /// A view of a string's bytes.
    pub fn from_str(s: &str) -> (r: Self)
        ensures
            r.data matches Some(b) && b@ == s.spec_bytes(),
    {
        StringViewT { data: Some(vstd::slice::slice_to_vec(s.as_bytes())) }
    }
}

impl Default for StringViewT {
    fn default() -> (r: Self)
        ensures
            r.data is None,
    {
        StringViewT { data: None }
    }
}

impl StringT {
    /// The owned bytes; empty for a null buffer.
    pub fn as_bytes(&self) -> (r: &[u8])
        ensures
            r@ == opt_bytes(self.data),
    {
        match &self.data {
            Some(b) => b.as_slice(),
            None => &[],
        }
    }

    /// The owned text; fails with an invalid argument when the bytes are not
    /// valid UTF-8.
    pub fn to_string_checked(&self) -> (r: Result<String, ErrorT>)
        ensures
            r is Ok <==> valid_utf8(opt_bytes(self.data)),
            r matches Ok(s) ==> s@ == decode_utf8(opt_bytes(self.data)),
            r matches Err(e) ==> e.spec_code() == ErrorCodeT::InvalidArgument,
    {
        decode(self.as_bytes())
    }

    /// An owning copy of a string's bytes.
    pub fn from_str(s: &str) -> (r: Self)
        ensures
            r.data matches Some(b) && b@ == s.spec_bytes(),
    {
        StringT { data: Some(vstd::slice::slice_to_vec(s.as_bytes())) }
    }
}

impl Default for StringT {
    fn default() -> (r: Self)
        ensures
            r.data is None,
    {
        StringT { data: None }
    }
}

/// Text that goes through a view and back is unchanged.
pub proof fn lemma_view_round_trip(s: Seq<char>)
    ensures
        valid_utf8(vstd::utf8::encode_utf8(s)),
        decode_utf8(vstd::utf8::encode_utf8(s)) == s,
{
    vstd::utf8::encode_utf8_valid_utf8(s);
    vstd::utf8::encode_utf8_decode_utf8(s);
}

} // verus!
