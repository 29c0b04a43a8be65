//! The C library's `bson_t`, as the library reads it: a buffer whose first four
//! bytes hold the document's length (a library-wide precondition).

use crate::bson::{document_read, document_reads, is_framed, is_framed_document, le_u32_prefix, read_document};
use mongodb::bson::Document;
use crate::error::{ErrorCodeT, ErrorT};
use vstd::prelude::*;
use vstd::slice::slice_to_vec;

verus! {

/// The data of a C `bson_t`.
#[allow(non_camel_case_types)]
#[derive(Debug)]
pub struct bson_t {
    pub data: Vec<u8>,
}

/// An owning handle to a `bson_t`.
#[derive(Debug)]
pub struct BsonT(pub bson_t);

/// A read-only, non-owning handle to a `bson_t`.
#[derive(Debug)]
pub struct ConstBsonT(pub bson_t);

/// Whether the data holds a length prefix that fits in it.
pub open spec fn has_valid_length(data: Seq<u8>) -> bool {
    data.len() >= 4 && le_u32_prefix(data) <= data.len()
}

/// The document bytes: as many as the length prefix says.
pub open spec fn prefixed_bytes(data: Seq<u8>) -> Seq<u8> {
    data.subrange(0, le_u32_prefix(data) as int)
}

impl bson_t {
    /// The document's bytes, as many as its length prefix says.
    pub fn as_bytes(&self) -> (r: &[u8])
        requires
            has_valid_length(self.data@),
        ensures
            r@ == prefixed_bytes(self.data@),
    {
        let d = self.data.as_slice();
        let len: u64 = d[0] as u64 + d[1] as u64 * 0x100 + d[2] as u64 * 0x10000 + d[3] as u64
            * 0x1000000;
        vstd::slice::slice_subrange(d, 0, len as usize)
    }
}

impl BsonT {
    /// A new `bson_t` holding a copy of the bytes; fails, as `bson_new_from_data`
    /// does, when the bytes are not a framed document.
    pub fn from_bytes(bytes: &[u8]) -> (r: Result<Self, ErrorT>)
        ensures
            r is Ok <==> is_framed_document(bytes@),
            r matches Ok(b) ==> b.0.data@ == bytes@,
            r matches Err(e) ==> e.is_mongoac(ErrorCodeT::RuntimeError, "bson_new_from_data failed"@),
    {
        if is_framed(bytes) {
            Ok(BsonT(bson_t { data: slice_to_vec(bytes) }))
        } else {
            Err(ErrorT::from_mongoac(ErrorCodeT::RuntimeError, "bson_new_from_data failed"))
        }
    }

    /// The document's bytes, as many as its length prefix says.
    pub fn as_bytes(&self) -> (r: &[u8])
        requires
            has_valid_length(self.0.data@),
        ensures
            r@ == prefixed_bytes(self.0.data@),
    {
        self.0.as_bytes()
    }

    /// Releases ownership of the underlying `bson_t`.
    pub fn into_raw(self) -> (r: bson_t)
        ensures
            r == self.0,
    {
        self.0
    }
}

impl ConstBsonT {
    /// The document's bytes, as many as its length prefix says.
    pub fn as_bytes(&self) -> (r: &[u8])
        requires
            has_valid_length(self.0.data@),
        ensures
            r@ == prefixed_bytes(self.0.data@),
    {
        self.0.as_bytes()
    }

    /// A read-only handle to the same data as an owning handle.
    pub fn from_owned(b: &BsonT) -> (r: Self)
        ensures
            r.0.data@ == b.0.data@,
    {
        ConstBsonT(bson_t { data: b.0.data.clone() })
    }
}

/// The document given by an optional `bson_t`: none for a null pointer,
/// otherwise the document read from the bytes its length prefix covers (as
/// `Document::try_from(&ConstBsonT)` reads it), or the BSON error.
pub fn optional_const_document(v: Option<&ConstBsonT>) -> (r: Result<Option<Document>, ErrorT>)
    requires
        v matches Some(b) ==> has_valid_length(b.0.data@),
    ensures
        v is None ==> r matches Ok(None),
        v matches Some(b) ==> (r is Ok <==> document_reads(prefixed_bytes(b.0.data@))),
        v is Some ==> (r matches Ok(d) ==> d is Some),
        v matches Some(b) ==> (r matches Ok(Some(d)) ==> document_read(prefixed_bytes(b.0.data@)) == Some(d)),
        r matches Err(e) ==> e is Bson,
{
    match v {
        None => Ok(None),
        Some(b) => match read_document(b.as_bytes()) {
            Ok(d) => Ok(Some(d)),
            Err(e) => Err(ErrorT::from_bson_error(e)),
        },
    }
}

} // verus!
