//! BSON documents as the C API passes them: a non-owning view and an owning
//! buffer, each of which may be absent (a null pointer in C).

use crate::error::ErrorT;
use vstd::slice::slice_to_vec;
use mongodb::bson::{Document, RawDocumentBuf};
use vstd::prelude::*;

verus! {

#[verifier::external_type_specification]
#[verifier::external_body]
pub struct ExRawDocumentBuf(mongodb::bson::RawDocumentBuf);

/// The bytes of the smallest BSON document: a length of 5 and the terminator.
pub open spec fn empty_doc_bytes() -> Seq<u8> {
    seq![5u8, 0u8, 0u8, 0u8, 0u8]
}

/// The little-endian `i32` stored in the first four bytes.
pub open spec fn le_i32_prefix(b: Seq<u8>) -> i32 {
    (b[0] as int + b[1] as int * 0x100 + b[2] as int * 0x10000 + b[3] as int * 0x1000000) as i32
}

/// The little-endian `u32` stored in the first four bytes.
pub open spec fn le_u32_prefix(b: Seq<u8>) -> nat {
    (b[0] as int + b[1] as int * 0x100 + b[2] as int * 0x10000 + b[3] as int * 0x1000000) as nat
}

/// What `RawDocument::from_bytes` checks of a byte string: at least five bytes,
/// a length prefix equal to the length, and a final zero byte.
pub open spec fn is_framed_document(b: Seq<u8>) -> bool {
    &&& b.len() >= 5
    &&& le_i32_prefix(b) == (b.len() as i32)
    &&& b[b.len() - 1] == 0
}

/// Calls `RawDocumentBuf::from_bytes`, which accepts exactly the byte strings of
/// at least five bytes whose little-endian `i32` length prefix equals their
/// length and whose last byte is zero; the elements are not checked. On success
/// the buffer holds the given bytes, which `document_bytes` hands back.
#[verifier::external_body]
fn raw_document_from_bytes(bytes: Vec<u8>) -> (r: Result<RawDocumentBuf, mongodb::bson::error::Error>)
    ensures
        r is Ok <==> is_framed_document(bytes@),
        r matches Ok(d) ==> raw_document_bytes(d) == bytes@,
{
    RawDocumentBuf::from_bytes(bytes)
}

/// The bytes that a raw document holds.
pub uninterp spec fn raw_document_bytes(d: RawDocumentBuf) -> Seq<u8>;

/// Calls `RawDocumentBuf::as_bytes` and copies the result.
#[verifier::external_body]
pub(crate) fn document_bytes(d: &RawDocumentBuf) -> (r: Vec<u8>)
    ensures
        r@ == raw_document_bytes(*d),
{
    d.as_bytes().to_vec()
}

#[verifier::external_type_specification]
#[verifier::external_body]
pub struct ExDocument(mongodb::bson::Document);

/// The document `Document::from_reader` reads from the bytes, or `None` where
/// it fails.
pub uninterp spec fn document_read(bytes: Seq<u8>) -> Option<Document>;

/// The document `bson::deserialize_from_slice::<Document>` gives for the
/// bytes, or `None` where it fails.
pub uninterp spec fn document_deserialized(bytes: Seq<u8>) -> Option<Document>;

/// Whether `Document::from_reader` reads the bytes as a document.
pub open spec fn document_reads(bytes: Seq<u8>) -> bool {
    document_read(bytes) is Some
}

/// Whether `bson::deserialize_from_slice::<Document>` reads the bytes as a
/// document.
pub open spec fn document_deserializes(bytes: Seq<u8>) -> bool {
    document_deserialized(bytes) is Some
}

/// Calls `Document::from_reader` on the bytes, which parses a whole BSON
/// document. What it gives is a function of the bytes alone (the document keeps
/// the elements in the order the bytes hold them), named `document_read`; the
/// five bytes of the empty document read as a document with no keys.
#[verifier::external_body]
pub(crate) fn read_document(bytes: &[u8]) -> (r: Result<Document, mongodb::bson::error::Error>)
    ensures
        r is Ok <==> document_read(bytes@) is Some,
        r matches Ok(d) ==> document_read(bytes@) == Some(d),
        bytes@ == empty_doc_bytes() ==> r is Ok,
        r matches Ok(d) ==> (bytes@ == empty_doc_bytes() ==> crate::document::document_keys(d).len() == 0),
{
    Document::from_reader(bytes)
}

/// Calls `bson::deserialize_from_slice::<Document>`, which deserializes a whole
/// BSON document. What it gives is a function of the bytes alone, named
/// `document_deserialized`.
#[verifier::external_body]
fn deserialize_document(bytes: &[u8]) -> (r: Result<Document, mongodb::bson::error::Error>)
    ensures
        r is Ok <==> document_deserialized(bytes@) is Some,
        r matches Ok(d) ==> document_deserialized(bytes@) == Some(d),
{
    mongodb::bson::deserialize_from_slice::<Document>(bytes)
}

/// Checks the framing of a BSON document: at least five bytes, a length prefix
/// equal to the length, and a final zero byte.
pub fn is_framed(bytes: &[u8]) -> (r: bool)
    ensures
        r == is_framed_document(bytes@),
{
    if bytes.len() < 5 {
        return false;
    }
    let prefix: i64 = bytes[0] as i64 + bytes[1] as i64 * 0x100 + bytes[2] as i64 * 0x10000
        + bytes[3] as i64 * 0x1000000;
    let len_i32 = bytes.len() as i32;
    (prefix as i32) == len_i32 && bytes[bytes.len() - 1] == 0
}

/// A non-owning view of a BSON document; `None` stands for a null pointer.
#[derive(Debug)]
pub struct BsonViewT {
    pub data: Option<Vec<u8>>,
}

/// An owning BSON document buffer; `None` stands for a null pointer.
#[derive(Debug)]
pub struct BsonT {
    pub data: Option<Vec<u8>>,
}

impl BsonViewT {
    /// A copy of the view.
    pub fn duplicate(&self) -> (r: Self)
        ensures
            r.data is Some == self.data is Some,
            r.spec_bytes() == self.spec_bytes(),
    {
        BsonViewT { data: match &self.data { Some(b) => Some(b.clone()), None => None } }
    }

    /// The view of the empty document `{}`.
    pub fn empty_doc() -> (r: Self)
        ensures
            r.data matches Some(b) && b@ == empty_doc_bytes(),
    {
        let mut v: Vec<u8> = Vec::new();
        v.push(5u8);
        v.push(0u8);
        v.push(0u8);
        v.push(0u8);
        v.push(0u8);
        assert(v@ =~= empty_doc_bytes());
        BsonViewT { data: Some(v) }
    }

    /// The viewed bytes; none when the view is null.
    pub open spec fn spec_bytes(&self) -> Seq<u8> {
        match self.data {
            Some(b) => b@,
            None => Seq::empty(),
        }
    }

    /// The viewed bytes; empty when the view is null.
    pub fn as_bytes(&self) -> (r: &[u8])
        ensures
            r@ == self.spec_bytes(),
    {
        match &self.data {
            Some(b) => b.as_slice(),
            None => &[],
        }
    }

    /// The view of a raw document's bytes.
    pub fn from_raw_document(doc: &RawDocumentBuf) -> (r: Self)
        ensures
            r.data matches Some(b) && b@ == raw_document_bytes(*doc),
    {
        BsonViewT { data: Some(document_bytes(doc)) }
    }

    /// Copies the viewed bytes into a raw document, which succeeds exactly when
    /// they are a framed document (see `is_framed_document`).
    pub fn to_raw_document(&self) -> (r: Result<RawDocumentBuf, ErrorT>)
        ensures
            r is Ok <==> is_framed_document(self.spec_bytes()),
            r matches Ok(d) ==> raw_document_bytes(d) == self.spec_bytes(),
            r matches Err(e) ==> e is Bson,
    {
        let bytes = slice_to_vec(self.as_bytes());
        match raw_document_from_bytes(bytes) {
            Ok(d) => Ok(d),
            Err(e) => Err(ErrorT::from_bson_error(e)),
        }
    }
}

/// The document given by an optional view: none for a null view, otherwise the
/// document read from its bytes (as the conversion `Document::try_from(&view)`
/// reads it), or the BSON error.
pub fn optional_document(v: &BsonViewT) -> (r: Result<Option<Document>, ErrorT>)
    ensures
        v.data is None ==> r matches Ok(None),
        v.data is Some ==> (r is Ok <==> document_reads(v.spec_bytes())),
        v.data is Some ==> (r matches Ok(d) ==> d is Some),
        v.data is Some ==> (r matches Ok(Some(d)) ==> document_read(v.spec_bytes()) == Some(d)),
        r matches Err(e) ==> e is Bson,
{
    match &v.data {
        None => Ok(None),
        Some(b) => match read_document(b.as_slice()) {
            Ok(d) => Ok(Some(d)),
            Err(e) => Err(ErrorT::from_bson_error(e)),
        },
    }
}

/// The bytes a filter view stands for: those of the empty document `{}` for a
/// null view, its own otherwise.
pub open spec fn filter_bytes(v: BsonViewT) -> Seq<u8> {
    if v.data is None {
        empty_doc_bytes()
    } else {
        v.spec_bytes()
    }
}

/// The filter document an operation is given: a null view stands for the
/// empty filter `{}`; otherwise the document read from its bytes, or the BSON
/// error.
pub fn filter_document(v: &BsonViewT) -> (r: Result<Document, ErrorT>)
    ensures
        r is Ok <==> document_reads(filter_bytes(*v)),
        r matches Ok(d) ==> document_read(filter_bytes(*v)) == Some(d),
        v.data is None ==> (r matches Ok(d) && crate::document::document_keys(d).len() == 0),
        r matches Err(e) ==> e is Bson,
{
    let empty = BsonViewT::empty_doc();
    let bytes: &[u8] = match &v.data {
        None => empty.as_bytes(),
        Some(b) => b.as_slice(),
    };
    match read_document(bytes) {
        Ok(d) => Ok(d),
        Err(e) => Err(ErrorT::from_bson_error(e)),
    }
}

/// A null filter is the empty filter: a null view and a view of the empty
/// document's bytes stand for the same bytes, so `filter_document` gives the
/// same document, or the same failure, for both.
pub proof fn lemma_null_filter_is_empty_filter(empty: BsonViewT)
    requires
        empty.data matches Some(b) && b@ == empty_doc_bytes(),
    ensures
        filter_bytes(BsonViewT { data: None }) == filter_bytes(empty),
{
}

/// The options document given by an optional view: none for a null view,
/// otherwise the deserialized document, or the BSON error.
pub fn optional_options_document(v: &BsonViewT) -> (r: Result<Option<Document>, ErrorT>)
    ensures
        v.data is None ==> r matches Ok(None),
        v.data is Some ==> (r is Ok <==> document_deserializes(v.spec_bytes())),
        v.data is Some ==> (r matches Ok(d) ==> d is Some),
        v.data is Some ==> (r matches Ok(Some(d)) ==> document_deserialized(v.spec_bytes()) == Some(d)),
        r matches Err(e) ==> e is Bson,
{
    match &v.data {
        None => Ok(None),
        Some(b) => match deserialize_document(b.as_slice()) {
            Ok(d) => Ok(Some(d)),
            Err(e) => Err(ErrorT::from_bson_error(e)),
        },
    }
}

impl Default for BsonViewT {
    fn default() -> (r: Self)
        ensures
            r.data is None,
    {
        BsonViewT { data: None }
    }
}

impl BsonT {
    /// The owned bytes; none when the buffer is null.
    pub open spec fn spec_bytes(&self) -> Seq<u8> {
        match self.data {
            Some(b) => b@,
            None => Seq::empty(),
        }
    }

    /// The owned bytes; empty when the buffer is null.
    pub fn as_bytes(&self) -> (r: &[u8])
        ensures
            r@ == self.spec_bytes(),
    {
        match &self.data {
            Some(b) => b.as_slice(),
            None => &[],
        }
    }

    /// Takes ownership of a raw document's bytes.
    pub fn from_raw_document(doc: &RawDocumentBuf) -> (r: Self)
        ensures
            r.data matches Some(b) && b@ == raw_document_bytes(*doc),
    {
        BsonT { data: Some(document_bytes(doc)) }
    }

    /// Takes ownership of the given bytes.
    pub fn from_vec(bytes: Vec<u8>) -> (r: Self)
        ensures
            r.data == Some(bytes),
    {
        BsonT { data: Some(bytes) }
    }
}

impl Default for BsonT {
    fn default() -> (r: Self)
        ensures
            r.data is None,
    {
        BsonT { data: None }
    }
}

/// The empty document's bytes are a framed document.
pub proof fn lemma_empty_doc_is_framed()
    ensures
        is_framed_document(empty_doc_bytes()),
{
    assert(le_i32_prefix(empty_doc_bytes()) == 5);
}

} // verus!
