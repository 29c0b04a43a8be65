//! Input validation shared by the C entry points: null and UTF-8 checks, and
//! the errors that report them.

use crate::bson::{document_read, document_reads, is_framed_document, raw_document_bytes, read_document, BsonViewT};
use crate::error::{ErrorCodeT, ErrorT};
use crate::string::{opt_bytes, StringViewT};
use mongodb::bson::{Document, RawDocumentBuf};
use vstd::utf8::{decode_utf8, valid_utf8};
use crate::text::{decimal, usize_to_string};
use vstd::prelude::*;

verus! {

/// "<name>: must not be null".
pub open spec fn must_not_be_null(name: Seq<char>) -> Seq<char> {
    name + ": must not be null"@
}

/// "<name>: must be valid UTF-8".
pub open spec fn must_be_valid_utf8(name: Seq<char>) -> Seq<char> {
    name + ": must be valid UTF-8"@
}

/// "BSON array element at index <i>: must not be null".
pub open spec fn null_bson_element(i: nat) -> Seq<char> {
    "BSON array element at index "@ + decimal(i) + ": must not be null"@
}

/// Records an invalid-argument error with the given detail, when an error
/// out-parameter was given.
pub fn invalid_argument(error: Option<&mut ErrorT>, msg: &str)
    ensures
        error matches Some(e) ==> final(e).is_mongoac(ErrorCodeT::InvalidArgument, msg@),
{
    if let Some(e) = error {
        *e = ErrorT::from_mongoac(ErrorCodeT::InvalidArgument, msg);
    }
}

/// The detail reported for a null argument.
pub fn null_argument_message(name: &str) -> (r: String)
    ensures
        r@ == must_not_be_null(name@),
{
    String::from_str(name).concat(": must not be null")
}

/// The detail reported for an argument that is not valid UTF-8.
pub fn invalid_utf8_message(name: &str) -> (r: String)
    ensures
        r@ == must_be_valid_utf8(name@),
{
    String::from_str(name).concat(": must be valid UTF-8")
}

/// Validates an array of BSON views passed with a count: a null array or a
/// count of zero means there is nothing to do (`None`); otherwise every element
/// must be non-null, and the first null one is reported by its index.
pub fn bson_view_array_as_vec(views: &[BsonViewT], array_is_null: bool) -> (r: Result<Option<Vec<BsonViewT>>, ErrorT>)
    ensures
        (array_is_null || views@.len() == 0) ==> r matches Ok(None),
        !(array_is_null || views@.len() == 0) ==> (r is Ok <==> forall|i: int|
            0 <= i < views@.len() ==> (#[trigger] views@[i]).data is Some),
        !(array_is_null || views@.len() == 0) ==> (r matches Ok(o) ==> o is Some),
        r matches Ok(Some(v)) ==> v@.len() == views@.len() && forall|i: int|
            0 <= i < views@.len() ==> (#[trigger] v@[i]).spec_bytes() == views@[i].spec_bytes()
                && v@[i].data is Some,
        r matches Err(e) ==> exists|i: int|
            0 <= i < views@.len() && (#[trigger] views@[i]).data is None && (forall|j: int|
                0 <= j < i ==> (#[trigger] views@[j]).data is Some) && e.is_mongoac(
                ErrorCodeT::InvalidArgument,
                null_bson_element(i as nat),
            ),
{
    if array_is_null || views.len() == 0 {
        return Ok(None);
    }
    let mut out: Vec<BsonViewT> = Vec::new();
    let mut i: usize = 0;
    while i < views.len()
        invariant
            !array_is_null,
            views@.len() > 0,
            i <= views@.len(),
            out@.len() == i,
            forall|j: int| 0 <= j < i ==> (#[trigger] views@[j]).data is Some,
            forall|j: int|
                0 <= j < i ==> (#[trigger] out@[j]).spec_bytes() == views@[j].spec_bytes()
                    && out@[j].data is Some,
        decreases views@.len() - i,
    {
        if views[i].data.is_none() {
            let msg = String::from_str("BSON array element at index ").concat(
                usize_to_string(i).as_str(),
            ).concat(": must not be null");
            let e = ErrorT::from_mongoac(ErrorCodeT::InvalidArgument, msg.as_str());
            assert(views@[i as int].data is None);
            assert(e.is_mongoac(ErrorCodeT::InvalidArgument, null_bson_element(i as nat)));
            return Err(e);
        }
        out.push(views[i].duplicate());
        i = i + 1;
    }
    Ok(Some(out))
}

/// The text of a view that must not be null: a null view is an invalid
/// argument named after the parameter, and bytes that are not UTF-8 are an
/// invalid argument too.
pub fn required_text(view: &StringViewT, name: &str) -> (r: Result<String, ErrorT>)
    ensures
        view.data is None ==> (r matches Err(e) && e.is_mongoac(
            ErrorCodeT::InvalidArgument,
            must_not_be_null(name@),
        )),
        view.data is Some ==> (r is Ok <==> valid_utf8(opt_bytes(view.data))),
        r matches Ok(s) ==> s@ == decode_utf8(opt_bytes(view.data)),
        r matches Err(e) ==> e.spec_code() == ErrorCodeT::InvalidArgument,
{
    if view.data.is_none() {
        let msg = null_argument_message(name);
        return Err(ErrorT::from_mongoac(ErrorCodeT::InvalidArgument, msg.as_str()));
    }
    view.to_string_checked()
}

/// The document a view that must not be null holds: a null view is an invalid
/// argument named after the parameter; bytes that do not read as a document
/// give the BSON error.
pub fn required_document(view: &BsonViewT, name: &str) -> (r: Result<Document, ErrorT>)
    ensures
        view.data is None ==> (r matches Err(e) && e.is_mongoac(
            ErrorCodeT::InvalidArgument,
            must_not_be_null(name@),
        )),
        view.data is Some ==> (r is Ok <==> document_reads(view.spec_bytes())),
        r matches Ok(d) ==> document_read(view.spec_bytes()) == Some(d),
        view.data is Some ==> (r matches Err(e) ==> e is Bson),
{
    if view.data.is_none() {
        let msg = null_argument_message(name);
        return Err(ErrorT::from_mongoac(ErrorCodeT::InvalidArgument, msg.as_str()));
    }
    match read_document(view.as_bytes()) {
        Ok(d) => Ok(d),
        Err(e) => Err(ErrorT::from_bson_error(e)),
    }
}

/// A raw copy of the document a view that must not be null holds: a null view
/// is an invalid argument named after the parameter; bytes that are not a
/// framed document give the BSON error.
pub fn required_raw_document(view: &BsonViewT, name: &str) -> (r: Result<RawDocumentBuf, ErrorT>)
    ensures
        view.data is None ==> (r matches Err(e) && e.is_mongoac(
            ErrorCodeT::InvalidArgument,
            must_not_be_null(name@),
        )),
        view.data is Some ==> (r is Ok <==> is_framed_document(view.spec_bytes())),
        r matches Ok(d) ==> raw_document_bytes(d) == view.spec_bytes(),
        view.data is Some ==> (r matches Err(e) ==> e is Bson),
{
    if view.data.is_none() {
        let msg = null_argument_message(name);
        return Err(ErrorT::from_mongoac(ErrorCodeT::InvalidArgument, msg.as_str()));
    }
    view.to_raw_document()
}

/// Whether every view is non-null and frames a document.
pub open spec fn all_framed(views: Seq<BsonViewT>) -> bool {
    forall|i: int| 0 <= i < views.len() ==> (#[trigger] views[i]).data is Some && is_framed_document(
        views[i].spec_bytes(),
    )
}

/// Raw copies of an array of documents passed with a count, as a bulk insert
/// takes them: a null array or a count of zero means there is nothing to do
/// (`None`); a null element is reported by its index, and then the first
/// element that is not a framed document gives the BSON error.
pub fn raw_documents_from_views(views: &[BsonViewT], array_is_null: bool) -> (r: Result<Option<Vec<RawDocumentBuf>>, ErrorT>)
    ensures
        (array_is_null || views@.len() == 0) ==> r matches Ok(None),
        !(array_is_null || views@.len() == 0) ==> (r is Ok <==> all_framed(views@)),
        r matches Ok(Some(v)) ==> v@.len() == views@.len() && forall|i: int|
            0 <= i < views@.len() ==> raw_document_bytes(#[trigger] v@[i]) == views@[i].spec_bytes(),
        r matches Err(e) ==> (exists|i: int|
            0 <= i < views@.len() && (#[trigger] views@[i]).data is None && (forall|j: int|
                0 <= j < i ==> (#[trigger] views@[j]).data is Some) && e.is_mongoac(
                ErrorCodeT::InvalidArgument,
                null_bson_element(i as nat),
            )) || ((forall|i: int| 0 <= i < views@.len() ==> (#[trigger] views@[i]).data is Some)
            && e is Bson && exists|i: int|
            0 <= i < views@.len() && !is_framed_document((#[trigger] views@[i]).spec_bytes()) && (forall|
                j: int,
            | 0 <= j < i ==> is_framed_document((#[trigger] views@[j]).spec_bytes()))),
{
    let checked = bson_view_array_as_vec(views, array_is_null)?;
    let checked = match checked {
        None => {
            return Ok(None);
        },
        Some(c) => c,
    };
    let mut out: Vec<RawDocumentBuf> = Vec::new();
    let mut i: usize = 0;
    while i < checked.len()
        invariant
            !(array_is_null || views@.len() == 0),
            checked@.len() == views@.len(),
            forall|j: int|
                0 <= j < views@.len() ==> (#[trigger] checked@[j]).spec_bytes() == views@[j].spec_bytes()
                    && checked@[j].data is Some,
            forall|j: int| 0 <= j < views@.len() ==> (#[trigger] views@[j]).data is Some,
            i <= checked@.len(),
            out@.len() == i,
            forall|j: int| 0 <= j < i ==> is_framed_document(#[trigger] views@[j].spec_bytes()),
            forall|j: int| 0 <= j < i ==> raw_document_bytes(#[trigger] out@[j]) == views@[j].spec_bytes(),
        decreases checked@.len() - i,
    {
        let d = match checked[i].to_raw_document() {
            Ok(d) => d,
            Err(e) => {
                assert(!is_framed_document(views@[i as int].spec_bytes()));
                return Err(e);
            },
        };
        out.push(d);
        i = i + 1;
    }
    Ok(Some(out))
}

} // verus!
