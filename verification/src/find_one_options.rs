//! Options of a find of one document, read from a BSON document of driver option names.

use crate::bson::BsonViewT;
use crate::error::ErrorT;
use mongodb::options::FindOneOptions;
use vstd::prelude::*;

verus! {

#[verifier::external_type_specification]
#[verifier::external_body]
pub struct ExFindOneOptions(mongodb::options::FindOneOptions);

/// Whether the bytes deserialize as the driver's `FindOneOptions`.
pub uninterp spec fn find_one_options_parse(bytes: Seq<u8>) -> bool;

/// Calls `bson::deserialize_from_slice::<FindOneOptions>`, which reads a BSON
/// document of option names into the driver's options. Whether it succeeds is a
/// function of the bytes alone, named `find_one_options_parse`; the options read are
/// opaque here.
#[verifier::external_body]
fn deserialize_options(bytes: &[u8]) -> (r: Result<FindOneOptions, mongodb::bson::error::Error>)
    ensures
        r is Ok <==> find_one_options_parse(bytes@),
{
    mongodb::bson::deserialize_from_slice::<FindOneOptions>(bytes)
}

/// Options of a find of one document; `None` keeps every driver default.
#[derive(Debug)]
pub struct FindOneOptionsT {
    pub inner: Option<FindOneOptions>,
}

/// Options read from a BSON document: a null view gives the defaults, a
/// document that does not deserialize is refused with the BSON error.
pub fn mongoac_find_one_options_new_from_bson(v: &BsonViewT) -> (r: Result<FindOneOptionsT, ErrorT>)
    ensures
        v.data is None ==> (r matches Ok(o) && o.inner is None),
        v.data is Some ==> (r is Ok <==> find_one_options_parse(v.spec_bytes())),
        v.data is Some ==> (r matches Ok(o) ==> o.inner is Some),
        r matches Err(e) ==> e is Bson,
{
    match &v.data {
        None => Ok(FindOneOptionsT { inner: None }),
        Some(b) => match deserialize_options(b.as_slice()) {
            Ok(o) => Ok(FindOneOptionsT { inner: Some(o) }),
            Err(e) => Err(ErrorT::from_bson_error(e)),
        },
    }
}

} // verus!
