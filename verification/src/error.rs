//! The error model: an error category, an integral code, a message, and the
//! labels of driver errors.

use vstd::prelude::*;
use vstd::std_specs::convert::FromSpecImpl;
use mongodb::error::{ErrorKind, WriteFailure};

verus! {

#[allow(non_camel_case_types)]
pub type mongoac_error_category_t = i32;

pub const MONGOAC_ERROR_CATEGORY_NONE: mongoac_error_category_t = 0;

pub const MONGOAC_ERROR_CATEGORY_MONGOAC: mongoac_error_category_t = 1;

pub const MONGOAC_ERROR_CATEGORY_SERVER: mongoac_error_category_t = 2;

pub const MONGOAC_ERROR_CATEGORY_RUST: mongoac_error_category_t = 3;

pub const MONGOAC_ERROR_CATEGORY_BSON: mongoac_error_category_t = 4;

pub const MONGOAC_ERROR_CATEGORY_UNKNOWN: mongoac_error_category_t = i32::MIN;

#[allow(non_camel_case_types)]
pub type mongoac_error_code_t = i32;

pub const MONGOAC_ERROR_CODE_OK: mongoac_error_code_t = 0;

pub const MONGOAC_ERROR_CODE_INVALID_ARGUMENT: mongoac_error_code_t = 1;

pub const MONGOAC_ERROR_CODE_RUNTIME_ERROR: mongoac_error_code_t = 2;

pub const MONGOAC_ERROR_CODE_TIMEOUT: mongoac_error_code_t = 3;

pub const MONGOAC_ERROR_CODE_UNKNOWN: mongoac_error_code_t = i32::MIN;

/// The category of an error; values outside the named set are carried as `Unknown`.
#[derive(Debug, Clone, Copy, PartialEq, Eq, Structural)]
pub enum ErrorCategoryT {
    NoError,
    MongoAC,
    Server,
    Rust,
    Bson,
    Unknown(i32),
}

/// The integral code of an error; values outside the named set are carried as `Unknown`.
#[derive(Debug, Clone, Copy, PartialEq, Eq, Structural)]
pub enum ErrorCodeT {
    Success,
    InvalidArgument,
    RuntimeError,
    Timeout,
    Unknown(i32),
}

/// The category that an integer names: the named values map to their variant,
/// every other value is kept in `Unknown`.
pub open spec fn category_from_i32(v: i32) -> ErrorCategoryT {
    if v == MONGOAC_ERROR_CATEGORY_NONE {
        ErrorCategoryT::NoError
    } else if v == MONGOAC_ERROR_CATEGORY_MONGOAC {
        ErrorCategoryT::MongoAC
    } else if v == MONGOAC_ERROR_CATEGORY_SERVER {
        ErrorCategoryT::Server
    } else if v == MONGOAC_ERROR_CATEGORY_RUST {
        ErrorCategoryT::Rust
    } else if v == MONGOAC_ERROR_CATEGORY_BSON {
        ErrorCategoryT::Bson
    } else {
        ErrorCategoryT::Unknown(v)
    }
}

/// The integer that a category stands for.
pub open spec fn category_to_i32(c: ErrorCategoryT) -> i32 {
    match c {
        ErrorCategoryT::NoError => MONGOAC_ERROR_CATEGORY_NONE,
        ErrorCategoryT::MongoAC => MONGOAC_ERROR_CATEGORY_MONGOAC,
        ErrorCategoryT::Server => MONGOAC_ERROR_CATEGORY_SERVER,
        ErrorCategoryT::Rust => MONGOAC_ERROR_CATEGORY_RUST,
        ErrorCategoryT::Bson => MONGOAC_ERROR_CATEGORY_BSON,
        ErrorCategoryT::Unknown(v) => v,
    }
}

/// The code that an integer names: the named values map to their variant,
/// every other value is kept in `Unknown`.
pub open spec fn code_from_i32(v: i32) -> ErrorCodeT {
    if v == MONGOAC_ERROR_CODE_OK {
        ErrorCodeT::Success
    } else if v == MONGOAC_ERROR_CODE_INVALID_ARGUMENT {
        ErrorCodeT::InvalidArgument
    } else if v == MONGOAC_ERROR_CODE_RUNTIME_ERROR {
        ErrorCodeT::RuntimeError
    } else if v == MONGOAC_ERROR_CODE_TIMEOUT {
        ErrorCodeT::Timeout
    } else {
        ErrorCodeT::Unknown(v)
    }
}

/// The integer that a code stands for.
pub open spec fn code_to_i32(c: ErrorCodeT) -> i32 {
    match c {
        ErrorCodeT::Success => MONGOAC_ERROR_CODE_OK,
        ErrorCodeT::InvalidArgument => MONGOAC_ERROR_CODE_INVALID_ARGUMENT,
        ErrorCodeT::RuntimeError => MONGOAC_ERROR_CODE_RUNTIME_ERROR,
        ErrorCodeT::Timeout => MONGOAC_ERROR_CODE_TIMEOUT,
        ErrorCodeT::Unknown(v) => v,
    }
}

/// The human-readable description of a code.
pub open spec fn code_message(c: ErrorCodeT) -> Seq<char> {
    match c {
        ErrorCodeT::Success => "ok"@,
        ErrorCodeT::InvalidArgument => "invalid argument"@,
        ErrorCodeT::RuntimeError => "runtime error"@,
        ErrorCodeT::Timeout => "timeout"@,
        ErrorCodeT::Unknown(_) => "unknown error code"@,
    }
}

impl From<i32> for ErrorCategoryT {
    fn from(v: i32) -> (r: Self) {
        if v == MONGOAC_ERROR_CATEGORY_NONE {
            ErrorCategoryT::NoError
        } else if v == MONGOAC_ERROR_CATEGORY_MONGOAC {
            ErrorCategoryT::MongoAC
        } else if v == MONGOAC_ERROR_CATEGORY_SERVER {
            ErrorCategoryT::Server
        } else if v == MONGOAC_ERROR_CATEGORY_RUST {
            ErrorCategoryT::Rust
        } else if v == MONGOAC_ERROR_CATEGORY_BSON {
            ErrorCategoryT::Bson
        } else {
            ErrorCategoryT::Unknown(v)
        }
    }
}

impl FromSpecImpl<i32> for ErrorCategoryT {
    open spec fn obeys_from_spec() -> bool {
        true
    }

    open spec fn from_spec(v: i32) -> Self {
        category_from_i32(v)
    }
}

impl From<ErrorCategoryT> for i32 {
    fn from(c: ErrorCategoryT) -> (r: i32) {
        match c {
            ErrorCategoryT::NoError => MONGOAC_ERROR_CATEGORY_NONE,
            ErrorCategoryT::MongoAC => MONGOAC_ERROR_CATEGORY_MONGOAC,
            ErrorCategoryT::Server => MONGOAC_ERROR_CATEGORY_SERVER,
            ErrorCategoryT::Rust => MONGOAC_ERROR_CATEGORY_RUST,
            ErrorCategoryT::Bson => MONGOAC_ERROR_CATEGORY_BSON,
            ErrorCategoryT::Unknown(v) => v,
        }
    }
}

impl FromSpecImpl<ErrorCategoryT> for i32 {
    open spec fn obeys_from_spec() -> bool {
        true
    }

    open spec fn from_spec(c: ErrorCategoryT) -> i32 {
        category_to_i32(c)
    }
}

impl From<i32> for ErrorCodeT {
    fn from(v: i32) -> (r: Self) {
        if v == MONGOAC_ERROR_CODE_OK {
            ErrorCodeT::Success
        } else if v == MONGOAC_ERROR_CODE_INVALID_ARGUMENT {
            ErrorCodeT::InvalidArgument
        } else if v == MONGOAC_ERROR_CODE_RUNTIME_ERROR {
            ErrorCodeT::RuntimeError
        } else if v == MONGOAC_ERROR_CODE_TIMEOUT {
            ErrorCodeT::Timeout
        } else {
            ErrorCodeT::Unknown(v)
        }
    }
}

impl FromSpecImpl<i32> for ErrorCodeT {
    open spec fn obeys_from_spec() -> bool {
        true
    }

    open spec fn from_spec(v: i32) -> Self {
        code_from_i32(v)
    }
}

impl From<ErrorCodeT> for i32 {
    fn from(c: ErrorCodeT) -> (r: i32) {
        match c {
            ErrorCodeT::Success => MONGOAC_ERROR_CODE_OK,
            ErrorCodeT::InvalidArgument => MONGOAC_ERROR_CODE_INVALID_ARGUMENT,
            ErrorCodeT::RuntimeError => MONGOAC_ERROR_CODE_RUNTIME_ERROR,
            ErrorCodeT::Timeout => MONGOAC_ERROR_CODE_TIMEOUT,
            ErrorCodeT::Unknown(v) => v,
        }
    }
}

impl FromSpecImpl<ErrorCodeT> for i32 {
    open spec fn obeys_from_spec() -> bool {
        true
    }

    open spec fn from_spec(c: ErrorCodeT) -> i32 {
        code_to_i32(c)
    }
}

impl ErrorCodeT {
    /// The description of this code (every code has one).
    pub fn get_message(&self) -> (r: Option<&'static str>)
        ensures
            r matches Some(m) && m@ == code_message(*self),
    {
        match self {
            ErrorCodeT::Success => Some("ok"),
            ErrorCodeT::InvalidArgument => Some("invalid argument"),
            ErrorCodeT::RuntimeError => Some("runtime error"),
            ErrorCodeT::Timeout => Some("timeout"),
            ErrorCodeT::Unknown(_) => Some("unknown error code"),
        }
    }
}

/// Every integer survives the trip through `ErrorCodeT` unchanged.
pub proof fn lemma_code_i32_round_trip(v: i32)
    ensures
        code_to_i32(code_from_i32(v)) == v,
{
}

/// Every code other than an `Unknown` that carries a named value survives the
/// trip through `i32` unchanged.
pub proof fn lemma_code_variant_round_trip(c: ErrorCodeT)
    requires
        !(c matches ErrorCodeT::Unknown(v) && 0 <= v <= 3),
    ensures
        code_from_i32(code_to_i32(c)) == c,
{
}

/// Every integer survives the trip through `ErrorCategoryT` unchanged.
pub proof fn lemma_category_i32_round_trip(v: i32)
    ensures
        category_to_i32(category_from_i32(v)) == v,
{
}

/// Every category other than an `Unknown` that carries a named value survives the
/// trip through `i32` unchanged.
pub proof fn lemma_category_variant_round_trip(c: ErrorCategoryT)
    requires
        !(c matches ErrorCategoryT::Unknown(v) && 0 <= v <= 4),
    ensures
        category_from_i32(category_to_i32(c)) == c,
{
}


#[verifier::external_type_specification]
#[verifier::external_body]
pub struct ExDriverError(mongodb::error::Error);

#[verifier::external_type_specification]
#[verifier::external_body]
pub struct ExBsonError(mongodb::bson::error::Error);

#[verifier::external_type_specification]
#[verifier::external_body]
pub struct ExElapsed(tokio::time::error::Elapsed);

/// The shape of a driver error, as far as the error model reads it.
#[derive(Debug, Clone, Copy, PartialEq, Eq, Structural)]
pub enum DriverErrorKindT {
    /// A command error reported by the server, with its code.
    Command { code: i32 },
    /// A write error reported by the server, with its code.
    WriteError { code: i32 },
    /// A write concern error reported by the server, with its code.
    WriteConcernError { code: i32 },
    /// Any other write failure.
    OtherWrite,
    /// A failure of several writes (an insert-many or a bulk write), with the
    /// code of its write concern error and that of its first write error, where
    /// it has them.
    MultiWrite { write_concern_code: Option<i32>, write_error_code: Option<i32> },
    /// Any other driver error.
    Other,
}

/// A driver error: its shape and message, and the original error, which
/// answers label queries.
#[derive(Debug)]
pub struct DriverErrorT {
    pub kind: DriverErrorKindT,
    pub message: String,
    pub inner: mongodb::error::Error,
}

/// A BSON (de)serialization error, kept by its message.
#[derive(Debug)]
pub struct BsonErrorT {
    pub message: String,
}

/// An error: none, one of the library's own, one reported by the server, one of
/// the driver, or one of BSON handling.
#[derive(Debug)]
pub enum ErrorT {
    NoError,
    MongoAC { code: ErrorCodeT, message: Option<String> },
    Server(DriverErrorT),
    Rust(DriverErrorT),
    Bson(BsonErrorT),
}

/// The shape of a driver error as its `kind` field shows it: the variant, with
/// the server's code where the variant carries exactly one.
#[derive(Debug, Clone, Copy, PartialEq, Eq, Structural)]
pub enum DriverErrorShapeT {
    Command { code: i32 },
    WriteError { code: i32 },
    WriteConcernError { code: i32 },
    OtherWrite,
    InsertMany,
    BulkWrite,
    Other,
}

/// The shape of a driver error, as `driver_error_shape` reads it.
pub uninterp spec fn driver_shape(err: mongodb::error::Error) -> DriverErrorShapeT;

/// The fixed start of every rendered driver error.
pub open spec fn driver_message_start() -> Seq<char> {
    "Kind: "@
}

/// Whether a driver error carries a label, in its own label set or in that of
/// an error it wraps.
pub uninterp spec fn driver_labelled(err: mongodb::error::Error, label: Seq<char>) -> bool;

/// Reads the shape of a driver error.
///
/// Calls `mongodb::error::Error::kind` and tells its variants apart, moving
/// the `code` field of a command error, a write error and a write concern
/// error. The error is opaque here: the contract only names the shape read.
#[verifier::external_body]
fn driver_error_shape(err: &mongodb::error::Error) -> (r: DriverErrorShapeT)
    ensures
        r == driver_shape(*err),
{
    match err.kind.as_ref() {
        ErrorKind::Command(e) => DriverErrorShapeT::Command { code: e.code },
        ErrorKind::Write(WriteFailure::WriteError(e)) => DriverErrorShapeT::WriteError { code: e.code },
        ErrorKind::Write(WriteFailure::WriteConcernError(e)) => DriverErrorShapeT::WriteConcernError { code: e.code },
        ErrorKind::Write(_) => DriverErrorShapeT::OtherWrite,
        ErrorKind::InsertMany(_) => DriverErrorShapeT::InsertMany,
        ErrorKind::BulkWrite(_) => DriverErrorShapeT::BulkWrite,
        _ => DriverErrorShapeT::Other,
    }
}

/// The codes of the write concern errors of an insert-many or bulk-write
/// error, in order; empty for any other error.
pub uninterp spec fn write_concern_codes(err: mongodb::error::Error) -> Seq<i32>;

/// Reads the codes of the write concern errors of an insert-many error (its
/// optional `write_concern_error`) or of a bulk-write error (its
/// `write_concern_errors` list), in order; nothing for any other error.
#[verifier::external_body]
fn driver_write_concern_codes(err: &mongodb::error::Error) -> (r: Vec<i32>)
    ensures
        r@ == write_concern_codes(*err),
{
    match err.kind.as_ref() {
        ErrorKind::InsertMany(e) => e.write_concern_error.iter().map(|w| w.code).collect(),
        ErrorKind::BulkWrite(e) => e.write_concern_errors.iter().map(|w| w.code).collect(),
        _ => Vec::new(),
    }
}

/// The write errors of an insert-many error, as (index, code) pairs in order;
/// empty for any other error.
pub uninterp spec fn insert_many_write_errors(err: mongodb::error::Error) -> Seq<(usize, i32)>;

/// Reads the write errors of an insert-many error from its optional
/// `write_errors` list, as (index, code) pairs in order; nothing for any other
/// error.
#[verifier::external_body]
fn driver_insert_many_write_errors(err: &mongodb::error::Error) -> (r: Vec<(usize, i32)>)
    ensures
        r@ == insert_many_write_errors(*err),
{
    match err.kind.as_ref() {
        ErrorKind::InsertMany(e) => e.write_errors.iter().flatten().map(|w| (w.index, w.code)).collect(),
        _ => Vec::new(),
    }
}

/// The write errors of a bulk-write error, as their codes by the index of the
/// failed write; empty for any other error.
pub uninterp spec fn bulk_write_errors(err: mongodb::error::Error) -> Map<usize, i32>;

/// Reads the write errors of a bulk-write error from its `write_errors` map, as
/// (index, code) pairs in the map's order, which is not fixed; nothing for any
/// other error. Each index of the map comes once.
#[verifier::external_body]
fn driver_bulk_write_errors(err: &mongodb::error::Error) -> (r: Vec<(usize, i32)>)
    ensures
        forall|k: int| 0 <= k < r@.len() ==> bulk_write_errors(*err).contains_key((#[trigger] r@[k]).0)
            && bulk_write_errors(*err)[r@[k].0] == r@[k].1,
        forall|i: usize| #[trigger] bulk_write_errors(*err).contains_key(i) ==> exists|k: int|
            0 <= k < r@.len() && (#[trigger] r@[k]).0 == i,
{
    match err.kind.as_ref() {
        ErrorKind::BulkWrite(e) => e.write_errors.iter().map(|(i, w)| (*i, w.code)).collect(),
        _ => Vec::new(),
    }
}

/// Whether `code` is that of the write error at the lowest index.
pub open spec fn is_lowest_write_error(errors: Map<usize, i32>, code: i32) -> bool {
    exists|i: usize|
        #[trigger] errors.contains_key(i) && errors[i] == code && forall|j: usize|
            #[trigger] errors.contains_key(j) ==> i <= j
}

/// Whether `code` is that of a pair with the lowest index among the pairs.
pub open spec fn is_lowest_pair(pairs: Seq<(usize, i32)>, code: i32) -> bool {
    exists|k: int|
        0 <= k < pairs.len() && (#[trigger] pairs[k]).1 == code && forall|j: int|
            0 <= j < pairs.len() ==> pairs[k].0 <= (#[trigger] pairs[j]).0
}

/// The write error code a failure of several writes reports: none without
/// write errors, otherwise that of the write error at the lowest index.
pub open spec fn reports_write_error(code: Option<i32>, has_errors: bool, lowest: spec_fn(i32) -> bool) -> bool {
    match code {
        None => !has_errors,
        Some(c) => has_errors && lowest(c),
    }
}

/// The kind that a driver error of this shape is recorded with. A failure of
/// several writes (an insert-many or a bulk write) keeps the code of its first
/// write concern error, where it has one, and that of its write error at the
/// lowest index, where it has one; `code()` prefers the former.
pub open spec fn classified_kind(
    shape: DriverErrorShapeT,
    concern_codes: Seq<i32>,
    insert_errors: Seq<(usize, i32)>,
    bulk_errors: Map<usize, i32>,
    kind: DriverErrorKindT,
) -> bool {
    match shape {
        DriverErrorShapeT::Command { code } => kind == DriverErrorKindT::Command { code },
        DriverErrorShapeT::WriteError { code } => kind == DriverErrorKindT::WriteError { code },
        DriverErrorShapeT::WriteConcernError { code } => kind == DriverErrorKindT::WriteConcernError { code },
        DriverErrorShapeT::OtherWrite => kind == DriverErrorKindT::OtherWrite,
        DriverErrorShapeT::Other => kind == DriverErrorKindT::Other,
        DriverErrorShapeT::InsertMany => kind matches DriverErrorKindT::MultiWrite {
            write_concern_code: w,
            write_error_code: e,
        } && w == (if concern_codes.len() > 0 { Some(concern_codes[0]) } else { None }) && reports_write_error(
            e,
            insert_errors.len() > 0,
            |c: i32| is_lowest_pair(insert_errors, c),
        ),
        DriverErrorShapeT::BulkWrite => kind matches DriverErrorKindT::MultiWrite {
            write_concern_code: w,
            write_error_code: e,
        } && w == (if concern_codes.len() > 0 { Some(concern_codes[0]) } else { None }) && reports_write_error(
            e,
            bulk_errors.dom() != Set::<usize>::empty(),
            |c: i32| is_lowest_write_error(bulk_errors, c),
        ),
    }
}

/// The code of the write error at the lowest index among (index, code) pairs,
/// none when there are none.
pub fn lowest_index_code(errors: &Vec<(usize, i32)>) -> (r: Option<i32>)
    ensures
        r is None <==> errors@.len() == 0,
        r matches Some(c) ==> is_lowest_pair(errors@, c),
{
    if errors.len() == 0 {
        return None;
    }
    let mut best: usize = 0;
    let mut k: usize = 1;
    while k < errors.len()
        invariant
            0 < errors@.len(),
            best < errors@.len(),
            1 <= k <= errors@.len(),
            forall|j: int| 0 <= j < k ==> errors@[best as int].0 <= (#[trigger] errors@[j]).0,
        decreases errors@.len() - k,
    {
        if errors[k].0 < errors[best].0 {
            best = k;
        }
        k = k + 1;
    }
    assert(errors@[best as int].1 == errors@[best as int].1);
    Some(errors[best].1)
}

/// The code of the write error at the lowest index among pairs that list the
/// map `m`, none when there are none.
fn lowest_in_map(errors: &Vec<(usize, i32)>, Ghost(m): Ghost<Map<usize, i32>>) -> (r: Option<i32>)
    requires
        forall|k: int| 0 <= k < errors@.len() ==> m.contains_key((#[trigger] errors@[k]).0) && m[errors@[k].0]
            == errors@[k].1,
        forall|i: usize| #[trigger] m.contains_key(i) ==> exists|k: int|
            0 <= k < errors@.len() && (#[trigger] errors@[k]).0 == i,
    ensures
        reports_write_error(r, m.dom() != Set::<usize>::empty(), |c: i32| is_lowest_write_error(m, c)),
{
    match lowest_index_code(errors) {
        Some(c) => {
            proof {
                let k = choose|k: int|
                    0 <= k < errors@.len() && (#[trigger] errors@[k]).1 == c && forall|j: int|
                        0 <= j < errors@.len() ==> errors@[k].0 <= (#[trigger] errors@[j]).0;
                let i = errors@[k].0;
                assert(m.contains_key(i));
                assert forall|j: usize| #[trigger] m.contains_key(j) implies i <= j by {
                    let kj = choose|kj: int| 0 <= kj < errors@.len() && (#[trigger] errors@[kj]).0 == j;
                    assert(errors@[k].0 <= errors@[kj].0);
                }
                assert(m.dom().contains(i));
                assert(m.dom() != Set::<usize>::empty());
                assert(is_lowest_write_error(m, c));
            }
            Some(c)
        },
        None => {
            proof {
                assert forall|i: usize| !m.dom().contains(i) by {
                    if m.contains_key(i) {
                        let kj = choose|kj: int| 0 <= kj < errors@.len() && (#[trigger] errors@[kj]).0 == i;
                    }
                }
                assert(m.dom() =~= Set::<usize>::empty());
            }
            None
        },
    }
}

/// The kind a driver error of the given shape is recorded with, from the codes
/// read from it (see `classified_kind`); the bulk write errors are given as
/// pairs that list the map `m`.
fn classify_shape(
    shape: DriverErrorShapeT,
    concern_codes: &Vec<i32>,
    insert_errors: &Vec<(usize, i32)>,
    bulk_errors: &Vec<(usize, i32)>,
    Ghost(m): Ghost<Map<usize, i32>>,
) -> (r: DriverErrorKindT)
    requires
        forall|k: int| 0 <= k < bulk_errors@.len() ==> m.contains_key((#[trigger] bulk_errors@[k]).0)
            && m[bulk_errors@[k].0] == bulk_errors@[k].1,
        forall|i: usize| #[trigger] m.contains_key(i) ==> exists|k: int|
            0 <= k < bulk_errors@.len() && (#[trigger] bulk_errors@[k]).0 == i,
    ensures
        classified_kind(shape, concern_codes@, insert_errors@, m, r),
{
    let first_concern = if concern_codes.len() > 0 {
        Some(concern_codes[0])
    } else {
        None
    };
    match shape {
        DriverErrorShapeT::Command { code } => DriverErrorKindT::Command { code },
        DriverErrorShapeT::WriteError { code } => DriverErrorKindT::WriteError { code },
        DriverErrorShapeT::WriteConcernError { code } => DriverErrorKindT::WriteConcernError { code },
        DriverErrorShapeT::OtherWrite => DriverErrorKindT::OtherWrite,
        DriverErrorShapeT::Other => DriverErrorKindT::Other,
        DriverErrorShapeT::InsertMany => {
            let e = lowest_index_code(insert_errors);
            DriverErrorKindT::MultiWrite { write_concern_code: first_concern, write_error_code: e }
        },
        DriverErrorShapeT::BulkWrite => {
            let e = lowest_in_map(bulk_errors, Ghost(m));
            DriverErrorKindT::MultiWrite { write_concern_code: first_concern, write_error_code: e }
        },
    }
}

/// Renders a driver error with its `Display` impl (`to_string`), whose format
/// begins with the literal "Kind: ". The rest walks the error's label set, a hash
/// set whose order is not fixed, so only that start is stated.
#[verifier::external_body]
fn driver_error_message(err: &mongodb::error::Error) -> (r: String)
    ensures
        driver_message_start().is_prefix_of(r@),
{
    err.to_string()
}

/// Calls `mongodb::error::Error::contains_label`, which looks the label up in
/// the error's label set and in those of its source errors. The labels are
/// opaque here: the answer is only named.
#[verifier::external_body]
fn driver_error_contains_label(err: &mongodb::error::Error, label: &str) -> (r: bool)
    ensures
        r == driver_labelled(*err, label@),
{
    err.contains_label(label)
}

/// Calls `Clone::clone` on a driver error, which the driver derives: the copy
/// has the same kind, the same label set and the same source error, so it has
/// the same shape and answers every label query alike.
#[verifier::external_body]
fn driver_error_clone(err: &mongodb::error::Error) -> (r: mongodb::error::Error)
    ensures
        forall|label: Seq<char>| #[trigger] driver_labelled(r, label) == driver_labelled(*err, label),
{
    err.clone()
}

/// The fixed start of every rendered BSON error.
pub open spec fn bson_message_start() -> Seq<char> {
    "BSON error"@
}

/// The text of a BSON error as its `Display` impl renders it: "BSON error",
/// then where it arose, its kind and its message.
pub uninterp spec fn bson_error_text(err: mongodb::bson::error::Error) -> Seq<char>;

/// Renders a BSON error with its `Display` impl (`to_string`), which first
/// writes the literal "BSON error" and then reads only the error's fields; the
/// text is named `bson_error_text`.
#[verifier::external_body]
fn bson_error_message(err: &mongodb::bson::error::Error) -> (r: String)
    ensures
        r@ == bson_error_text(*err),
        bson_message_start().is_prefix_of(r@),
{
    err.to_string()
}

/// Renders tokio's `Elapsed` with its `Display` impl, which writes the fixed
/// text "deadline has elapsed".
#[verifier::external_body]
fn elapsed_message(err: &tokio::time::error::Elapsed) -> (r: String)
    ensures
        r@ == "deadline has elapsed"@,
{
    err.to_string()
}

/// Whether the error carries the label: only driver errors carry labels.
pub open spec fn error_labelled(e: ErrorT, label: Seq<char>) -> bool {
    match e {
        ErrorT::Server(d) => driver_labelled(d.inner, label),
        ErrorT::Rust(d) => driver_labelled(d.inner, label),
        _ => false,
    }
}

/// Whether a driver error of this shape is reported as a server error.
pub open spec fn is_server_kind(k: DriverErrorKindT) -> bool {
    match k {
        DriverErrorKindT::Command { .. } => true,
        DriverErrorKindT::WriteError { .. } => true,
        DriverErrorKindT::WriteConcernError { .. } => true,
        DriverErrorKindT::OtherWrite => true,
        DriverErrorKindT::MultiWrite { .. } => false,
        DriverErrorKindT::Other => false,
    }
}

/// The code a driver error of this shape reports: the server's code for a
/// command, write or write concern error; for a failure of several writes, that
/// of its write concern error, else that of its write error; otherwise
/// `Unknown`.
pub open spec fn server_code(k: DriverErrorKindT) -> ErrorCodeT {
    match k {
        DriverErrorKindT::Command { code } => code_from_i32(code),
        DriverErrorKindT::WriteError { code } => code_from_i32(code),
        DriverErrorKindT::WriteConcernError { code } => code_from_i32(code),
        DriverErrorKindT::MultiWrite { write_concern_code: Some(code), .. } => code_from_i32(code),
        DriverErrorKindT::MultiWrite { write_concern_code: None, write_error_code: Some(code) } => code_from_i32(
            code,
        ),
        _ => ErrorCodeT::Unknown(MONGOAC_ERROR_CODE_UNKNOWN),
    }
}

/// The code a driver error of this kind reports (see `server_code`).
pub fn kind_code(k: DriverErrorKindT) -> (r: ErrorCodeT)
    ensures
        r == server_code(k),
{
    match k {
        DriverErrorKindT::Command { code } => ErrorCodeT::from(code),
        DriverErrorKindT::WriteError { code } => ErrorCodeT::from(code),
        DriverErrorKindT::WriteConcernError { code } => ErrorCodeT::from(code),
        DriverErrorKindT::MultiWrite { write_concern_code: Some(code), .. } => ErrorCodeT::from(code),
        DriverErrorKindT::MultiWrite { write_concern_code: None, write_error_code: Some(code) } => ErrorCodeT::from(
            code,
        ),
        _ => ErrorCodeT::Unknown(MONGOAC_ERROR_CODE_UNKNOWN),
    }
}

/// The server code a driver error of this kind carries: that of a command,
/// write or write concern error; for a failure of several writes, that of its
/// write concern error, else that of its write error; none otherwise.
pub open spec fn carried_server_code(k: DriverErrorKindT) -> Option<i32> {
    match k {
        DriverErrorKindT::Command { code } => Some(code),
        DriverErrorKindT::WriteError { code } => Some(code),
        DriverErrorKindT::WriteConcernError { code } => Some(code),
        DriverErrorKindT::MultiWrite { write_concern_code: Some(code), .. } => Some(code),
        DriverErrorKindT::MultiWrite { write_concern_code: None, write_error_code } => write_error_code,
        _ => None,
    }
}

/// Server codes pass through as raw integers: the code of a server or driver
/// error, as an integer, is the server code its kind carries, unchanged (91
/// stays 91), and `MONGOAC_ERROR_CODE_UNKNOWN` when it carries none; a BSON
/// error always reports `MONGOAC_ERROR_CODE_UNKNOWN`.
pub proof fn lemma_server_codes_pass_through(e: ErrorT)
    ensures
        e matches ErrorT::Server(d) ==> code_to_i32(e.spec_code()) == match carried_server_code(d.kind) {
            Some(c) => c,
            None => MONGOAC_ERROR_CODE_UNKNOWN,
        },
        e matches ErrorT::Rust(d) ==> code_to_i32(e.spec_code()) == match carried_server_code(d.kind) {
            Some(c) => c,
            None => MONGOAC_ERROR_CODE_UNKNOWN,
        },
        e is Bson ==> code_to_i32(e.spec_code()) == MONGOAC_ERROR_CODE_UNKNOWN,
{
    match e {
        ErrorT::Server(d) => {
            if let Some(c) = carried_server_code(d.kind) {
                lemma_code_i32_round_trip(c);
            }
        },
        ErrorT::Rust(d) => {
            if let Some(c) = carried_server_code(d.kind) {
                lemma_code_i32_round_trip(c);
            }
        },
        _ => {},
    }
}

/// The message of an error of the library's own: the code's description,
/// followed by ": " and the detail when there is one.
pub open spec fn mongoac_message(code: ErrorCodeT, detail: Option<Seq<char>>) -> Seq<char> {
    match detail {
        Some(d) => code_message(code) + ": "@ + d,
        None => code_message(code),
    }
}

impl ErrorT {
    /// The category of the error.
    pub open spec fn spec_category(&self) -> ErrorCategoryT {
        match self {
            ErrorT::NoError => ErrorCategoryT::NoError,
            ErrorT::MongoAC { .. } => ErrorCategoryT::MongoAC,
            ErrorT::Server(_) => ErrorCategoryT::Server,
            ErrorT::Rust(_) => ErrorCategoryT::Rust,
            ErrorT::Bson(_) => ErrorCategoryT::Bson,
        }
    }

    /// The code of the error.
    pub open spec fn spec_code(&self) -> ErrorCodeT {
        match self {
            ErrorT::NoError => ErrorCodeT::Success,
            ErrorT::MongoAC { code, .. } => *code,
            ErrorT::Server(e) => server_code(e.kind),
            ErrorT::Rust(e) => server_code(e.kind),
            ErrorT::Bson(_) => ErrorCodeT::Unknown(MONGOAC_ERROR_CODE_UNKNOWN),
        }
    }

    /// The message of the error, if any.
    pub open spec fn spec_message(&self) -> Option<Seq<char>> {
        match self {
            ErrorT::NoError => None,
            ErrorT::MongoAC { code, message } => Some(
                mongoac_message(
                    *code,
                    match message {
                        Some(m) => Some(m@),
                        None => None,
                    },
                ),
            ),
            ErrorT::Server(e) => Some(e.message@),
            ErrorT::Rust(e) => Some(e.message@),
            ErrorT::Bson(e) => Some(e.message@),
        }
    }

    /// Whether this is an error of the library's own with this code and detail.
    pub open spec fn is_mongoac(&self, code: ErrorCodeT, msg: Seq<char>) -> bool {
        &&& self matches ErrorT::MongoAC { code: c, message: Some(m) }
        &&& c == code
        &&& m@ == msg
    }

    /// The empty error.
    pub fn new() -> (r: Self)
        ensures
            r is NoError,
    {
        ErrorT::NoError
    }

    /// An error of the library's own, with the given code and detail.
    pub fn from_mongoac(code: ErrorCodeT, msg: &str) -> (r: Self)
        ensures
            r.is_mongoac(code, msg@),
    {
        ErrorT::MongoAC { code, message: Some(String::from_str(msg)) }
    }

    /// Resets the error to the empty error.
    pub fn clear(&mut self)
        ensures
            *final(self) is NoError,
    {
        *self = ErrorT::NoError;
    }

    /// The category of the error.
    pub fn category(&self) -> (r: ErrorCategoryT)
        ensures
            r == self.spec_category(),
    {
        match self {
            ErrorT::NoError => ErrorCategoryT::NoError,
            ErrorT::MongoAC { .. } => ErrorCategoryT::MongoAC,
            ErrorT::Server(_) => ErrorCategoryT::Server,
            ErrorT::Rust(_) => ErrorCategoryT::Rust,
            ErrorT::Bson(_) => ErrorCategoryT::Bson,
        }
    }

    /// The code of the error: `Success` for no error, the library's own code, the
    /// server's code for command, write and write-concern errors and for failures
    /// of several writes, and `Unknown` (with the value
    /// `MONGOAC_ERROR_CODE_UNKNOWN`) otherwise.
    pub fn code(&self) -> (r: ErrorCodeT)
        ensures
            r == self.spec_code(),
    {
        match self {
            ErrorT::NoError => ErrorCodeT::Success,
            ErrorT::MongoAC { code, .. } => *code,
            ErrorT::Server(e) => kind_code(e.kind),
            ErrorT::Rust(e) => kind_code(e.kind),
            ErrorT::Bson(_) => ErrorCodeT::Unknown(MONGOAC_ERROR_CODE_UNKNOWN),
        }
    }

    /// The message of the error: none for no error, "<description>: <detail>" for
    /// the library's own errors, and the rendered error otherwise.
    pub fn message(&self) -> (r: Option<String>)
        ensures
            r matches Some(s) ==> self.spec_message() == Some(s@),
            r is None <==> self.spec_message() is None,
    {
        match self {
            ErrorT::NoError => None,
            ErrorT::MongoAC { code, message } => {
                let prefix = match code.get_message() {
                    Some(p) => p,
                    None => "",
                };
                match message {
                    Some(msg) => {
                        let s = String::from_str(prefix);
                        let s = s.concat(": ");
                        let s = s.concat(msg.as_str());
                        Some(s)
                    },
                    None => Some(String::from_str(prefix)),
                }
            },
            ErrorT::Server(e) => Some(e.message.clone()),
            ErrorT::Rust(e) => Some(e.message.clone()),
            ErrorT::Bson(e) => Some(e.message.clone()),
        }
    }

    /// Whether the error carries the given label; only driver errors carry labels.
    pub fn contains_label(&self, label: &str) -> (r: bool)
        ensures
            !(self is Server || self is Rust) ==> !r,
            self matches ErrorT::Server(e) ==> r == driver_labelled(e.inner, label@),
            self matches ErrorT::Rust(e) ==> r == driver_labelled(e.inner, label@),
    {
        match self {
            ErrorT::Server(e) => driver_error_contains_label(&e.inner, label),
            ErrorT::Rust(e) => driver_error_contains_label(&e.inner, label),
            _ => false,
        }
    }

    /// A copy of the error: same category, code, message and labels.
    pub fn duplicate(&self) -> (r: Self)
        ensures
            r.spec_category() == self.spec_category(),
            r.spec_code() == self.spec_code(),
            r.spec_message() == self.spec_message(),
            forall|label: Seq<char>| #[trigger] error_labelled(r, label) == error_labelled(*self, label),
    {
        match self {
            ErrorT::NoError => ErrorT::NoError,
            ErrorT::MongoAC { code, message } => ErrorT::MongoAC {
                code: *code,
                message: match message {
                    Some(m) => Some(m.clone()),
                    None => None,
                },
            },
            ErrorT::Server(e) => ErrorT::Server(DriverErrorT {
                kind: e.kind,
                message: e.message.clone(),
                inner: driver_error_clone(&e.inner),
            }),
            ErrorT::Rust(e) => ErrorT::Rust(DriverErrorT {
                kind: e.kind,
                message: e.message.clone(),
                inner: driver_error_clone(&e.inner),
            }),
            ErrorT::Bson(e) => ErrorT::Bson(BsonErrorT { message: e.message.clone() }),
        }
    }

    /// Classifies a driver error of the given kind, with its rendered text:
    /// command and write failures are server errors, every other driver error
    /// (failures of several writes among them) is a Rust error; the kind, text
    /// and error are kept.
    pub fn from_driver_parts(kind: DriverErrorKindT, message: String, err: mongodb::error::Error) -> (r: Self)
        ensures
            r is Rust <==> !is_server_kind(kind),
            r is Server <==> is_server_kind(kind),
            r matches ErrorT::Server(e) ==> e.kind == kind && e.message@ == message@ && e.inner == err,
            r matches ErrorT::Rust(e) ==> e.kind == kind && e.message@ == message@ && e.inner == err,
    {
        let e = DriverErrorT { kind, message, inner: err };
        match kind {
            DriverErrorKindT::Other => ErrorT::Rust(e),
            DriverErrorKindT::MultiWrite { .. } => ErrorT::Rust(e),
            _ => ErrorT::Server(e),
        }
    }

    /// Classifies a driver error: command and write failures are server errors,
    /// every other driver error is a Rust error. The kind is read from the error
    /// (see `classified_kind`); the message is the rendered error, which starts
    /// with "Kind: ".
    pub fn from_driver_error(err: mongodb::error::Error) -> (r: Self)
        ensures
            r is Server || r is Rust,
            r is Server <==> driver_shape(err) matches (DriverErrorShapeT::Command { .. }
            | DriverErrorShapeT::WriteError { .. } | DriverErrorShapeT::WriteConcernError { .. }
            | DriverErrorShapeT::OtherWrite),
            r matches ErrorT::Server(e) ==> classified_kind(
                driver_shape(err),
                write_concern_codes(err),
                insert_many_write_errors(err),
                bulk_write_errors(err),
                e.kind,
            ) && driver_message_start().is_prefix_of(e.message@) && e.inner == err,
            r matches ErrorT::Rust(e) ==> classified_kind(
                driver_shape(err),
                write_concern_codes(err),
                insert_many_write_errors(err),
                bulk_write_errors(err),
                e.kind,
            ) && driver_message_start().is_prefix_of(e.message@) && e.inner == err,
    {
        let shape = driver_error_shape(&err);
        let concern_codes = driver_write_concern_codes(&err);
        let insert_errors = driver_insert_many_write_errors(&err);
        let bulk_errors = driver_bulk_write_errors(&err);
        let kind = classify_shape(shape, &concern_codes, &insert_errors, &bulk_errors, Ghost(bulk_write_errors(err)));
        let message = driver_error_message(&err);
        ErrorT::from_driver_parts(kind, message, err)
    }

    /// Wraps a BSON error, keeping its rendered text.
    pub fn from_bson_error(err: mongodb::bson::error::Error) -> (r: Self)
        ensures
            r is Bson,
            r matches ErrorT::Bson(e) ==> e.message@ == bson_error_text(err),
            r matches ErrorT::Bson(e) ==> bson_message_start().is_prefix_of(e.message@),
    {
        ErrorT::Bson(BsonErrorT { message: bson_error_message(&err) })
    }

    /// A timeout: code `Timeout`, with the elapsed deadline's text as detail.
    pub fn from_elapsed(err: tokio::time::error::Elapsed) -> (r: Self)
        ensures
            r.is_mongoac(ErrorCodeT::Timeout, "deadline has elapsed"@),
    {
        let msg = elapsed_message(&err);
        ErrorT::MongoAC { code: ErrorCodeT::Timeout, message: Some(msg) }
    }
}

// The conversion carries text that no spec value can name, so no spec of it is
// offered; the inherent constructor that it calls states what holds.
impl FromSpecImpl<mongodb::error::Error> for ErrorT {
    open spec fn obeys_from_spec() -> bool {
        false
    }

    open spec fn from_spec(v: mongodb::error::Error) -> Self {
        ErrorT::NoError
    }
}

impl From<mongodb::error::Error> for ErrorT {
    fn from(err: mongodb::error::Error) -> (r: Self) {
        ErrorT::from_driver_error(err)
    }
}

// The conversion carries text that no spec value can name, so no spec of it is
// offered; the inherent constructor that it calls states what holds.
impl FromSpecImpl<mongodb::bson::error::Error> for ErrorT {
    open spec fn obeys_from_spec() -> bool {
        false
    }

    open spec fn from_spec(v: mongodb::bson::error::Error) -> Self {
        ErrorT::NoError
    }
}

impl From<mongodb::bson::error::Error> for ErrorT {
    fn from(err: mongodb::bson::error::Error) -> (r: Self) {
        ErrorT::from_bson_error(err)
    }
}

// The conversion carries text that no spec value can name, so no spec of it is
// offered; the inherent constructor that it calls states what holds.
impl FromSpecImpl<tokio::time::error::Elapsed> for ErrorT {
    open spec fn obeys_from_spec() -> bool {
        false
    }

    open spec fn from_spec(v: tokio::time::error::Elapsed) -> Self {
        ErrorT::NoError
    }
}

impl From<tokio::time::error::Elapsed> for ErrorT {
    fn from(err: tokio::time::error::Elapsed) -> (r: Self) {
        ErrorT::from_elapsed(err)
    }
}

impl Default for ErrorT {
    fn default() -> (r: Self)
        ensures
            r is NoError,
    {
        ErrorT::NoError
    }
}

impl Clone for ErrorT {
    fn clone(&self) -> (r: Self)
        ensures
            r.spec_category() == self.spec_category(),
            r.spec_code() == self.spec_code(),
            r.spec_message() == self.spec_message(),
    {
        self.duplicate()
    }
}

/// The empty error reports category none, code success, no message and no label.
pub proof fn lemma_empty_error_accessors()
    ensures
        ErrorT::NoError.spec_category() == ErrorCategoryT::NoError,
        ErrorT::NoError.spec_code() == ErrorCodeT::Success,
        ErrorT::NoError.spec_message() is None,
{
}

/// An error of the library's own reports its category, its code, and the code's
/// description joined to the detail.
pub proof fn lemma_mongoac_error_accessors(e: ErrorT, code: ErrorCodeT, msg: Seq<char>)
    requires
        e.is_mongoac(code, msg),
    ensures
        e.spec_category() == ErrorCategoryT::MongoAC,
        e.spec_code() == code,
        e.spec_message() == Some(code_message(code) + ": "@ + msg),
{
}

/// The category of an error, as its C number.
pub fn mongoac_error_category(error: &ErrorT) -> (r: mongoac_error_category_t)
    ensures
        r == category_to_i32(error.spec_category()),
{
    i32::from(error.category())
}

/// The code of an error, as its C number.
pub fn mongoac_error_code(error: &ErrorT) -> (r: mongoac_error_code_t)
    ensures
        r == code_to_i32(error.spec_code()),
{
    i32::from(error.code())
}

/// The message of an error as an owned C string; a null string when the error
/// has no message.
pub fn mongoac_error_message(error: &ErrorT) -> (r: crate::string::StringT)
    ensures
        error.spec_message() is None ==> r.data is None,
        error.spec_message() matches Some(m) ==> (r.data matches Some(b) && b@
            == vstd::utf8::encode_utf8(m)),
{
    match error.message() {
        Some(m) => crate::string::StringT::from_str(m.as_str()),
        None => crate::string::StringT { data: None },
    }
}

/// Whether the error carries the label; only driver errors carry labels.
pub fn mongoac_error_contains_label(error: &ErrorT, label: &str) -> (r: bool)
    ensures
        !(error is Server || error is Rust) ==> !r,
        error matches ErrorT::Server(e) ==> r == driver_labelled(e.inner, label@),
        error matches ErrorT::Rust(e) ==> r == driver_labelled(e.inner, label@),
{
    error.contains_label(label)
}

/// Each named error code is the integer of the C API: success 0, invalid
/// argument 1, runtime error 2, timeout 3, both ways.
pub proof fn lemma_error_codes_are_the_c_constants()
    ensures
        MONGOAC_ERROR_CODE_OK == 0,
        code_to_i32(ErrorCodeT::Success) == 0,
        code_from_i32(0) == ErrorCodeT::Success,
        MONGOAC_ERROR_CODE_INVALID_ARGUMENT == 1,
        code_to_i32(ErrorCodeT::InvalidArgument) == 1,
        code_from_i32(1) == ErrorCodeT::InvalidArgument,
        MONGOAC_ERROR_CODE_RUNTIME_ERROR == 2,
        code_to_i32(ErrorCodeT::RuntimeError) == 2,
        code_from_i32(2) == ErrorCodeT::RuntimeError,
        MONGOAC_ERROR_CODE_TIMEOUT == 3,
        code_to_i32(ErrorCodeT::Timeout) == 3,
        code_from_i32(3) == ErrorCodeT::Timeout,
{
}

/// Each named error category is the integer of the C API: none 0, the
/// library's own 1, server 2, Rust driver 3, BSON 4, both ways.
pub proof fn lemma_error_categories_are_the_c_constants()
    ensures
        MONGOAC_ERROR_CATEGORY_NONE == 0,
        category_to_i32(ErrorCategoryT::NoError) == 0,
        category_from_i32(0) == ErrorCategoryT::NoError,
        MONGOAC_ERROR_CATEGORY_MONGOAC == 1,
        category_to_i32(ErrorCategoryT::MongoAC) == 1,
        category_from_i32(1) == ErrorCategoryT::MongoAC,
        MONGOAC_ERROR_CATEGORY_SERVER == 2,
        category_to_i32(ErrorCategoryT::Server) == 2,
        category_from_i32(2) == ErrorCategoryT::Server,
        MONGOAC_ERROR_CATEGORY_RUST == 3,
        category_to_i32(ErrorCategoryT::Rust) == 3,
        category_from_i32(3) == ErrorCategoryT::Rust,
        MONGOAC_ERROR_CATEGORY_BSON == 4,
        category_to_i32(ErrorCategoryT::Bson) == 4,
        category_from_i32(4) == ErrorCategoryT::Bson,
{
}

} // verus!
