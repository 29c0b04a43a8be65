//! What a client decides without the network: the driver metadata it reports
//! and in which order, the buffer of recorded command events, and the arrays of
//! names it hands back as BSON documents.

use crate::bson::{is_framed_document, raw_document_bytes};
use crate::document::{
    document_encoding, document_encodes, document_keys, document_strings, document_subdocuments,
    encode_document, insert_string, insert_subdocument, new_document,
};
use crate::client_options::{ClientOptionsT, DriverInfoT};
use crate::error::ErrorT;
use crate::string::{opt_bytes, StringViewT};
use crate::text::{decimal, usize_to_string};
use crate::tls_options::opt_view;
use mongodb::bson::{Document, RawDocumentBuf};
use mongodb::event::command::CommandEvent;
use mongodb::results::DatabaseSpecification;
use std::collections::VecDeque;
use vstd::prelude::*;
use vstd::utf8::{decode_utf8, valid_utf8};

verus! {

#[verifier::external_type_specification]
#[verifier::external_body]
pub struct ExCommandEvent(mongodb::event::command::CommandEvent);

/// The name under which this library reports itself to servers.
pub open spec fn library_name() -> Seq<char> {
    "mongoac"@
}

/// Whether the metadata is this library's own, with the given version and
/// platform.
pub open spec fn is_library_info(info: DriverInfoT, version: Seq<char>, platform: Seq<char>) -> bool {
    &&& info.name@ == library_name()
    &&& opt_view(info.version) == Some(version)
    &&& opt_view(info.platform) == Some(platform)
}

/// This library's own metadata: its name, version and build platform.
pub fn build_driver_info(version: &str, platform: &str) -> (r: DriverInfoT)
    ensures
        is_library_info(r, version@, platform@),
{
    DriverInfoT {
        name: String::from_str("mongoac"),
        version: Some(String::from_str(version)),
        platform: Some(String::from_str(platform)),
    }
}

/// The metadata a client built from the options reports, in the order the
/// driver receives it: this library's own first, then the caller's, when the
/// options hold any.
pub fn driver_metadata(options: Option<&ClientOptionsT>, version: &str, platform: &str) -> (r: Vec<DriverInfoT>)
    ensures
        r@.len() >= 1,
        is_library_info(r@[0], version@, platform@),
        match options {
            Some(o) => match o.inner.driver_info {
                Some(user) => r@.len() == 2 && r@[1].same_as(&user),
                None => r@.len() == 1,
            },
            None => r@.len() == 1,
        },
{
    let mut r: Vec<DriverInfoT> = Vec::new();
    r.push(build_driver_info(version, platform));
    if let Some(o) = options {
        if let Some(user) = &o.inner.driver_info {
            r.push(user.duplicate());
        }
    }
    r
}

/// Whether a client built from the options records command events.
pub fn captures_command_events(options: Option<&ClientOptionsT>) -> (r: bool)
    ensures
        r == (options matches Some(o) && o.capture_command_events),
{
    match options {
        Some(o) => o.capture_command_events,
        None => false,
    }
}

/// The text of a view that may be null: `None` for a null view, the text for a
/// valid one, and an invalid-argument error when the bytes are not UTF-8.
pub fn optional_text(view: &StringViewT) -> (r: Result<Option<String>, ErrorT>)
    ensures
        view.data is None ==> r matches Ok(None),
        view.data is Some ==> (r is Ok <==> valid_utf8(opt_bytes(view.data))),
        view.data is Some ==> (r matches Ok(t) ==> t matches Some(s) && s@ == decode_utf8(
            opt_bytes(view.data),
        )),
        r matches Err(e) ==> e.spec_code() == crate::error::ErrorCodeT::InvalidArgument,
{
    if view.data.is_none() {
        return Ok(None);
    }
    let s = view.to_string_checked()?;
    Ok(Some(s))
}

/// The metadata a caller appends to a client: a null name reads as the empty
/// name, a null version or platform as none; text that is not UTF-8 is refused.
pub fn metadata_from_views(name: &StringViewT, version: &StringViewT, platform: &StringViewT) -> (r: Result<DriverInfoT, ErrorT>)
    ensures
        r is Ok <==> (name.data is Some ==> valid_utf8(opt_bytes(name.data))) && (version.data is Some
            ==> valid_utf8(opt_bytes(version.data))) && (platform.data is Some ==> valid_utf8(
            opt_bytes(platform.data),
        )),
        r matches Ok(info) ==> {
            &&& info.name@ == (if name.data is Some {
                decode_utf8(opt_bytes(name.data))
            } else {
                Seq::empty()
            })
            &&& opt_view(info.version) == (if version.data is Some {
                Some(decode_utf8(opt_bytes(version.data)))
            } else {
                None
            })
            &&& opt_view(info.platform) == (if platform.data is Some {
                Some(decode_utf8(opt_bytes(platform.data)))
            } else {
                None
            })
        },
{
    let name = match optional_text(name)? {
        Some(n) => n,
        None => String::new(),
    };
    let version = optional_text(version)?;
    let platform = optional_text(platform)?;
    Ok(DriverInfoT { name, version, platform })
}

/// The keys of a BSON array of the given length: "0", "1", ...
pub open spec fn array_keys(n: nat) -> Seq<Seq<char>> {
    Seq::new(n, |i: int| decimal(i as nat))
}

/// Whether the document holds exactly the names as a BSON array: keys "0",
/// "1", ... in order, each with the name at that index.
pub open spec fn holds_string_array(d: Document, names: Seq<Seq<char>>) -> bool {
    &&& document_keys(d) == array_keys(names.len())
    &&& forall|i: int| 0 <= i < names.len() ==> document_strings(d).contains_key(#[trigger] decimal(i as nat))
        && document_strings(d)[decimal(i as nat)] == names[i]
}

/// The names as a BSON array document: the element at index `i` has key `i`
/// in decimal. Such a document always encodes: its keys are digits and its
/// values strings.
pub fn strings_to_bson(names: &[String]) -> (r: Result<RawDocumentBuf, ErrorT>)
    ensures
        r is Ok,
        r matches Ok(raw) ==> is_framed_document(raw_document_bytes(raw)),
        r matches Ok(raw) ==> exists|d: Document|
            holds_string_array(d, names@.map_values(|s: String| s@)) && raw_document_bytes(raw)
                == #[trigger] document_encoding(d),
{
    let mut doc = new_document();
    let ghost views = names@.map_values(|s: String| s@);
    let mut i: usize = 0;
    assert(document_keys(doc) =~= array_keys(0));
    while i < names.len()
        invariant
            i <= names@.len(),
            views == names@.map_values(|s: String| s@),
            holds_string_array(doc, views.take(i as int)),
        decreases names@.len() - i,
    {
        let key = usize_to_string(i);
        proof {
            assert forall|j: int| 0 <= j < i implies #[trigger] decimal(j as nat) != decimal(i as nat) by {
                crate::text::lemma_decimal_injective(j as nat, i as nat);
            }
            assert(!document_keys(doc).contains(key@));
        }
        insert_string(&mut doc, key, &names[i]);
        i = i + 1;
        proof {
            assert(document_keys(doc) =~= array_keys(i as nat));
            assert(views.take(i as int).len() == i);
        }
    }
    assert(views.take(names@.len() as int) =~= views);
    proof {
        assert forall|k: int| 0 <= k < document_keys(doc).len() implies !(
        #[trigger] document_keys(doc)[k]).contains('\0') by {
            crate::text::lemma_decimal_has_no_nul(k as nat);
        }
        assert forall|k: int| 0 <= k < document_keys(doc).len() implies document_strings(
            doc,
        ).contains_key(#[trigger] document_keys(doc)[k]) by {
            assert(document_keys(doc)[k] == decimal(k as nat));
        }
    }
    match encode_document(&doc) {
        Ok(raw) => Ok(raw),
        Err(e) => Err(ErrorT::from_bson_error(e)),
    }
}

#[verifier::external_type_specification]
#[verifier::external_body]
pub struct ExDatabaseSpecification(mongodb::results::DatabaseSpecification);

/// The `size_on_disk` field of a database description.
pub uninterp spec fn specification_size_on_disk(spec: DatabaseSpecification) -> u64;

/// The document `bson::serialize_to_document` gives for a database
/// description (its name, size on disk, whether it is empty, its shards).
pub uninterp spec fn specification_as_document(spec: DatabaseSpecification) -> Document;

/// Calls `bson::serialize_to_document` on a database description. Its fields
/// are a string, a boolean, an optional document and a size that the driver
/// writes as an `i64`, refusing one beyond `i64::MAX`; so it fails exactly on
/// such a size. The document it gives is named.
#[verifier::external_body]
fn specification_document(spec: &DatabaseSpecification) -> (r: Result<Document, mongodb::bson::error::Error>)
    ensures
        r is Ok <==> specification_size_on_disk(*spec) <= i64::MAX,
        r matches Ok(d) ==> d == specification_as_document(*spec),
{
    mongodb::bson::serialize_to_document(spec)
}

/// Whether every description's size fits an `i64`.
pub open spec fn specification_sizes_fit(specs: Seq<DatabaseSpecification>) -> bool {
    forall|i: int| 0 <= i < specs.len() ==> specification_size_on_disk(#[trigger] specs[i]) <= i64::MAX
}

/// Whether the document holds the descriptions as a BSON array: keys "0", "1",
/// ... in order, each with the description at that index as a document.
pub open spec fn holds_specification_array(d: Document, specs: Seq<DatabaseSpecification>) -> bool {
    &&& document_keys(d) == array_keys(specs.len())
    &&& forall|i: int| 0 <= i < specs.len() ==> document_subdocuments(d).contains_key(
        #[trigger] decimal(i as nat),
    ) && document_subdocuments(d)[decimal(i as nat)] == specification_as_document(specs[i])
}

/// The database descriptions as a BSON array document: the description at
/// index `i`, as a document, has key `i` in decimal. A description whose size
/// does not fit an `i64` gives the BSON error; otherwise the result is the
/// array's encoding, where it encodes.
pub fn specs_to_bson_array(specs: &[DatabaseSpecification]) -> (r: Result<RawDocumentBuf, ErrorT>)
    ensures
        r matches Ok(raw) ==> is_framed_document(raw_document_bytes(raw)),
        !specification_sizes_fit(specs@) ==> r is Err,
        specification_sizes_fit(specs@) ==> exists|d: Document|
            #[trigger] holds_specification_array(d, specs@) && (r is Ok <==> document_encodes(d)) && (
            r matches Ok(raw) ==> raw_document_bytes(raw) == document_encoding(d)),
        r matches Err(e) ==> e is Bson,
{
    let mut doc = new_document();
    let mut i: usize = 0;
    assert(document_keys(doc) =~= array_keys(0));
    while i < specs.len()
        invariant
            i <= specs@.len(),
            holds_specification_array(doc, specs@.take(i as int)),
            specification_sizes_fit(specs@.take(i as int)),
        decreases specs@.len() - i,
    {
        let key = usize_to_string(i);
        proof {
            assert forall|j: int| 0 <= j < i implies #[trigger] decimal(j as nat) != decimal(i as nat) by {
                crate::text::lemma_decimal_injective(j as nat, i as nat);
            }
            assert(!document_keys(doc).contains(key@));
        }
        let sub = match specification_document(&specs[i]) {
            Ok(s) => s,
            Err(e) => {
                assert(!specification_sizes_fit(specs@)) by {
                    assert(specification_size_on_disk(specs@[i as int]) > i64::MAX);
                }
                return Err(ErrorT::from_bson_error(e));
            },
        };
        insert_subdocument(&mut doc, key, sub);
        i = i + 1;
        proof {
            assert(document_keys(doc) =~= array_keys(i as nat));
            let t = specs@.take(i as int);
            assert forall|j: int| 0 <= j < t.len() implies specification_size_on_disk(#[trigger] t[j])
                <= i64::MAX by {
                if j < i - 1 {
                    assert(t[j] == specs@.take(i - 1)[j]);
                }
            }
            assert forall|j: int| 0 <= j < t.len() implies document_subdocuments(doc).contains_key(
                #[trigger] decimal(j as nat),
            ) && document_subdocuments(doc)[decimal(j as nat)] == specification_as_document(t[j]) by {
                if j < i - 1 {
                    assert(t[j] == specs@.take(i - 1)[j]);
                    crate::text::lemma_decimal_injective(j as nat, (i - 1) as nat);
                }
            }
        }
    }
    assert(specs@.take(specs@.len() as int) =~= specs@);
    match encode_document(&doc) {
        Ok(raw) => Ok(raw),
        Err(e) => Err(ErrorT::from_bson_error(e)),
    }
}

/// Whether `bson::serialize_to_raw_document_buf` succeeds on a command event.
/// That depends on the event alone: a failure's text is serialized as a string
/// whatever order its labels are rendered in, and its length does not depend
/// on that order.
pub uninterp spec fn command_event_serializes(ev: CommandEvent) -> bool;

/// Calls `bson::serialize_to_raw_document_buf` on a command event, which
/// serializes it and checks the bytes with `RawDocumentBuf::from_bytes`, so a
/// buffer it gives is framed. A failed event holds its error's rendered text,
/// which walks a hash set, so the bytes are not a function of the event and are
/// not stated; whether it succeeds is named.
#[verifier::external_body]
fn serialize_command_event(ev: &CommandEvent) -> (r: Result<RawDocumentBuf, mongodb::bson::error::Error>)
    ensures
        r is Ok <==> command_event_serializes(*ev),
        r matches Ok(raw) ==> is_framed_document(raw_document_bytes(raw)),
{
    mongodb::bson::serialize_to_raw_document_buf(ev)
}

/// The events left after dropping the first `n` (all of them when there are
/// fewer).
pub open spec fn drop_front<E>(s: Seq<E>, n: nat) -> Seq<E> {
    if n < s.len() {
        s.skip(n as int)
    } else {
        Seq::empty()
    }
}

/// The command events a client has recorded and not yet cleared, oldest first.
pub struct CommandEventLogT {
    pub events: VecDeque<CommandEvent>,
}

impl CommandEventLogT {
    /// An empty log.
    pub fn new() -> (r: Self)
        ensures
            r.events@.len() == 0,
    {
        CommandEventLogT { events: VecDeque::new() }
    }

    /// Records an event after the others.
    pub fn record(&mut self, ev: CommandEvent)
        ensures
            final(self).events@ == old(self).events@.push(ev),
    {
        self.events.push_back(ev);
    }

    /// The number of events held.
    pub fn count(&self) -> (r: usize)
        ensures
            r == self.events@.len(),
    {
        self.events.len()
    }

    /// The event at the index as a BSON document; `None` past the end, or when
    /// the event does not serialize.
    pub fn get(&self, index: usize) -> (r: Option<RawDocumentBuf>)
        ensures
            index >= self.events@.len() ==> r is None,
            index < self.events@.len() ==> (r is Some <==> command_event_serializes(
                self.events@[index as int],
            )),
            r matches Some(raw) ==> is_framed_document(raw_document_bytes(raw)),
    {
        if index >= self.events.len() {
            return None;
        }
        match serialize_command_event(&self.events[index]) {
            Ok(raw) => Some(raw),
            Err(_) => None,
        }
    }

    /// Drops the `n` oldest events, or all of them when there are fewer.
    pub fn clear(&mut self, n: usize)
        ensures
            final(self).events@ == drop_front(old(self).events@, n as nat),
    {
        let count = if n < self.events.len() {
            n
        } else {
            self.events.len()
        };
        let rest = self.events.split_off(count);
        self.events = rest;
    }
}

/// How many command events a client holds: none when it does not record them.
pub fn count_command_events(log: Option<&CommandEventLogT>) -> (r: usize)
    ensures
        r == match log {
            Some(l) => l.events@.len(),
            None => 0,
        },
{
    match log {
        Some(l) => l.count(),
        None => 0,
    }
}

/// A client's command-event log, if it has one, as the events it holds.
pub open spec fn log_view(log: Option<&CommandEventLogT>) -> Option<Seq<CommandEvent>> {
    match log {
        Some(l) => Some(l.events@),
        None => None,
    }
}

/// The log a client is built with: one, empty, exactly when the options ask
/// for command events to be captured. The options are read once; changing them
/// afterwards does not touch the log.
pub fn new_command_log(options: Option<&ClientOptionsT>) -> (r: Option<CommandEventLogT>)
    ensures
        r is Some <==> (options matches Some(o) && o.capture_command_events),
        r matches Some(l) ==> l.events@.len() == 0,
{
    if captures_command_events(options) {
        Some(CommandEventLogT::new())
    } else {
        None
    }
}

/// The event at the index as a BSON document: none for a client without a log,
/// otherwise as `CommandEventLogT::get` gives it.
pub fn command_event_at(log: Option<&CommandEventLogT>, index: usize) -> (r: Option<RawDocumentBuf>)
    ensures
        log is None ==> r is None,
        log matches Some(l) ==> (index >= l.events@.len() ==> r is None),
        log matches Some(l) ==> (index < l.events@.len() ==> (r is Some <==> command_event_serializes(
            l.events@[index as int],
        ))),
        r matches Some(raw) ==> is_framed_document(raw_document_bytes(raw)),
{
    match log {
        Some(l) => l.get(index),
        None => None,
    }
}

/// What happens to a client's log: an event the driver reports, or a request
/// to clear the oldest events.
pub enum CommandLogOpT {
    Record(CommandEvent),
    Clear(usize),
}

/// The log after one operation: a client without a log has nothing to record
/// into (the driver is given no handler) and nothing to clear.
pub open spec fn log_step(log: Option<Seq<CommandEvent>>, op: CommandLogOpT) -> Option<Seq<CommandEvent>> {
    match log {
        None => None,
        Some(s) => match op {
            CommandLogOpT::Record(ev) => Some(s.push(ev)),
            CommandLogOpT::Clear(n) => Some(drop_front(s, n as nat)),
        },
    }
}

/// The log after a sequence of operations, in order.
pub open spec fn log_after(log: Option<Seq<CommandEvent>>, ops: Seq<CommandLogOpT>) -> Option<Seq<CommandEvent>>
    decreases ops.len(),
{
    if ops.len() == 0 {
        log
    } else {
        log_step(log_after(log, ops.drop_last()), ops.last())
    }
}

/// A client built without capturing command events never holds one: whatever
/// happens afterwards, it has no log, so it counts no events and gives none.
pub proof fn lemma_uncaptured_log_stays_empty(options: Option<ClientOptionsT>, ops: Seq<CommandLogOpT>)
    requires
        !(options matches Some(o) && o.capture_command_events),
    ensures
        log_after(None, ops) == None::<Seq<CommandEvent>>,
    decreases ops.len(),
{
    if ops.len() > 0 {
        lemma_uncaptured_log_stays_empty(options, ops.drop_last());
    }
}

/// Clearing `a` events and then `b` clears as much as clearing `a + b` at once.
pub proof fn lemma_clear_composes<E>(s: Seq<E>, a: nat, b: nat)
    ensures
        drop_front(drop_front(s, a), b) == drop_front(s, a + b),
{
    if a < s.len() {
        if b < s.len() - a {
            assert(s.skip(a as int).skip(b as int) =~= s.skip((a + b) as int));
        }
    }
}

/// After clearing `n` events, `n` fewer remain, or none.
pub proof fn lemma_clear_count<E>(s: Seq<E>, n: nat)
    ensures
        drop_front(s, n).len() == if n < s.len() {
            (s.len() - n) as nat
        } else {
            0
        },
{
}

/// A recorded event is counted: recording adds one to the count.
pub proof fn lemma_record_count<E>(s: Seq<E>, ev: E)
    ensures
        s.push(ev).len() == s.len() + 1,
        drop_front(s.push(ev), s.len()) == seq![ev],
{
    assert(s.push(ev).skip(s.len() as int) =~= seq![ev]);
}

} // verus!
