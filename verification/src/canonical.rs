//! JSON as bytes: parsing, the canonical form, and content read back.

use crate::error::WorkflowError;
use crate::ids::{sha256, Sha256};
use crate::json::{json_contents, JsonValue, JsonView, NumberView};
use crate::store::StoreError;
use crate::text::join2;
use philharmonic_types::CanonicalJson as OutsideJson;
use vstd::prelude::*;
use vstd::slice::slice_to_vec;

verus! {

/// What parsing some bytes as JSON gives: a value, or the message of the error.
pub uninterp spec fn json_parsed(bytes: Seq<u8>) -> Result<JsonView, Seq<char>>;

/// What writing a value in canonical form gives: bytes, or the message of the
/// error.
pub uninterp spec fn canonical_bytes(value: JsonView) -> Result<Seq<u8>, Seq<char>>;

/// A parse's outcome, as what it holds.
pub open spec fn parse_outcome(r: Result<serde_json::Value, String>) -> Result<
    JsonView,
    Seq<char>,
> {
    match r {
        Ok(value) => Ok(json_contents(value)),
        Err(message) => Err(message@),
    }
}

/// A canonicalisation's outcome, as what it holds.
pub open spec fn bytes_outcome(r: Result<Vec<u8>, String>) -> Result<Seq<u8>, Seq<char>> {
    match r {
        Ok(bytes) => Ok(bytes@),
        Err(message) => Err(message@),
    }
}

/// What reading some bytes as JSON and writing them in canonical form gives.
pub open spec fn recanonical_bytes(bytes: Seq<u8>) -> Result<Seq<u8>, Seq<char>> {
    match json_parsed(bytes) {
        Ok(value) => canonical_bytes(value),
        Err(message) => Err(message),
    }
}

/// A value nested no deeper than `depth`, whose numbers are all integers of no
/// more than 53 bits.
pub open spec fn plain(value: JsonView, depth: nat) -> bool
    decreases depth,
{
    match value {
        JsonView::Null => true,
        JsonView::Bool(_) => true,
        JsonView::String(_) => true,
        JsonView::Number(NumberView::Unsigned(n)) => n <= 9007199254740991,
        JsonView::Number(NumberView::Negative(n)) => -9007199254740991 <= n < 0,
        JsonView::Number(NumberView::Float(_)) => false,
        JsonView::Array(items) => depth > 0 && forall|i: int|
            0 <= i < items.len() ==> plain(#[trigger] items[i], (depth - 1) as nat),
        JsonView::Object(fields) => depth > 0 && forall|name: Seq<char>| #[trigger]
            fields.contains_key(name) ==> plain(fields[name], (depth - 1) as nat),
    }
}

/// A value that is read back as it was written: one that is plain, and nested
/// no deeper than the parser goes.
pub open spec fn round_trips(value: JsonView) -> bool {
    plain(value, 127)
}

/// A value nested no deeper than `depth`.
pub open spec fn shallow(value: JsonView, depth: nat) -> bool
    decreases depth,
{
    match value {
        JsonView::Array(items) => depth > 0 && forall|i: int|
            0 <= i < items.len() ==> shallow(#[trigger] items[i], (depth - 1) as nat),
        JsonView::Object(fields) => depth > 0 && forall|name: Seq<char>| #[trigger]
            fields.contains_key(name) ==> shallow(fields[name], (depth - 1) as nat),
        _ => true,
    }
}

/// A value nested no deeper than the parser goes.
pub open spec fn parsable(value: JsonView) -> bool {
    shallow(value, 127)
}

/// The bytes are the canonical form of a value.
pub open spec fn is_canonical(bytes: Seq<u8>) -> bool {
    exists|value: JsonView| (#[trigger] canonical_bytes(value)) matches Ok(form) && form == bytes
}

/// The bytes parse, and reading them as canonical JSON gives what they hold: they
/// are in canonical form, or hold a value that round-trips.
pub open spec fn faithful(bytes: Seq<u8>) -> bool {
    json_parsed(bytes) matches Ok(value) && (is_canonical(bytes) || round_trips(value))
}

/// The bytes hold the value.
pub open spec fn holds(bytes: Seq<u8>, value: JsonView) -> bool {
    json_parsed(bytes) matches Ok(read) && read == value
}

/// `serde_json::from_slice` into a `serde_json::Value`: the value, or the
/// error's message. The outcome hangs on the bytes alone.
#[verifier::external_body]
fn parse_slice(bytes: &[u8]) -> (r: Result<serde_json::Value, String>)
    ensures
        parse_outcome(r) == json_parsed(bytes@),
{
    match serde_json::from_slice::<serde_json::Value>(bytes) {
        Ok(value) => Ok(value),
        Err(error) => Err(error.to_string()),
    }
}

/// `philharmonic_types::CanonicalJson::from_value`: the canonical bytes, which
/// hang on what the value is alone. Every value has them: its floats are finite,
/// and nothing else fails. They parse where the value is not nested deeper than
/// the parser goes. What is read in them is the value itself, where it has no
/// floats and no integers of more than 53 bits: an integer is written through a
/// double, strings are escaped as the parser unescapes them, and fields are only
/// reordered. Of other numbers it is left unsaid which variant is read: a float
/// without a fraction is written as an integer.
#[verifier::external_body]
fn canonicalize_value(value: &serde_json::Value) -> (r: Result<Vec<u8>, String>)
    ensures
        bytes_outcome(r) == canonical_bytes(json_contents(*value)),
        r is Ok,
        parsable(json_contents(*value)) ==> json_parsed(r->Ok_0@) is Ok,
        round_trips(json_contents(*value)) ==> holds(r->Ok_0@, json_contents(*value)),
{
    match philharmonic_types::CanonicalJson::from_value(value) {
        Ok(canonical) => Ok(canonical.into_bytes()),
        Err(philharmonic_types::CanonError::Json(error)) => Err(error.to_string()),
    }
}

/// `philharmonic_types::CanonicalJson::from_bytes`, which parses the bytes as
/// `serde_json::from_slice` does and then writes the value in canonical form:
/// the canonical bytes, or the message of the error in parsing. Bytes that parse
/// have a canonical form, which is nested as deep as they are and so parses too.
/// Bytes that already are a canonical form come out as they are: a number in
/// them is the shortest text of a double, floats are read exactly, and what is
/// read is that double or the integer that rounds to it. A value that
/// `CanonicalJson::from_value` keeps is kept here too.
#[verifier::external_body]
fn canonicalize_slice(bytes: &[u8]) -> (r: Result<Vec<u8>, String>)
    ensures
        bytes_outcome(r) == recanonical_bytes(bytes@),
        json_parsed(bytes@) is Ok ==> r is Ok && json_parsed(r->Ok_0@) is Ok,
        json_parsed(bytes@) is Ok && is_canonical(bytes@) ==> r->Ok_0@ == bytes@,
        json_parsed(bytes@) matches Ok(value) ==> round_trips(value) ==> holds(r->Ok_0@, value),
{
    match philharmonic_types::CanonicalJson::from_bytes(bytes) {
        Ok(canonical) => Ok(canonical.into_bytes()),
        Err(philharmonic_types::CanonError::Json(error)) => Err(error.to_string()),
    }
}

/// `philharmonic_types::CanonicalJson`, which enters the library as its bytes.
#[verifier::external_type_specification]
#[verifier::external_body]
pub struct ExCanonicalJson(OutsideJson);

/// The bytes of a `philharmonic_types::CanonicalJson`.
pub uninterp spec fn canonical_contents(value: OutsideJson) -> Seq<u8>;

/// `philharmonic_types::CanonicalJson::into_bytes`: the bytes inside. Every way
/// of making such a value goes through `CanonicalJson::from_value`, so that they
/// are some value's canonical form.
#[verifier::external_body]
fn canonical_into_bytes(value: OutsideJson) -> (r: Vec<u8>)
    ensures
        r@ == canonical_contents(value),
        is_canonical(r@),
{
    value.into_bytes()
}

/// A value has no canonical form, or bytes are not JSON.
#[derive(Clone, Debug, PartialEq, Eq)]
pub struct CanonError {
    /// What is wrong.
    pub detail: String,
}

impl CanonError {
    /// The error's message.
    pub open spec fn spec_message(self) -> Seq<char> {
        "invalid JSON: "@ + self.detail@
    }

    /// The error's message.
    pub fn message(&self) -> (r: String)
        ensures
            r@ == self.spec_message(),
    {
        join2("invalid JSON: ", self.detail.as_str())
    }
}

/// JSON in its canonical form, as bytes: what content digests are taken of.
#[derive(Debug, PartialEq, Eq)]
pub struct CanonicalJson {
    bytes: Vec<u8>,
}

impl Clone for CanonicalJson {
    fn clone(&self) -> (r: CanonicalJson)
        ensures
            r@ == self@,
    {
        self.duplicate()
    }
}

impl View for CanonicalJson {
    type V = Seq<u8>;

    closed spec fn view(&self) -> Seq<u8> {
        self.bytes@
    }
}

/// What a canonicalisation came to, against what it had to come to.
pub open spec fn canonical_outcome(
    r: Result<CanonicalJson, CanonError>,
) -> Result<Seq<u8>, Seq<char>> {
    match r {
        Ok(canonical) => Ok(canonical@),
        Err(error) => Err(error.detail@),
    }
}

impl CanonicalJson {
    /// The bytes are a canonical form.
    #[verifier::type_invariant]
    spec fn canonical(self) -> bool {
        is_canonical(self.bytes@)
    }

    /// Writes a value in canonical form. This never fails.
    pub fn from_value(value: &JsonValue) -> (r: Result<CanonicalJson, CanonError>)
        ensures
            canonical_outcome(r) == canonical_bytes(value@),
            r is Ok,
            is_canonical(r->Ok_0@),
            parsable(value@) ==> json_parsed(r->Ok_0@) is Ok,
            round_trips(value@) ==> holds(r->Ok_0@, value@),
            round_trips(value@) ==> content_json(r->Ok_0@) == ContentView::Json(value@),
    {
        let outside = value.to_serde();
        match canonicalize_value(&outside) {
            Ok(bytes) => Ok(CanonicalJson { bytes }),
            Err(detail) => Err(CanonError { detail }),
        }
    }

    /// Reads any JSON and writes it in canonical form.
    pub fn from_bytes(bytes: &[u8]) -> (r: Result<CanonicalJson, CanonError>)
        ensures
            canonical_outcome(r) == recanonical_bytes(bytes@),
            r is Ok <==> json_parsed(bytes@) is Ok,
            r matches Ok(canonical) ==> is_canonical(canonical@) && json_parsed(canonical@) is Ok,
            r matches Ok(canonical) ==> is_canonical(bytes@) ==> canonical@ == bytes@,
            json_parsed(bytes@) matches Ok(value) ==> round_trips(value) ==> holds(
                r->Ok_0@,
                value,
            ),
    {
        match canonicalize_slice(bytes) {
            Ok(bytes) => Ok(CanonicalJson { bytes }),
            Err(detail) => Err(CanonError { detail }),
        }
    }

    /// Takes canonical JSON over from the store's types.
    pub fn from_outside(value: OutsideJson) -> (r: CanonicalJson)
        ensures
            r@ == canonical_contents(value),
            is_canonical(r@),
    {
        CanonicalJson { bytes: canonical_into_bytes(value) }
    }

    /// The same canonical JSON.
    pub fn duplicate(&self) -> (r: CanonicalJson)
        ensures
            r@ == self@,
    {
        proof {
            use_type_invariant(self);
        }
        CanonicalJson { bytes: slice_to_vec(self.bytes.as_slice()) }
    }

    /// The canonical bytes.
    pub fn as_bytes(&self) -> (r: &[u8])
        ensures
            r@ == self@,
            is_canonical(r@),
    {
        proof {
            use_type_invariant(self);
        }
        self.bytes.as_slice()
    }

    /// The canonical bytes.
    pub fn into_bytes(self) -> (r: Vec<u8>)
        ensures
            r@ == self@,
            is_canonical(r@),
    {
        proof {
            use_type_invariant(&self);
        }
        self.bytes
    }

    /// The digest of the canonical bytes.
    pub fn digest(&self) -> (r: Sha256)
        ensures
            r == sha256(self@),
    {
        Sha256::of(self.bytes.as_slice())
    }
}

/// Parses JSON; objects come out with their fields in order.
pub fn parse_json(bytes: &[u8]) -> (r: Result<JsonValue, String>)
    ensures
        json_parsed(bytes@) matches Ok(value) ==> r is Ok && r->Ok_0@ == value,
        json_parsed(bytes@) matches Err(message) ==> r is Err && r->Err_0@ == message,
        r is Ok ==> r->Ok_0.ordered(),
{
    match parse_slice(bytes) {
        Ok(value) => Ok(JsonValue::from_serde(value)),
        Err(message) => Err(message),
    }
}

/// The value that canonical JSON holds.
pub fn canonical_to_json(value: &CanonicalJson) -> (r: Result<JsonValue, WorkflowError>)
    ensures
        json_parsed(value@) matches Ok(json) ==> r is Ok && r->Ok_0@ == json,
        json_parsed(value@) matches Err(message) ==> r is Err && r->Err_0.is_json_error(
            "failed to parse canonical JSON: "@ + message,
        ),
        r is Ok ==> r->Ok_0.ordered(),
{
    match parse_json(value.as_bytes()) {
        Ok(json) => Ok(json),
        Err(message) => Err(
            WorkflowError::json(join2("failed to parse canonical JSON: ", message.as_str())),
        ),
    }
}

/// What reading stored bytes as canonical JSON gives: the value, or what is
/// wrong with them.
pub enum ContentView {
    /// The bytes hold this value.
    Json(JsonView),
    /// The bytes do not decode, with this message.
    Undecodable(Seq<char>),
    /// The decoded bytes do not parse, with this message.
    Unparsable(Seq<char>),
}

/// What reading stored bytes as canonical JSON gives: they are brought into
/// canonical form, and that is parsed.
pub open spec fn content_json(bytes: Seq<u8>) -> ContentView {
    match recanonical_bytes(bytes) {
        Err(message) => ContentView::Undecodable(message),
        Ok(canonical) => match json_parsed(canonical) {
            Ok(value) => ContentView::Json(value),
            Err(message) => ContentView::Unparsable(message),
        },
    }
}

/// Reads stored bytes as canonical JSON.
pub fn decode_json_content(bytes: &[u8]) -> (r: Result<JsonValue, WorkflowError>)
    ensures
        r is Ok <==> json_parsed(bytes@) is Ok,
        faithful(bytes@) ==> r->Ok_0@ == json_parsed(bytes@)->Ok_0,
        match content_json(bytes@) {
            ContentView::Json(value) => r is Ok && r->Ok_0@ == value && r->Ok_0.ordered(),
            ContentView::Undecodable(message) => r is Err && r->Err_0.is_decode_error(
                "content bytes are not valid JSON: "@ + message,
            ),
            ContentView::Unparsable(message) => r is Err && r->Err_0.is_json_error(
                "failed to parse canonical JSON: "@ + message,
            ),
        },
{
    match CanonicalJson::from_bytes(bytes) {
        Err(error) => Err(
            WorkflowError::Store(
                StoreError::Decode {
                    detail: join2("content bytes are not valid JSON: ", error.detail.as_str()),
                },
            ),
        ),
        Ok(canonical) => canonical_to_json(&canonical),
    }
}

/// JSON read, against the content found: it must be there, and be JSON.
/// Bytes in canonical form are read as what they hold.
pub open spec fn json_read(
    found: Result<Option<Vec<u8>>, StoreError>,
    entity_name: &'static str,
    attribute: &'static str,
    hash: Sha256,
    r: Result<JsonValue, WorkflowError>,
) -> bool {
    &&& match found {
        Err(error) => r is Err && r->Err_0 == WorkflowError::Store(error),
        Ok(None) => r is Err && r->Err_0 == (WorkflowError::MissingContentBlob {
            entity_name,
            attribute,
            hash,
        }),
        Ok(Some(bytes)) => match content_json(bytes@) {
            ContentView::Json(value) => r is Ok && r->Ok_0@ == value,
            ContentView::Undecodable(message) => r is Err && r->Err_0.is_decode_error(
                "content bytes are not valid JSON: "@ + message,
            ),
            ContentView::Unparsable(message) => r is Err && r->Err_0.is_json_error(
                "failed to parse canonical JSON: "@ + message,
            ),
        },
    }
    &&& found matches Ok(Some(bytes)) ==> (r is Ok <==> json_parsed(bytes@) is Ok)
    &&& found matches Ok(Some(bytes)) ==> faithful(bytes@) ==> r->Ok_0@ == json_parsed(
        bytes@,
    )->Ok_0
}

/// Reads JSON from the content found.
pub fn load_json_content(
    found: Result<Option<Vec<u8>>, StoreError>,
    hash: Sha256,
    entity_name: &'static str,
    attribute: &'static str,
) -> (r: Result<JsonValue, WorkflowError>)
    ensures
        json_read(found, entity_name, attribute, hash, r),
        r is Ok ==> r->Ok_0.ordered(),
{
    match found {
        Err(error) => Err(WorkflowError::Store(error)),
        Ok(None) => Err(WorkflowError::MissingContentBlob { entity_name, attribute, hash }),
        Ok(Some(bytes)) => decode_json_content(bytes.as_slice()),
    }
}

} // verus!
