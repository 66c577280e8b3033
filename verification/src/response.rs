//! Classification and decoding of the service's answers.
//!
//! Every answer is a status code and a body.  A status outside the success
//! range is an [`ClientError::Api`] failure whatever the body holds.  A body
//! that is not JSON, or not of the shape the endpoint promises, is a
//! [`ClientError::Decode`] failure.  Each decoder comes in two parts: a
//! function on the parsed document, whose contract is exact, and a function
//! on the raw answer that checks the status, parses the body and hands the
//! document on.

use vstd::prelude::*;
use vstd::string::StringExecFns;
use crate::error::ClientError;
use crate::json::{
    as_bool, as_str, error_message, is_null, is_object, json_bool, json_is_null,
    json_is_object, json_member, json_parse, json_string, json_text, member, parse_value,
};
use crate::pagination::{cursor_view, CursorPage};
use crate::resource::Expected;

verus! {

/// The success range of HTTP status codes.
pub open spec fn status_is_success(status: u16) -> bool {
    200 <= status < 300
}

/// Whether an answer with this status and body is an API failure, and that
/// failure.
pub open spec fn is_api_failure(e: ClientError, status: u16, body: String) -> bool {
    e matches ClientError::Api { status: s, body: b } && s == status && b == body
}

/// Whether `r` is the API failure for this status and body.
pub open spec fn rejected<T>(r: Result<T, ClientError>, status: u16, body: String) -> bool {
    match r {
        Ok(_) => false,
        Err(e) => is_api_failure(e, status, body),
    }
}

/// Whether `r` is a decode failure.
pub open spec fn undecodable<T>(r: Result<T, ClientError>) -> bool {
    match r {
        Ok(_) => false,
        Err(e) => e is Decode,
    }
}

/// Whether a status code lies in the success range.
pub fn is_success(status: u16) -> (ok: bool)
    ensures
        ok == status_is_success(status),
{
    200 <= status && status < 300
}

/// Accepts an answer by its status alone: the body of a successful answer is
/// handed back for decoding, and any other answer becomes an API failure
/// that keeps the status and the body as received.
pub fn check_status(status: u16, body: String) -> (r: Result<String, ClientError>)
    ensures
        match r {
            Ok(text) => status_is_success(status) && text == body,
            Err(e) => !status_is_success(status) && is_api_failure(e, status, body),
        },
{
    if is_success(status) {
        Ok(body)
    } else {
        Err(ClientError::Api { status, body })
    }
}

/// Decodes the answer to a call that changes or deletes something: success
/// is signalled by the status alone, and the body is ignored.
pub fn decode_ack(status: u16, body: String) -> (r: Result<(), ClientError>)
    ensures
        match r {
            Ok(_) => status_is_success(status),
            Err(e) => !status_is_success(status) && is_api_failure(e, status, body),
        },
{
    match check_status(status, body) {
        Ok(_) => Ok(()),
        Err(e) => Err(e),
    }
}

/// Checks the status of an answer and parses its body.
pub fn parse_document(status: u16, body: String) -> (r: Result<serde_json::Value, ClientError>)
    ensures
        match r {
            Ok(doc) => status_is_success(status) && json_parse(body@) == Some(json_text(doc)),
            Err(e) => if status_is_success(status) {
                json_parse(body@) is None && e is Decode
            } else {
                is_api_failure(e, status, body)
            },
        },
{
    let text = check_status(status, body)?;
    match parse_value(text.as_str()) {
        Ok(doc) => Ok(doc),
        Err(e) => Err(ClientError::Decode { cause: error_message(&e) }),
    }
}

/// The string member `key` of a document, if it has one.
pub open spec fn string_member(doc: Seq<char>, key: Seq<char>) -> Option<Seq<char>> {
    match json_member(doc, key) {
        Some(m) => json_string(m),
        None => None,
    }
}

/// The boolean member `key` of a document, if it has one.
pub open spec fn bool_member(doc: Seq<char>, key: Seq<char>) -> Option<bool> {
    match json_member(doc, key) {
        Some(m) => json_bool(m),
        None => None,
    }
}

/// Reads the member `key` of a document as a string.  A member of another
/// type counts as absent.
pub fn read_string(doc: &serde_json::Value, key: &str) -> (r: Option<String>)
    ensures
        cursor_view(r) == string_member(json_text(*doc), key@),
{
    match member(doc, key) {
        Some(m) => match as_str(m) {
            Some(s) => Some(String::from_str(s)),
            None => None,
        },
        None => None,
    }
}

/// Reads the member `key` of a document as a boolean.  A member of another
/// type counts as absent.
pub fn read_bool(doc: &serde_json::Value, key: &str) -> (r: Option<bool>)
    ensures
        r == bool_member(json_text(*doc), key@),
{
    match member(doc, key) {
        Some(m) => as_bool(m),
        None => None,
    }
}

/// What a retrieval finds in a document: `None` where the document is no
/// object, `Some(None)` where the resource is absent or null, and otherwise
/// the resource, by its text.
pub open spec fn retrieved(doc: Seq<char>, key: Seq<char>) -> Option<Option<Seq<char>>> {
    if !json_is_object(doc) {
        None
    } else {
        match json_member(doc, key) {
            Some(m) => if json_is_null(m) {
                Some(None)
            } else {
                Some(Some(m))
            },
            None => Some(None),
        }
    }
}

/// Whether `r` is what a retrieval owes for a successfully parsed document.
pub open spec fn retrieval_matches(
    r: Result<Option<serde_json::Value>, ClientError>,
    doc: Seq<char>,
    key: Seq<char>,
) -> bool {
    match retrieved(doc, key) {
        None => undecodable(r),
        Some(None) => r matches Ok(None),
        Some(Some(m)) => r matches Ok(Some(found)) && json_text(found) == m,
    }
}

/// Finds the resource wrapped under `key` in the answer to a retrieval.  A
/// resource that is absent or null is reported as `None`: asking for a record
/// that does not exist is no failure.
pub fn retrieve_resource(doc: &serde_json::Value, key: &str) -> (r: Result<
    Option<serde_json::Value>,
    ClientError,
>)
    ensures
        retrieval_matches(r, json_text(*doc), key@),
{
    if !is_object(doc) {
        return Err(ClientError::Decode { cause: String::from_str("expected an object") });
    }
    match member(doc, key) {
        Some(m) => if is_null(m) {
            Ok(None)
        } else {
            Ok(Some(m.clone()))
        },
        None => Ok(None),
    }
}

/// Decodes the answer to a retrieval of the resource wrapped under `key`.
pub fn decode_retrieve(status: u16, body: String, key: &str) -> (r: Result<
    Option<serde_json::Value>,
    ClientError,
>)
    ensures
        !status_is_success(status) ==> rejected(r, status, body),
        status_is_success(status) ==> match json_parse(body@) {
            None => undecodable(r),
            Some(doc) => retrieval_matches(r, doc, key@),
        },
{
    let doc = parse_document(status, body)?;
    retrieve_resource(&doc, key)
}

/// Decodes the answer to a retrieval whose body is the record itself.  This
/// one endpoint is read leniently: a body that cannot be parsed is reported
/// as an absent record, not as a failure.
pub fn decode_lenient(status: u16, body: String) -> (r: Result<
    Option<serde_json::Value>,
    ClientError,
>)
    ensures
        !status_is_success(status) ==> rejected(r, status, body),
        status_is_success(status) ==> match json_parse(body@) {
            None => r matches Ok(None),
            Some(doc) => r matches Ok(Some(found)) && json_text(found) == doc,
        },
{
    let text = check_status(status, body)?;
    match parse_value(text.as_str()) {
        Ok(doc) => Ok(Some(doc)),
        Err(_) => Ok(None),
    }
}

/// The identifier that the answer to a creation carries: the string member
/// `id` of an object.
pub open spec fn created(doc: Seq<char>) -> Option<Seq<char>> {
    if json_is_object(doc) {
        string_member(doc, "id"@)
    } else {
        None
    }
}

/// Whether `r` is what a creation owes for a successfully parsed document.
pub open spec fn creation_matches(r: Result<String, ClientError>, doc: Seq<char>) -> bool {
    match created(doc) {
        Some(id) => r matches Ok(s) && s@ == id,
        None => undecodable(r),
    }
}

/// Reads the identifier of the record that a creation made.
pub fn created_id(doc: &serde_json::Value) -> (r: Result<String, ClientError>)
    ensures
        creation_matches(r, json_text(*doc)),
{
    if !is_object(doc) {
        return Err(ClientError::Decode { cause: String::from_str("expected an object") });
    }
    match read_string(doc, "id") {
        Some(id) => Ok(id),
        None => Err(ClientError::Decode { cause: String::from_str("missing field `id`") }),
    }
}

/// Decodes the answer to a creation.
pub fn decode_created(status: u16, body: String) -> (r: Result<String, ClientError>)
    ensures
        !status_is_success(status) ==> rejected(r, status, body),
        status_is_success(status) ==> match json_parse(body@) {
            None => undecodable(r),
            Some(doc) => creation_matches(r, doc),
        },
{
    let doc = parse_document(status, body)?;
    created_id(&doc)
}

/// One page of an offset-paginated listing, its records still undecoded.
#[derive(Debug, Clone)]
pub struct OffsetPage {
    /// Whether the server holds records past this page.
    pub has_more: bool,
    /// The cursor of the next page, for the listings that name one.
    pub cursor: Option<String>,
    /// The array of records.
    pub items: serde_json::Value,
}

/// What an offset-paginated listing finds in a document: the `hasMore` flag
/// and the text of the member `key`, where the document is an object that
/// has both.
pub open spec fn offset_page_of(doc: Seq<char>, key: Seq<char>) -> Option<(bool, Seq<char>)> {
    if !json_is_object(doc) {
        None
    } else {
        match (bool_member(doc, "hasMore"@), json_member(doc, key)) {
            (Some(more), Some(items)) => Some((more, items)),
            _ => None,
        }
    }
}

/// Whether `r` is what an offset-paginated listing owes for a successfully
/// parsed document.
pub open spec fn offset_page_matches(
    r: Result<OffsetPage, ClientError>,
    doc: Seq<char>,
    key: Seq<char>,
) -> bool {
    match offset_page_of(doc, key) {
        Some((more, items)) => r matches Ok(page) && page.has_more == more && json_text(
            page.items,
        ) == items && cursor_view(page.cursor) == string_member(doc, "cursor"@),
        None => undecodable(r),
    }
}

/// Reads one page of an offset-paginated listing whose records stand under
/// `key`.
pub fn offset_page(doc: &serde_json::Value, key: &str) -> (r: Result<OffsetPage, ClientError>)
    ensures
        offset_page_matches(r, json_text(*doc), key@),
{
    if !is_object(doc) {
        return Err(ClientError::Decode { cause: String::from_str("expected an object") });
    }
    let has_more = match read_bool(doc, "hasMore") {
        Some(b) => b,
        None => {
            return Err(ClientError::Decode { cause: String::from_str("missing field `hasMore`") });
        },
    };
    match member(doc, key) {
        Some(items) => Ok(
            OffsetPage { has_more, cursor: read_string(doc, "cursor"), items: items.clone() },
        ),
        None => Err(ClientError::Decode { cause: String::from_str("missing list of records") }),
    }
}

/// Decodes the answer to an offset-paginated listing.
pub fn decode_offset_page(status: u16, body: String, key: &str) -> (r: Result<
    OffsetPage,
    ClientError,
>)
    ensures
        !status_is_success(status) ==> rejected(r, status, body),
        status_is_success(status) ==> match json_parse(body@) {
            None => undecodable(r),
            Some(doc) => offset_page_matches(r, doc, key@),
        },
{
    let doc = parse_document(status, body)?;
    offset_page(&doc, key)
}

/// Where a cursor-paginated answer carries its records.
#[derive(Debug, Clone)]
pub enum PagePayload {
    /// Under `items`, the current name.
    Items(serde_json::Value),
    /// Under the resource's own name, the former one.
    LegacyNamed(serde_json::Value),
    /// Under neither: the page holds no records.
    Empty,
}

/// A payload, each array by its text.
pub enum PayloadModel {
    Items(Seq<char>),
    LegacyNamed(Seq<char>),
    Empty,
}

impl View for PagePayload {
    type V = PayloadModel;

    open spec fn view(&self) -> PayloadModel {
        match *self {
            PagePayload::Items(v) => PayloadModel::Items(json_text(v)),
            PagePayload::LegacyNamed(v) => PayloadModel::LegacyNamed(json_text(v)),
            PagePayload::Empty => PayloadModel::Empty,
        }
    }
}

/// The payload of a document: `items` first, else the legacy name, else
/// nothing.
pub open spec fn payload_of(doc: Seq<char>, legacy_key: Seq<char>) -> PayloadModel {
    match json_member(doc, "items"@) {
        Some(items) => PayloadModel::Items(items),
        None => match json_member(doc, legacy_key) {
            Some(items) => PayloadModel::LegacyNamed(items),
            None => PayloadModel::Empty,
        },
    }
}

/// Finds the records of a page, under `items` or else under `legacy_key`.
pub fn find_payload(doc: &serde_json::Value, legacy_key: &str) -> (payload: PagePayload)
    ensures
        payload@ == payload_of(json_text(*doc), legacy_key@),
{
    match member(doc, "items") {
        Some(items) => PagePayload::Items(items.clone()),
        None => match member(doc, legacy_key) {
            Some(items) => PagePayload::LegacyNamed(items.clone()),
            None => PagePayload::Empty,
        },
    }
}

/// One page of a cursor-paginated listing, its records still undecoded.
#[derive(Debug, Clone)]
pub struct RawCursorPage {
    pub payload: PagePayload,
    /// The `hasNextPage` flag, where the answer carries one.
    pub has_next_page: Option<bool>,
    /// The cursor of the next page, where the answer carries one.
    pub cursor: Option<String>,
}

/// Whether `r` is what a cursor-paginated listing owes for a successfully
/// parsed document.
pub open spec fn cursor_page_matches(
    r: Result<RawCursorPage, ClientError>,
    doc: Seq<char>,
    legacy_key: Seq<char>,
) -> bool {
    if json_is_object(doc) {
        r matches Ok(page) && page.payload@ == payload_of(doc, legacy_key) && page.has_next_page
            == bool_member(doc, "hasNextPage"@) && cursor_view(page.cursor) == string_member(
            doc,
            "cursor"@,
        )
    } else {
        undecodable(r)
    }
}

/// Reads one page of a cursor-paginated listing.  The answer must be an
/// object; a missing flag or cursor is reported as `None`.
pub fn cursor_page(doc: &serde_json::Value, legacy_key: &str) -> (r: Result<
    RawCursorPage,
    ClientError,
>)
    ensures
        cursor_page_matches(r, json_text(*doc), legacy_key@),
{
    if !is_object(doc) {
        return Err(ClientError::Decode { cause: String::from_str("Expected object response") });
    }
    let payload = find_payload(doc, legacy_key);
    let has_next_page = read_bool(doc, "hasNextPage");
    let cursor = read_string(doc, "cursor");
    Ok(RawCursorPage { payload, has_next_page, cursor })
}

/// Decodes the answer to a cursor-paginated listing.
pub fn decode_cursor_page(status: u16, body: String, legacy_key: &str) -> (r: Result<
    RawCursorPage,
    ClientError,
>)
    ensures
        !status_is_success(status) ==> rejected(r, status, body),
        status_is_success(status) ==> match json_parse(body@) {
            None => undecodable(r),
            Some(doc) => cursor_page_matches(r, doc, legacy_key@),
        },
{
    let doc = parse_document(status, body)?;
    cursor_page(&doc, legacy_key)
}

/// Decodes the answer to a listing that is served whole under `key`.  A
/// document without that member lists nothing.
pub fn decode_listing(status: u16, body: String, key: &str) -> (r: Result<
    Option<serde_json::Value>,
    ClientError,
>)
    ensures
        !status_is_success(status) ==> rejected(r, status, body),
        status_is_success(status) ==> match json_parse(body@) {
            None => undecodable(r),
            Some(doc) => match json_member(doc, key@) {
                Some(items) => r matches Ok(Some(found)) && json_text(found) == items,
                None => r matches Ok(None),
            },
        },
{
    let doc = parse_document(status, body)?;
    match member(&doc, key) {
        Some(items) => Ok(Some(items.clone())),
        None => Ok(None),
    }
}

/// A successful answer, decoded as far as its shape goes.  Records are
/// handed out as JSON values, for the caller to read into typed records.
#[derive(Debug, Clone)]
pub enum Decoded {
    Ack,
    Created(String),
    Resource(Option<serde_json::Value>),
    Page(OffsetPage),
    CursorPage(RawCursorPage),
    Listing(Option<serde_json::Value>),
}

/// What `r` must be for a successfully parsed document `doc`, by the shape
/// the endpoint answers in.
pub open spec fn document_matches(r: Result<Decoded, ClientError>, expects: Expected, doc: Seq<char>) -> bool {
    match expects {
        Expected::Ack => r matches Ok(Decoded::Ack),
        Expected::LenientRecord => r matches Ok(Decoded::Resource(Some(found))) && json_text(found)
            == doc,
        Expected::Created => match r {
            Ok(Decoded::Created(id)) => creation_matches(Ok(id), doc),
            Ok(_) => false,
            Err(e) => creation_matches(Err(e), doc),
        },
        Expected::Resource(kind) => match r {
            Ok(Decoded::Resource(found)) => retrieval_matches(Ok(found), doc, kind.singular_key()),
            Ok(_) => false,
            Err(e) => retrieval_matches(Err(e), doc, kind.singular_key()),
        },
        Expected::Page(kind) => match r {
            Ok(Decoded::Page(page)) => offset_page_matches(Ok(page), doc, kind.plural_key()),
            Ok(_) => false,
            Err(e) => offset_page_matches(Err(e), doc, kind.plural_key()),
        },
        Expected::CursorPage(kind) => match r {
            Ok(Decoded::CursorPage(page)) => cursor_page_matches(Ok(page), doc, kind.plural_key()),
            Ok(_) => false,
            Err(e) => cursor_page_matches(Err(e), doc, kind.plural_key()),
        },
        Expected::Listing(kind) => match json_member(doc, kind.plural_key()) {
            Some(items) => r matches Ok(Decoded::Listing(Some(found))) && json_text(found) == items,
            None => r matches Ok(Decoded::Listing(None)),
        },
    }
}

/// Whether `r` is what the answer `status`, `body` comes to for an endpoint
/// that answers in the shape `expects`: an API failure for a status outside
/// the success range; success on the status alone where the body is
/// ignored; otherwise what the parsed body holds, where a body that cannot
/// be parsed is a decode failure, or an absent record for the one endpoint
/// that is read leniently.
pub open spec fn decoded_matches(
    r: Result<Decoded, ClientError>,
    expects: Expected,
    status: u16,
    body: String,
) -> bool {
    if !status_is_success(status) {
        rejected(r, status, body)
    } else if expects == Expected::Ack {
        r matches Ok(Decoded::Ack)
    } else {
        match json_parse(body@) {
            Some(doc) => document_matches(r, expects, doc),
            None => if expects == Expected::LenientRecord {
                r matches Ok(Decoded::Resource(None))
            } else {
                undecodable(r)
            },
        }
    }
}

/// Decodes the answer of an endpoint according to the shape it answers in.
pub fn decode_response(expects: Expected, status: u16, body: String) -> (r: Result<
    Decoded,
    ClientError,
>)
    ensures
        decoded_matches(r, expects, status, body),
{
    match expects {
        Expected::Ack => match decode_ack(status, body) {
            Ok(_) => Ok(Decoded::Ack),
            Err(e) => Err(e),
        },
        Expected::Created => match decode_created(status, body) {
            Ok(id) => Ok(Decoded::Created(id)),
            Err(e) => Err(e),
        },
        Expected::Resource(kind) => match decode_retrieve(status, body, kind.singular()) {
            Ok(found) => Ok(Decoded::Resource(found)),
            Err(e) => Err(e),
        },
        Expected::Page(kind) => match decode_offset_page(status, body, kind.plural()) {
            Ok(page) => Ok(Decoded::Page(page)),
            Err(e) => Err(e),
        },
        Expected::CursorPage(kind) => match decode_cursor_page(status, body, kind.plural()) {
            Ok(page) => Ok(Decoded::CursorPage(page)),
            Err(e) => Err(e),
        },
        Expected::Listing(kind) => match decode_listing(status, body, kind.plural()) {
            Ok(found) => Ok(Decoded::Listing(found)),
            Err(e) => Err(e),
        },
        Expected::LenientRecord => match decode_lenient(status, body) {
            Ok(found) => Ok(Decoded::Resource(found)),
            Err(e) => Err(e),
        },
    }
}

/// Puts the decoded records of a cursor page together with its flags.  A
/// page without a `hasNextPage` flag announces no successor.
pub fn assemble_page<T>(items: Vec<T>, has_next_page: Option<bool>, cursor: Option<String>) -> (page:
    CursorPage<T>)
    ensures
        page.items == items,
        page.next_cursor == cursor,
        page.has_next == (has_next_page == Some(true)),
{
    let has_next = match has_next_page {
        Some(b) => b,
        None => false,
    };
    CursorPage { items, next_cursor: cursor, has_next }
}

} // verus!
