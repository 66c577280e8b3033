//! The decisions of the command layer: what to validate before a call, how
//! to turn command-line values into request fields, and which hint to print
//! after a page of results.

use vstd::prelude::*;
use vstd::string::{StrSliceExecFns, StringExecFns};
use crate::error::ClientError;
use crate::json::{json_parse, json_text, parse_value};

verus! {

/// Whether `r` is the validation failure with this message.
pub open spec fn invalid(r: Result<(), ClientError>, text: Seq<char>) -> bool {
    match r {
        Ok(_) => false,
        Err(e) => e matches ClientError::Validation { message } && message@ == text,
    }
}

/// A record is looked up by `--id` or by `--url-name`: one of them is needed.
pub fn require_id_or_url_name(id: Option<&str>, url_name: Option<&str>) -> (r: Result<
    (),
    ClientError,
>)
    ensures
        id is Some || url_name is Some ==> r is Ok,
        id is None && url_name is None ==> invalid(
            r,
            "Either --id or --url-name must be provided"@,
        ),
{
    if id.is_none() && url_name.is_none() {
        Err(
            ClientError::Validation {
                message: String::from_str("Either --id or --url-name must be provided"),
            },
        )
    } else {
        Ok(())
    }
}

/// A user is retrieved by `--id` or by `--email`: one of them is needed.
pub fn require_id_or_email(id: Option<&str>, email: Option<&str>) -> (r: Result<(), ClientError>)
    ensures
        id is Some || email is Some ==> r is Ok,
        id is None && email is None ==> invalid(r, "Either --id or --email must be provided"@),
{
    if id.is_none() && email.is_none() {
        Err(
            ClientError::Validation {
                message: String::from_str("Either --id or --email must be provided"),
            },
        )
    } else {
        Ok(())
    }
}

/// A user is searched by `--user-id`, `--email` or `--name`: at least one of
/// them is needed.
pub fn require_user_criterion(user_id: Option<&str>, email: Option<&str>, name: Option<&str>) -> (r:
    Result<(), ClientError>)
    ensures
        user_id is Some || email is Some || name is Some ==> r is Ok,
        user_id is None && email is None && name is None ==> invalid(
            r,
            "At least one of --user-id, --email, or --name must be provided"@,
        ),
{
    if user_id.is_none() && email.is_none() && name.is_none() {
        Err(
            ClientError::Validation {
                message: String::from_str(
                    "At least one of --user-id, --email, or --name must be provided",
                ),
            },
        )
    } else {
        Ok(())
    }
}

/// A new API key must not be empty.
pub fn require_api_key(api_key: &str) -> (r: Result<(), ClientError>)
    ensures
        api_key@.len() > 0 ==> r is Ok,
        api_key@.len() == 0 ==> invalid(r, "API key cannot be empty"@),
{
    if api_key.is_empty() {
        Err(ClientError::Validation { message: String::from_str("API key cannot be empty") })
    } else {
        Ok(())
    }
}

/// A list given on the command line is sent only if it names something.
pub fn optional_list(list: Vec<String>) -> (r: Option<Vec<String>>)
    ensures
        list@.len() == 0 ==> r is None,
        list@.len() > 0 ==> r == Some(list),
{
    if list.len() == 0 {
        None
    } else {
        Some(list)
    }
}

/// A switch given on the command line is sent only if it is set.
pub fn optional_flag(set: bool) -> (r: Option<bool>)
    ensures
        r == if set {
            Some(true)
        } else {
            None::<bool>
        },
{
    if set {
        Some(true)
    } else {
        None
    }
}

/// The parts, with `separator` between each two neighbours.
pub open spec fn joined(parts: Seq<String>, separator: Seq<char>) -> Seq<char>
    decreases parts.len(),
{
    if parts.len() == 0 {
        Seq::empty()
    } else if parts.len() == 1 {
        parts[0]@
    } else {
        joined(parts.drop_last(), separator) + separator + parts.last()@
    }
}

/// The status filter of a listing: the statuses given, joined by commas, or
/// no filter at all where none is given.
pub fn join_statuses(statuses: &Vec<String>) -> (r: Option<String>)
    ensures
        statuses@.len() == 0 ==> r is None,
        statuses@.len() > 0 ==> r is Some && r.unwrap()@ == joined(statuses@, ","@),
{
    if statuses.len() == 0 {
        return None;
    }
    let mut out = statuses[0].clone();
    let mut i: usize = 1;
    proof {
        assert(statuses@.take(1).len() == 1);
        assert(statuses@.take(1)[0] == statuses@[0]);
    }
    while i < statuses.len()
        invariant
            1 <= i <= statuses.len(),
            out@ == joined(statuses@.take(i as int), ","@),
        decreases statuses.len() - i,
    {
        proof {
            assert(statuses@.take(i + 1).drop_last() =~= statuses@.take(i as int));
            assert(statuses@.take(i + 1).last() == statuses@[i as int]);
        }
        out.append(",");
        out.append(statuses[i].as_str());
        i = i + 1;
    }
    proof {
        assert(statuses@.take(statuses.len() as int) =~= statuses@);
    }
    Some(out)
}

/// Whether `r` is what reading a custom-fields argument owes.
pub open spec fn custom_fields_match(
    r: Result<Option<serde_json::Value>, ClientError>,
    text: Option<&str>,
    complaint: Seq<char>,
) -> bool {
    match text {
        None => r matches Ok(None),
        Some(t) => match json_parse(t@) {
            Some(doc) => r matches Ok(Some(v)) && json_text(v) == doc,
            None => r matches Err(ClientError::Validation { message }) && message@ == complaint,
        },
    }
}

/// Reads the custom fields given on the command line as JSON.  Text that is
/// not JSON is rejected with `complaint`, before any request is made.
pub fn parse_custom_fields(text: Option<&str>, complaint: &str) -> (r: Result<
    Option<serde_json::Value>,
    ClientError,
>)
    ensures
        custom_fields_match(r, text, complaint@),
{
    match text {
        None => Ok(None),
        Some(t) => match parse_value(t) {
            Ok(v) => Ok(Some(v)),
            Err(_) => Err(ClientError::Validation { message: String::from_str(complaint) }),
        },
    }
}

/// The offset of the page after the one just shown: the offset asked for
/// plus the number of records asked for, whatever number came back.
pub open spec fn next_offset(skip: u32, limit: u32) -> int {
    skip + limit
}

/// The offset to suggest after a page of an offset-paginated listing, if
/// the page showed anything and the server holds more.
pub fn skip_hint(shown: usize, has_more: bool, skip: u32, limit: u32) -> (hint: Option<u64>)
    ensures
        shown > 0 && has_more ==> hint is Some && hint.unwrap() == next_offset(skip, limit),
        !(shown > 0 && has_more) ==> hint is None,
{
    if shown > 0 && has_more {
        let next: u64 = skip as u64 + limit as u64;
        Some(next)
    } else {
        None
    }
}

/// The cursor to suggest after a page of a cursor-paginated listing, if the
/// page showed anything, the server announces more, and it named a cursor.
pub fn cursor_hint(shown: usize, has_more: Option<bool>, cursor: Option<String>) -> (hint: Option<
    String,
>)
    ensures
        shown > 0 && has_more == Some(true) ==> hint == cursor,
        !(shown > 0 && has_more == Some(true)) ==> hint is None,
{
    let more = match has_more {
        Some(b) => b,
        None => false,
    };
    if shown > 0 && more {
        cursor
    } else {
        None
    }
}

/// How an API key is shown: an ASCII key of more than eight characters by
/// its first and last four, any other key not at all.
pub open spec fn masked(key: Seq<char>) -> Seq<char> {
    if vstd::utf8::is_ascii_chars(key) && key.len() > 8 {
        key.subrange(0, 4) + "..."@ + key.subrange(key.len() - 4, key.len() as int)
    } else {
        "****"@
    }
}

/// Masks an API key for display.
pub fn mask_api_key(api_key: &str) -> (shown: String)
    ensures
        shown@ == masked(api_key@),
{
    if api_key.is_ascii() {
        let n: usize = api_key.unicode_len();
        if n > 8 {
            let head = api_key.substring_ascii(0, 4);
            let tail = api_key.substring_ascii(n - 4, n);
            return String::from_str(head).concat("...").concat(tail);
        }
    }
    String::from_str("****")
}

/// The account whose address is used where none is named.
pub const DEFAULT_SUBDOMAIN: &'static str = "clickup";

/// The API address of an account.
pub open spec fn account_url_of(subdomain: Seq<char>) -> Seq<char> {
    "https://"@ + (if subdomain.len() == 0 {
        DEFAULT_SUBDOMAIN@
    } else {
        subdomain
    }) + ".canny.io/api/v1"@
}

/// The API address of the account with this subdomain, or of the default
/// account where the subdomain is empty.
pub fn account_url(subdomain: &str) -> (url: String)
    ensures
        url@ == account_url_of(subdomain@),
{
    let name = if subdomain.is_empty() {
        DEFAULT_SUBDOMAIN
    } else {
        subdomain
    };
    String::from_str("https://").concat(name).concat(".canny.io/api/v1")
}

} // verus!
