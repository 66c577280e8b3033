//! Resolution of the API key and the API address.
//!
//! Credentials come from the caller or from the credential store.  The store
//! itself is read and written by the caller; the functions here decide
//! which value wins.

use vstd::prelude::*;
use vstd::string::StringExecFns;
use crate::error::ClientError;
use crate::text::same_text;

verus! {

pub open spec fn text_view(text: Option<String>) -> Option<Seq<char>> {
    match text {
        Some(s) => Some(s@),
        None => None,
    }
}

/// The message for a key that is found nowhere.
pub open spec fn missing_key_message() -> Seq<char> {
    "API key not found. Run `canny auth` to configure, or provide --api-key / set CANNY_API_KEY."@
}

/// Resolve the API key: an explicit key wins over the stored one, and it is
/// a validation failure to have neither.
pub fn resolve_api_key(explicit_key: Option<String>, stored_key: Option<String>) -> (r: Result<
    String,
    ClientError,
>)
    ensures
        match explicit_key {
            Some(key) => r == Ok::<String, ClientError>(key),
            None => match stored_key {
                Some(key) => r == Ok::<String, ClientError>(key),
                None => r matches Err(ClientError::Validation { message }) && message@
                    == missing_key_message(),
            },
        },
{
    match explicit_key {
        Some(key) => Ok(key),
        None => match stored_key {
            Some(key) => Ok(key),
            None => Err(
                ClientError::Validation {
                    message: String::from_str(
                        "API key not found. Run `canny auth` to configure, or provide --api-key / set CANNY_API_KEY.",
                    ),
                },
            ),
        },
    }
}

/// The address that resolution settles on: an explicit address that differs
/// from the default, else the stored one, else none.
pub open spec fn resolved_url(
    explicit_url: Option<Seq<char>>,
    default_url: Seq<char>,
    stored_url: Option<Seq<char>>,
) -> Option<Seq<char>> {
    match explicit_url {
        Some(url) => if url != default_url {
            Some(url)
        } else {
            stored_url
        },
        None => stored_url,
    }
}

pub open spec fn str_view(text: Option<&str>) -> Option<Seq<char>> {
    match text {
        Some(s) => Some(s@),
        None => None,
    }
}

/// Resolve the API address: an explicit address wins if it is not the
/// default one, then the stored address; with neither the caller falls back
/// to its default.
pub fn resolve_api_url(explicit_url: Option<&str>, default_url: &str, stored_url: Option<String>) -> (r:
    Option<String>)
    ensures
        text_view(r) == resolved_url(str_view(explicit_url), default_url@, text_view(stored_url)),
{
    if let Some(url) = explicit_url {
        if !same_text(url, default_url) {
            return Some(String::from_str(url));
        }
    }
    stored_url
}

/// The address a command talks to: the one given on the command line, else
/// the stored one, else the default.
pub fn effective_api_url(given_url: Option<String>, stored_url: Option<String>, default_url: &str) -> (url:
    String)
    ensures
        url@ == match given_url {
            Some(u) => u@,
            None => match stored_url {
                Some(u) => u@,
                None => default_url@,
            },
        },
{
    match given_url {
        Some(u) => u,
        None => match stored_url {
            Some(u) => u,
            None => String::from_str(default_url),
        },
    }
}

/// The outcome of clearing the stored credentials, given whether each of
/// the two entries could be removed: it fails only if neither could.
pub fn clearing_outcome(key_removed: bool, url_removed: bool) -> (r: Result<(), ClientError>)
    ensures
        r is Ok <==> key_removed || url_removed,
        r matches Err(e) ==> e matches ClientError::Validation { message } && message@
            == "No stored credentials to clear"@,
{
    if !key_removed && !url_removed {
        Err(ClientError::Validation { message: String::from_str("No stored credentials to clear") })
    } else {
        Ok(())
    }
}

} // verus!
