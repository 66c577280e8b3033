use canny_cli::command::{
    account_url, cursor_hint, join_statuses, mask_api_key, optional_flag, optional_list,
    parse_custom_fields, require_api_key, require_id_or_email, require_id_or_url_name,
    require_user_criterion, skip_hint,
};
use canny_cli::credentials::{
    clearing_outcome, effective_api_url, resolve_api_key, resolve_api_url,
};
use canny_cli::error::ClientError;
use canny_cli::models::{CannyCompany, CannyUserFull, PostSort, PostsListResponse};
use canny_cli::text::{replace, same_text};

fn message<T: std::fmt::Debug>(r: Result<T, ClientError>) -> String {
    match r {
        Err(ClientError::Validation { message }) => message,
        other => panic!("expected a validation failure, got {:?}", other),
    }
}

#[test]
fn a_full_page_with_more_to_come_suggests_the_next_offset() {
    assert_eq!(skip_hint(10, true, 0, 10), Some(10));
    assert_eq!(skip_hint(10, true, 20, 10), Some(30));
    assert_eq!(skip_hint(3, true, 20, 10), Some(30));
}

#[test]
fn no_offset_is_suggested_without_more_or_without_results() {
    assert_eq!(skip_hint(10, false, 0, 10), None);
    assert_eq!(skip_hint(0, true, 0, 10), None);
    assert_eq!(skip_hint(0, false, 0, 10), None);
}

#[test]
fn the_next_offset_does_not_wrap() {
    assert_eq!(skip_hint(1, true, u32::MAX, u32::MAX), Some(8_589_934_590));
    assert_eq!(skip_hint(1, true, u32::MAX, 1), Some(4_294_967_296));
}

#[test]
fn a_cursor_is_suggested_only_when_more_is_announced() {
    assert_eq!(cursor_hint(2, Some(true), Some("c".to_string())), Some("c".to_string()));
    assert_eq!(cursor_hint(2, Some(true), None), None);
    assert_eq!(cursor_hint(2, Some(false), Some("c".to_string())), None);
    assert_eq!(cursor_hint(2, None, Some("c".to_string())), None);
    assert_eq!(cursor_hint(0, Some(true), Some("c".to_string())), None);
}

#[test]
fn a_lookup_needs_an_identifier() {
    assert!(require_id_or_url_name(Some("post"), None).is_ok());
    assert!(require_id_or_url_name(None, Some("name")).is_ok());
    assert!(require_id_or_url_name(Some("post"), Some("name")).is_ok());
    assert_eq!(message(require_id_or_url_name(None, None)), "Either --id or --url-name must be provided");
    assert!(require_id_or_email(Some("u"), None).is_ok());
    assert!(require_id_or_email(None, Some("a@b.c")).is_ok());
    assert_eq!(message(require_id_or_email(None, None)), "Either --id or --email must be provided");
    assert!(require_user_criterion(None, None, Some("Ann")).is_ok());
    assert!(require_user_criterion(None, Some("a@b.c"), None).is_ok());
    assert!(require_user_criterion(Some("u"), None, None).is_ok());
    assert_eq!(
        message(require_user_criterion(None, None, None)),
        "At least one of --user-id, --email, or --name must be provided"
    );
}

#[test]
fn an_empty_api_key_is_rejected() {
    assert!(require_api_key("k").is_ok());
    assert_eq!(message(require_api_key("")), "API key cannot be empty");
}

#[test]
fn empty_lists_and_unset_switches_are_not_sent() {
    assert_eq!(optional_list(Vec::new()), None);
    assert_eq!(optional_list(vec!["a".to_string()]), Some(vec!["a".to_string()]));
    assert_eq!(optional_flag(true), Some(true));
    assert_eq!(optional_flag(false), None);
}

#[test]
fn statuses_are_joined_by_commas() {
    assert_eq!(join_statuses(&Vec::new()), None);
    assert_eq!(join_statuses(&vec!["open".to_string()]), Some("open".to_string()));
    assert_eq!(
        join_statuses(&vec!["open".to_string(), "planned".to_string(), "in progress".to_string()]),
        Some("open,planned,in progress".to_string())
    );
    assert_eq!(join_statuses(&vec![String::new(), String::new()]), Some(",".to_string()));
}

#[test]
fn custom_fields_must_be_json() {
    assert_eq!(parse_custom_fields(None, "bad").unwrap(), None);
    let v = parse_custom_fields(Some("{\"a\": [1, 2]}"), "bad").unwrap().unwrap();
    assert_eq!(v.to_string(), "{\"a\":[1,2]}");
    assert_eq!(
        message(parse_custom_fields(Some("{a: 1}"), "Invalid JSON for --custom-fields")),
        "Invalid JSON for --custom-fields"
    );
    assert_eq!(message(parse_custom_fields(Some(""), "no")), "no");
}

#[test]
fn long_keys_show_their_ends_only() {
    assert_eq!(mask_api_key("abcdefghijkl"), "abcd...ijkl");
    assert_eq!(mask_api_key("123456789"), "1234...6789");
    assert_eq!(mask_api_key("12345678"), "****");
    assert_eq!(mask_api_key(""), "****");
    assert_eq!(mask_api_key("short"), "****");
    assert_eq!(mask_api_key("schlüssel-geheim"), "****");
}

#[test]
fn the_account_address_defaults_to_the_default_account() {
    assert_eq!(account_url("acme"), "https://acme.canny.io/api/v1");
    assert_eq!(account_url(""), "https://clickup.canny.io/api/v1");
}

#[test]
fn an_explicit_key_wins_over_the_stored_one() {
    assert_eq!(resolve_api_key(Some("flag".to_string()), Some("stored".to_string())).unwrap(), "flag");
    assert_eq!(resolve_api_key(Some("flag".to_string()), None).unwrap(), "flag");
    assert_eq!(resolve_api_key(None, Some("stored".to_string())).unwrap(), "stored");
    assert_eq!(
        message(resolve_api_key(None, None)),
        "API key not found. Run `canny auth` to configure, or provide --api-key / set CANNY_API_KEY."
    );
}

#[test]
fn an_explicit_address_wins_unless_it_is_the_default() {
    let default = "https://canny.io/api/v1";
    let stored = Some("https://stored.canny.io/api/v1".to_string());
    assert_eq!(
        resolve_api_url(Some("https://x.canny.io/api/v1"), default, stored.clone()),
        Some("https://x.canny.io/api/v1".to_string())
    );
    assert_eq!(resolve_api_url(Some(default), default, stored.clone()), stored);
    assert_eq!(resolve_api_url(None, default, stored.clone()), stored);
    assert_eq!(resolve_api_url(None, default, None), None);
    assert_eq!(resolve_api_url(Some(default), default, None), None);
    assert_eq!(
        resolve_api_url(Some("https://x.canny.io/api/v1"), default, None),
        Some("https://x.canny.io/api/v1".to_string())
    );
}

#[test]
fn the_effective_address_falls_back_to_the_default() {
    assert_eq!(effective_api_url(Some("a".to_string()), Some("b".to_string()), "d"), "a");
    assert_eq!(effective_api_url(None, Some("b".to_string()), "d"), "b");
    assert_eq!(effective_api_url(None, None, "d"), "d");
}

#[test]
fn texts_are_compared_by_content() {
    assert!(same_text("abc", "abc"));
    assert!(!same_text("abc", "abd"));
    assert!(!same_text("abc", "ab"));
    assert!(same_text("", ""));
}

#[test]
fn clearing_fails_only_if_nothing_was_stored() {
    assert!(clearing_outcome(true, true).is_ok());
    assert!(clearing_outcome(true, false).is_ok());
    assert!(clearing_outcome(false, true).is_ok());
    assert_eq!(message(clearing_outcome(false, false)), "No stored credentials to clear");
}

#[test]
fn sort_orders_have_their_api_names() {
    assert_eq!(PostSort::Newest.as_str(), "newest");
    assert_eq!(PostSort::Oldest.as_str(), "oldest");
    assert_eq!(PostSort::Relevance.as_str(), "relevance");
    assert_eq!(PostSort::Score.as_str(), "score");
    assert_eq!(PostSort::StatusChanged.as_str(), "statusChanged");
    assert_eq!(PostSort::Trending.to_string(), "trending");
    assert_eq!(PostSort::default(), PostSort::Newest);
}

#[test]
fn records_hold_what_they_are_given() {
    let user = CannyUserFull {
        id: "u1".to_string(),
        name: Some("Ann".to_string()),
        email: None,
        avatar_url: None,
        created: None,
        is_admin: Some(false),
        last_activity: None,
        user_id: Some("ext-1".to_string()),
        url: None,
    };
    let copy = user.clone();
    assert_eq!(copy.id, "u1");
    assert_eq!(copy.user_id.as_deref(), Some("ext-1"));
    let page = PostsListResponse { has_more: true, posts: Vec::new() };
    assert!(page.has_more && page.posts.is_empty());
}

#[test]
fn matches_are_replaced_from_left_to_right() {
    assert_eq!(replace("https://a.io/api/v1", "/v1", "/v2"), "https://a.io/api/v2");
    assert_eq!(replace("/v1/v1x/v", "/v1", "/v2"), "/v2/v2x/v");
    assert_eq!(replace("aaa", "aa", "b"), "ba");
    assert_eq!(replace("aaaa", "aa", "b"), "bb");
    assert_eq!(replace("abc", "abcd", "x"), "abc");
    assert_eq!(replace("abc", "", "x"), "abc");
    assert_eq!(replace("", "a", "x"), "");
    assert_eq!(replace("abc", "c", ""), "ab");
    assert_eq!(replace("grüße/v1", "/v1", "/v2"), "grüße/v2");
    assert_eq!(replace("abcabc", "bc", "-"), "a-a-");
}

#[test]
fn a_company_keeps_its_amount_as_json() {
    let company = CannyCompany {
        id: "co".to_string(),
        name: None,
        created: None,
        monthly_spend: Some(serde_json::Value::from(99.5f64)),
        user_count: Some(3),
        custom_fields: None,
    };
    assert_eq!(company.clone().monthly_spend.and_then(|v| v.as_f64()), Some(99.5));
}
