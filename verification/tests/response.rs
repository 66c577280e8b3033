use canny_cli::error::ClientError;
use canny_cli::resource::{Expected, Resource};
use canny_cli::response::{
    assemble_page, check_status, created_id, cursor_page, decode_ack, decode_created,
    decode_cursor_page, decode_lenient, decode_listing, decode_offset_page, decode_response,
    decode_retrieve, find_payload, is_success, offset_page, parse_document, read_bool,
    read_string, retrieve_resource, Decoded, PagePayload,
};

fn json(text: &str) -> serde_json::Value {
    serde_json::from_str(text).expect("test document")
}

fn assert_api_error<T: std::fmt::Debug>(r: Result<T, ClientError>, status: u16, body: &str) {
    match r {
        Err(ClientError::Api { status: s, body: b }) => {
            assert_eq!(s, status);
            assert_eq!(b, body);
        }
        other => panic!("expected an API error, got {:?}", other),
    }
}

#[test]
fn only_the_two_hundreds_are_success() {
    assert!(!is_success(0));
    assert!(!is_success(199));
    assert!(is_success(200));
    assert!(is_success(204));
    assert!(is_success(299));
    assert!(!is_success(300));
    assert!(!is_success(404));
    assert!(!is_success(500));
    assert!(!is_success(u16::MAX));
}

#[test]
fn a_failed_status_keeps_status_and_body() {
    assert_api_error(check_status(404, "not here".to_string()), 404, "not here");
    assert_api_error(check_status(400, "{\"error\":\"bad\"}".to_string()), 400, "{\"error\":\"bad\"}");
    assert_api_error(check_status(500, String::new()), 500, "");
    assert_api_error(check_status(301, "moved".to_string()), 301, "moved");
    assert_eq!(check_status(200, "body".to_string()).unwrap(), "body");
}

#[test]
fn a_failed_status_is_an_api_error_for_every_shape() {
    let body = "{\"post\": null}";
    assert_api_error(decode_retrieve(404, body.to_string(), "post"), 404, body);
    assert_api_error(decode_created(401, body.to_string()), 401, body);
    assert_api_error(decode_offset_page(500, body.to_string(), "posts"), 500, body);
    assert_api_error(decode_cursor_page(503, body.to_string(), "users"), 503, body);
    assert_api_error(decode_listing(429, body.to_string(), "boards"), 429, body);
    assert_api_error(decode_lenient(404, body.to_string()), 404, body);
    assert_api_error(decode_ack(400, body.to_string()), 400, body);
    assert_api_error(parse_document(502, "<html>".to_string()), 502, "<html>");
}

#[test]
fn a_null_resource_is_not_found() {
    let r = decode_retrieve(200, "{\"post\": null}".to_string(), "post");
    assert!(matches!(r, Ok(None)));
}

#[test]
fn an_absent_resource_is_not_found() {
    assert!(matches!(decode_retrieve(200, "{}".to_string(), "post"), Ok(None)));
    assert!(matches!(decode_retrieve(200, "{\"comment\":{\"id\":\"c\"}}".to_string(), "post"), Ok(None)));
}

#[test]
fn a_present_resource_is_handed_out() {
    let r = decode_retrieve(200, "{\"post\": {\"id\": \"post-1\", \"title\": \"T\"}}".to_string(), "post");
    assert_eq!(r.unwrap(), Some(json("{\"id\":\"post-1\",\"title\":\"T\"}")));
    let r = retrieve_resource(&json("{\"tag\":false}"), "tag");
    assert_eq!(r.unwrap(), Some(serde_json::Value::Bool(false)));
}

#[test]
fn an_unparseable_body_is_a_decode_error() {
    assert!(matches!(decode_retrieve(200, "not json".to_string(), "post"), Err(ClientError::Decode { .. })));
    assert!(matches!(decode_created(200, "{\"id\":".to_string()), Err(ClientError::Decode { .. })));
    assert!(matches!(decode_offset_page(200, "".to_string(), "posts"), Err(ClientError::Decode { .. })));
    assert!(matches!(decode_cursor_page(201, "[1,".to_string(), "users"), Err(ClientError::Decode { .. })));
    assert!(matches!(decode_listing(200, "<html>".to_string(), "boards"), Err(ClientError::Decode { .. })));
    assert!(matches!(parse_document(200, "{".to_string()), Err(ClientError::Decode { .. })));
}

#[test]
fn a_decode_error_carries_the_parser_message() {
    match parse_document(200, "{".to_string()) {
        Err(ClientError::Decode { cause }) => assert!(cause.contains("EOF")),
        other => panic!("unexpected {:?}", other),
    }
}

#[test]
fn a_retrieval_needs_an_object() {
    assert!(matches!(decode_retrieve(200, "[null]".to_string(), "post"), Err(ClientError::Decode { .. })));
    assert!(matches!(decode_retrieve(200, "\"post\"".to_string(), "post"), Err(ClientError::Decode { .. })));
    assert!(matches!(retrieve_resource(&json("null"), "post"), Err(ClientError::Decode { .. })));
}

#[test]
fn a_parsed_document_is_the_body_read_as_json() {
    let doc = parse_document(200, " { \"a\" : [1, 2.5, \"x\"] } ".to_string()).unwrap();
    assert_eq!(doc, json("{\"a\":[1,2.5,\"x\"]}"));
    assert_eq!(doc.to_string(), "{\"a\":[1,2.5,\"x\"]}");
}

#[test]
fn a_mutation_ignores_the_body() {
    assert!(decode_ack(200, "anything at all".to_string()).is_ok());
    assert!(decode_ack(204, String::new()).is_ok());
}

#[test]
fn a_creation_yields_the_identifier() {
    assert_eq!(decode_created(200, "{\"id\": \"abc123\"}".to_string()).unwrap(), "abc123");
    assert_eq!(created_id(&json("{\"id\":\"x\",\"extra\":1}")).unwrap(), "x");
}

#[test]
fn a_creation_without_a_string_identifier_is_a_decode_error() {
    assert!(matches!(decode_created(200, "{}".to_string()), Err(ClientError::Decode { .. })));
    assert!(matches!(decode_created(200, "{\"id\": 5}".to_string()), Err(ClientError::Decode { .. })));
    assert!(matches!(decode_created(200, "{\"id\": null}".to_string()), Err(ClientError::Decode { .. })));
    assert!(matches!(decode_created(200, "\"abc\"".to_string()), Err(ClientError::Decode { .. })));
}

#[test]
fn an_offset_page_carries_flag_and_records() {
    let page = decode_offset_page(
        200,
        "{\"hasMore\": true, \"posts\": [{\"id\": \"post-1\"}, {\"id\": \"post-2\"}]}".to_string(),
        "posts",
    )
    .unwrap();
    assert!(page.has_more);
    assert_eq!(page.cursor, None);
    assert_eq!(page.items, json("[{\"id\":\"post-1\"},{\"id\":\"post-2\"}]"));
    let page = offset_page(&json("{\"hasMore\":false,\"groups\":[],\"cursor\":\"g2\"}"), "groups").unwrap();
    assert!(!page.has_more);
    assert_eq!(page.cursor, Some("g2".to_string()));
    assert_eq!(page.items, json("[]"));
}

#[test]
fn an_offset_page_needs_flag_and_records() {
    assert!(matches!(decode_offset_page(200, "{\"posts\": []}".to_string(), "posts"), Err(ClientError::Decode { .. })));
    assert!(matches!(decode_offset_page(200, "{\"hasMore\": true}".to_string(), "posts"), Err(ClientError::Decode { .. })));
    assert!(matches!(decode_offset_page(200, "{\"hasMore\": \"yes\", \"posts\": []}".to_string(), "posts"), Err(ClientError::Decode { .. })));
    assert!(matches!(decode_offset_page(200, "{\"hasMore\": true, \"tags\": []}".to_string(), "posts"), Err(ClientError::Decode { .. })));
    assert!(matches!(decode_offset_page(200, "[]".to_string(), "posts"), Err(ClientError::Decode { .. })));
}

#[test]
fn a_cursor_page_prefers_items_over_the_legacy_name() {
    let doc = json("{\"items\":[1],\"users\":[2],\"hasNextPage\":true,\"cursor\":\"c1\"}");
    let page = cursor_page(&doc, "users").unwrap();
    assert!(matches!(&page.payload, PagePayload::Items(v) if *v == json("[1]")));
    assert_eq!(page.has_next_page, Some(true));
    assert_eq!(page.cursor, Some("c1".to_string()));
}

#[test]
fn a_cursor_page_falls_back_to_the_legacy_name() {
    let page = decode_cursor_page(
        200,
        "{\"companies\":[{\"id\":\"co\"}],\"hasNextPage\":false,\"cursor\":null}".to_string(),
        "companies",
    )
    .unwrap();
    assert!(matches!(&page.payload, PagePayload::LegacyNamed(v) if *v == json("[{\"id\":\"co\"}]")));
    assert_eq!(page.has_next_page, Some(false));
    assert_eq!(page.cursor, None);
}

#[test]
fn a_cursor_page_without_records_is_empty() {
    let page = decode_cursor_page(200, "{}".to_string(), "users").unwrap();
    assert!(matches!(page.payload, PagePayload::Empty));
    assert_eq!(page.has_next_page, None);
    assert_eq!(page.cursor, None);
    assert!(matches!(find_payload(&json("{\"users\":[]}"), "companies"), PagePayload::Empty));
}

#[test]
fn a_cursor_page_needs_an_object() {
    match decode_cursor_page(200, "[1,2]".to_string(), "users") {
        Err(ClientError::Decode { cause }) => assert_eq!(cause, "Expected object response"),
        other => panic!("unexpected {:?}", other),
    }
}

#[test]
fn flags_and_cursors_of_another_type_count_as_absent() {
    let doc = json("{\"hasNextPage\":\"true\",\"cursor\":7,\"flag\":true,\"name\":\"n\"}");
    assert_eq!(read_bool(&doc, "hasNextPage"), None);
    assert_eq!(read_string(&doc, "cursor"), None);
    assert_eq!(read_bool(&doc, "flag"), Some(true));
    assert_eq!(read_string(&doc, "name"), Some("n".to_string()));
    assert_eq!(read_bool(&doc, "missing"), None);
    assert_eq!(read_string(&json("[\"name\"]"), "name"), None);
}

#[test]
fn a_page_without_flag_announces_no_successor() {
    let p = assemble_page(vec![1, 2], None, Some("c".to_string()));
    assert!(!p.has_next);
    assert_eq!(p.next_cursor, Some("c".to_string()));
    assert_eq!(p.items, vec![1, 2]);
    assert!(assemble_page(vec![1], Some(true), None).has_next);
    assert!(!assemble_page(vec![1], Some(false), None).has_next);
}

#[test]
fn a_whole_listing_defaults_to_nothing() {
    assert_eq!(decode_listing(200, "{\"boards\":[{\"id\":\"b\"}]}".to_string(), "boards").unwrap(), Some(json("[{\"id\":\"b\"}]")));
    assert_eq!(decode_listing(200, "{}".to_string(), "boards").unwrap(), None);
    assert_eq!(decode_listing(200, "[]".to_string(), "boards").unwrap(), None);
}

#[test]
fn the_lenient_record_turns_bad_bodies_into_absence() {
    assert_eq!(decode_lenient(200, "{\"id\":\"u1\"}".to_string()).unwrap(), Some(json("{\"id\":\"u1\"}")));
    assert_eq!(decode_lenient(200, "oops".to_string()).unwrap(), None);
}

#[test]
fn answers_are_decoded_by_the_expected_shape() {
    assert!(matches!(decode_response(Expected::Ack, 200, "x".to_string()), Ok(Decoded::Ack)));
    assert!(matches!(decode_response(Expected::Created, 200, "{\"id\":\"n\"}".to_string()), Ok(Decoded::Created(id)) if id == "n"));
    assert!(matches!(decode_response(Expected::Resource(Resource::Post), 200, "{\"post\":null}".to_string()), Ok(Decoded::Resource(None))));
    assert!(matches!(decode_response(Expected::Resource(Resource::Vote), 200, "{\"vote\":{\"id\":\"v\"}}".to_string()), Ok(Decoded::Resource(Some(_)))));
    assert!(matches!(decode_response(Expected::Page(Resource::StatusChange), 200, "{\"hasMore\":false,\"statusChanges\":[]}".to_string()), Ok(Decoded::Page(p)) if !p.has_more));
    assert!(matches!(decode_response(Expected::CursorPage(Resource::User), 200, "{\"items\":[]}".to_string()), Ok(Decoded::CursorPage(_))));
    assert!(matches!(decode_response(Expected::Listing(Resource::Board), 200, "{\"boards\":[]}".to_string()), Ok(Decoded::Listing(Some(_)))));
    assert!(matches!(decode_response(Expected::LenientRecord, 200, "nope".to_string()), Ok(Decoded::Resource(None))));
    assert!(matches!(decode_response(Expected::Resource(Resource::Post), 200, "nope".to_string()), Err(ClientError::Decode { .. })));
    assert_api_error(decode_response(Expected::Ack, 403, "denied".to_string()).map(|_| ()), 403, "denied");
}

#[test]
fn resources_are_wrapped_under_their_own_names() {
    assert_eq!(Resource::Post.singular(), "post");
    assert_eq!(Resource::Post.plural(), "posts");
    assert_eq!(Resource::Category.plural(), "categories");
    assert_eq!(Resource::Company.plural(), "companies");
    assert_eq!(Resource::StatusChange.plural(), "statusChanges");
    assert_eq!(Resource::Entry.plural(), "entries");
    assert_eq!(Resource::Opportunity.plural(), "opportunities");
    assert_eq!(Resource::User.singular(), "user");
    assert_eq!(Resource::Idea.singular(), "idea");
}
