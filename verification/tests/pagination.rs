use canny_cli::client::CannyClient;
use canny_cli::pagination::{
    collect_pages, CursorPage, Depaginator, PageRequest, PAGE_SIZE, SAFETY_CEILING,
};
use canny_cli::request::FieldValue;

fn page(items: &[&str], cursor: Option<&str>, has_next: bool) -> CursorPage<String> {
    CursorPage {
        items: items.iter().map(|s| s.to_string()).collect(),
        next_cursor: cursor.map(|c| c.to_string()),
        has_next,
    }
}

fn numbered(first: usize, count: usize, cursor: Option<String>, has_next: bool) -> CursorPage<usize> {
    CursorPage { items: (first..first + count).collect(), next_cursor: cursor, has_next }
}

#[test]
fn a_new_enumeration_asks_for_the_first_page() {
    let pager: Depaginator<String> = Depaginator::new();
    assert!(!pager.is_done());
    assert_eq!(pager.len(), 0);
    match pager.next_request() {
        PageRequest::Fetch { cursor, limit } => {
            assert_eq!(cursor, None);
            assert_eq!(limit, 100);
            assert_eq!(limit, PAGE_SIZE);
        }
        PageRequest::Stop => panic!("the first page must be fetched"),
    }
}

#[test]
fn two_pages_are_fetched_and_joined_in_order() {
    let mut pager: Depaginator<String> = Depaginator::new();
    let mut cursors_sent: Vec<Option<String>> = Vec::new();
    let mut progress: Vec<usize> = Vec::new();
    let mut fetches = 0;
    loop {
        let cursor = match pager.next_request() {
            PageRequest::Fetch { cursor, .. } => cursor,
            PageRequest::Stop => break,
        };
        fetches += 1;
        let answer = match cursor.as_deref() {
            None => page(&["A", "B"], Some("c1"), true),
            Some("c1") => page(&["C"], None, false),
            Some(other) => panic!("unexpected cursor {}", other),
        };
        cursors_sent.push(cursor);
        if let Some(count) = pager.accept(answer) {
            progress.push(count);
        }
    }
    assert_eq!(fetches, 2);
    assert_eq!(cursors_sent, vec![None, Some("c1".to_string())]);
    assert_eq!(progress, vec![2, 3]);
    assert_eq!(pager.into_items(), vec!["A".to_string(), "B".to_string(), "C".to_string()]);
}

#[test]
fn the_users_enumeration_sends_the_cursor_it_was_given() {
    let client = CannyClient::new("https://acme.canny.io/api/v1".to_string(), "k".to_string());
    let mut pager: Depaginator<String> = Depaginator::new();
    let first = client.list_users(&pager).expect("first request");
    assert_eq!(first.url, "https://acme.canny.io/api/v2/users/list");
    assert!(first.body.get("cursor").is_none());
    assert!(matches!(first.body.get("limit"), Some(FieldValue::Number(100))));
    assert_eq!(pager.accept(page(&["A", "B"], Some("c1"), true)), Some(2));
    let second = client.list_users(&pager).expect("second request");
    match second.body.get("cursor") {
        Some(FieldValue::Text(c)) => assert_eq!(c, "c1"),
        other => panic!("unexpected cursor field {:?}", other),
    }
    assert_eq!(pager.accept(page(&["C"], None, false)), Some(3));
    assert!(client.list_users(&pager).is_none());
}

#[test]
fn full_pages_then_a_partial_page_give_the_whole_listing() {
    let pages = vec![
        numbered(0, 4, Some("a".to_string()), true),
        numbered(4, 4, Some("b".to_string()), true),
        numbered(8, 4, Some("c".to_string()), true),
        numbered(12, 1, None, false),
    ];
    let out = collect_pages(pages);
    assert_eq!(out.items, (0..13).collect::<Vec<usize>>());
    assert_eq!(out.fetched, 4);
    assert_eq!(out.reports, vec![4, 8, 12, 13]);
}

#[test]
fn full_pages_then_an_empty_final_page_give_the_full_pages() {
    let pages = vec![
        numbered(0, 3, Some("a".to_string()), true),
        numbered(3, 3, Some("b".to_string()), true),
        numbered(6, 0, None, false),
    ];
    let out = collect_pages(pages);
    assert_eq!(out.items, vec![0, 1, 2, 3, 4, 5]);
    assert_eq!(out.fetched, 3);
    assert_eq!(out.reports, vec![3, 6]);
}

#[test]
fn an_empty_page_that_announces_more_still_ends_the_enumeration() {
    let mut pager: Depaginator<String> = Depaginator::new();
    assert_eq!(pager.accept(page(&["A"], Some("c1"), true)), Some(1));
    assert!(!pager.is_done());
    assert_eq!(pager.accept(page(&[], Some("c2"), true)), None);
    assert!(pager.is_done());
    assert!(matches!(pager.next_request(), PageRequest::Stop));
    assert_eq!(pager.into_items(), vec!["A".to_string()]);
}

#[test]
fn an_empty_first_page_gives_nothing() {
    let out = collect_pages(vec![page(&[], Some("c"), true), page(&["late"], None, false)]);
    assert!(out.items.is_empty());
    assert_eq!(out.fetched, 1);
    assert!(out.reports.is_empty());
}

#[test]
fn a_page_without_cursor_ends_the_enumeration() {
    let out = collect_pages(vec![page(&["A"], None, true), page(&["B"], None, false)]);
    assert_eq!(out.items, vec!["A".to_string()]);
    assert_eq!(out.fetched, 1);
    assert_eq!(out.reports, vec![1]);
}

#[test]
fn a_page_that_announces_no_successor_ends_the_enumeration() {
    let out = collect_pages(vec![page(&["A"], Some("c"), false), page(&["B"], None, false)]);
    assert_eq!(out.items, vec!["A".to_string()]);
    assert_eq!(out.fetched, 1);
}

#[test]
fn a_server_that_never_ends_is_cut_off_above_the_ceiling() {
    let mut pager: Depaginator<usize> = Depaginator::new();
    let mut fetches = 0usize;
    let mut last_report = 0usize;
    while let PageRequest::Fetch { .. } = pager.next_request() {
        let answer = numbered(fetches * 100, 100, Some(format!("c{}", fetches)), true);
        fetches += 1;
        let report = pager.accept(answer).expect("every page holds records");
        assert!(report > last_report);
        last_report = report;
    }
    assert_eq!(fetches, 1001);
    assert_eq!(pager.len(), 100_100);
    assert!(pager.len() > SAFETY_CEILING);
    assert_eq!(last_report, 100_100);
}

#[test]
fn the_ceiling_itself_does_not_stop_the_enumeration() {
    let mut pager: Depaginator<usize> = Depaginator::new();
    assert_eq!(pager.accept(numbered(0, 100_000, Some("c".to_string()), true)), Some(100_000));
    assert!(!pager.is_done());
    assert_eq!(pager.accept(numbered(0, 1, Some("d".to_string()), true)), Some(100_001));
    assert!(pager.is_done());
}

#[test]
fn pages_after_the_end_are_ignored() {
    let mut pager: Depaginator<String> = Depaginator::new();
    assert_eq!(pager.accept(page(&["A"], None, false)), Some(1));
    assert!(pager.is_done());
    assert_eq!(pager.accept(page(&["B"], Some("c"), true)), None);
    assert_eq!(pager.into_items(), vec!["A".to_string()]);
}

#[test]
fn progress_is_reported_once_per_non_empty_page() {
    let pages = vec![
        numbered(0, 2, Some("a".to_string()), true),
        numbered(2, 5, Some("b".to_string()), true),
        numbered(7, 1, Some("c".to_string()), true),
        numbered(8, 0, Some("d".to_string()), true),
        numbered(8, 3, None, false),
    ];
    let out = collect_pages(pages);
    assert_eq!(out.reports, vec![2, 7, 8]);
    assert_eq!(out.fetched, 4);
    assert_eq!(out.items.len(), 8);
    assert!(out.reports.windows(2).all(|w| w[0] <= w[1]));
}

#[test]
fn collecting_no_pages_gives_nothing() {
    let out = collect_pages(Vec::<CursorPage<String>>::new());
    assert!(out.items.is_empty());
    assert_eq!(out.fetched, 0);
    assert!(out.reports.is_empty());
}
