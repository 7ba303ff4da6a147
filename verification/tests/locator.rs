//! The locator driven by hand-made page outcomes in place of a transport.

use repo::error::LookupError;
use repo::locate::{find_match, FetchOutcome, LocateStep, Locator, PAGE_BUDGET, PER_PAGE};
use repo::record::{RepositoryRecord, SearchPage};

fn record(name: &str) -> RepositoryRecord {
    RepositoryRecord {
        name: name.to_string(),
        full_name: format!("owner/{name}"),
        clone_url: format!("https://example.com/owner/{name}.git"),
        git_url: format!("git://example.com/owner/{name}.git"),
        html_url: format!("https://example.com/owner/{name}"),
    }
}

fn page(names: &[&str]) -> FetchOutcome {
    FetchOutcome::Page(SearchPage {
        items: Some(names.iter().map(|n| record(n)).collect()),
        message: None,
    })
}

#[test]
fn query_case_folds_but_request_keeps_original_case() {
    let mut loc = Locator::new("Foo".to_string());
    let req = loc.next_request();
    assert_eq!(req.query, "Foo");
    assert_eq!(req.page, 1);
    assert_eq!(req.per_page, PER_PAGE);
    match loc.consume(page(&["foo"])) {
        LocateStep::Done(Ok(rec)) => assert_eq!(rec.name, "foo"),
        _ => panic!("expected the case-folded match"),
    }
}

#[test]
fn match_on_a_later_page_is_found() {
    let mut loc = Locator::new("target".to_string());
    assert_eq!(loc.next_request().page, 1);
    match loc.consume(page(&["bar"])) {
        LocateStep::Continue => {}
        _ => panic!("a matchless page within budget must continue"),
    }
    assert_eq!(loc.next_request().page, 2);
    match loc.consume(page(&["Target"])) {
        LocateStep::Done(Ok(rec)) => assert_eq!(rec.name, "Target"),
        _ => panic!("expected the page-2 record"),
    }
    assert!(!loc.is_in_progress());
}

#[test]
fn absent_items_fail_protocol_error_at_once() {
    let mut loc = Locator::new("myrepo".to_string());
    let _ = loc.next_request();
    let outcome = FetchOutcome::Page(SearchPage {
        items: None,
        message: Some("rate limited".to_string()),
    });
    match loc.consume(outcome) {
        LocateStep::Done(Err(e @ LookupError::ProtocolError(Some(_)))) => {
            assert_eq!(e.message(), "Invalid API response, 'rate limited'");
        }
        _ => panic!("expected a protocol error"),
    }
    // no further pages are attempted: the search has concluded
    assert!(!loc.is_in_progress());
}

#[test]
fn absent_items_without_message_surface_an_empty_message() {
    let mut loc = Locator::new("myrepo".to_string());
    let _ = loc.next_request();
    let outcome = FetchOutcome::Page(SearchPage { items: None, message: None });
    match loc.consume(outcome) {
        LocateStep::Done(Err(e)) => assert_eq!(e.message(), "Invalid API response, ''"),
        _ => panic!("expected a protocol error"),
    }
}

#[test]
fn undecodable_response_fails_protocol_error() {
    let mut loc = Locator::new("myrepo".to_string());
    let _ = loc.next_request();
    match loc.consume(FetchOutcome::DecodeFailed) {
        LocateStep::Done(Err(e @ LookupError::ProtocolError(None))) => {
            assert_eq!(e.message(), "Invalid API response");
        }
        _ => panic!("expected a protocol error"),
    }
    assert!(!loc.is_in_progress());
}

#[test]
fn failed_request_fails_transport_error() {
    let mut loc = Locator::new("myrepo".to_string());
    let _ = loc.next_request();
    match loc.consume(FetchOutcome::ConnectionFailed) {
        LocateStep::Done(Err(e @ LookupError::TransportError)) => {
            assert_eq!(e.message(), "Connection failed");
            assert!(!e.reprints_usage());
        }
        _ => panic!("expected a transport error"),
    }
}

#[test]
fn four_matchless_pages_fail_not_found_with_the_query() {
    let mut loc = Locator::new("myrepo".to_string());
    for expected_page in 1..PAGE_BUDGET {
        assert_eq!(loc.next_request().page, expected_page);
        match loc.consume(page(&["other", "unrelated"])) {
            LocateStep::Continue => {}
            _ => panic!("pages within budget must continue"),
        }
    }
    assert_eq!(loc.next_request().page, PAGE_BUDGET);
    match loc.consume(page(&["other"])) {
        LocateStep::Done(Err(e @ LookupError::NotFound(_))) => {
            assert_eq!(e.message(), "No repository named 'myrepo' found");
        }
        _ => panic!("expected not-found after the page budget"),
    }
    assert!(!loc.is_in_progress());
}

#[test]
fn empty_pages_also_exhaust_the_budget() {
    let mut loc = Locator::new("myrepo".to_string());
    let mut last = None;
    while loc.is_in_progress() {
        let _ = loc.next_request();
        last = Some(loc.consume(page(&[])));
    }
    match last {
        Some(LocateStep::Done(Err(LookupError::NotFound(name)))) => assert_eq!(name, "myrepo"),
        _ => panic!("expected not-found"),
    }
}

#[test]
fn first_matching_record_on_a_page_wins() {
    let items = vec![record("other"), record("MyRepo"), record("myrepo")];
    match find_match(items, "MYREPO") {
        Some(rec) => assert_eq!(rec.name, "MyRepo"),
        None => panic!("expected a match"),
    }
}

#[test]
fn no_matching_record_yields_none() {
    let items = vec![record("other"), record("myrepo-fork")];
    assert!(find_match(items, "myrepo").is_none());
}
