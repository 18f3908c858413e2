use paged_stream::{Epoch, Stamped, TimedPage, TokenPage};

fn stamped(millis: i64) -> Stamped<&'static str> {
    Stamped { created_at: Epoch { millis }, item: "tx" }
}

#[test]
fn a_token_page_leads_to_its_token() {
    let page = TokenPage { items: vec![1, 2], next: Some("cursor-2".to_string()) };
    assert_eq!(page.next_cursor(), Some("cursor-2".to_string()));
    assert!(!page.is_exhausted());
}

#[test]
fn a_token_page_without_a_token_is_the_last() {
    let page = TokenPage { items: vec![1, 2], next: None };
    assert_eq!(page.next_cursor(), None);
    assert!(page.is_exhausted());
}

#[test]
fn a_token_page_is_not_judged_by_its_items() {
    let empty: TokenPage<i32> = TokenPage { items: vec![], next: Some("t".to_string()) };
    assert!(!empty.is_exhausted());
    assert_eq!(empty.next_cursor(), Some("t".to_string()));
}

#[test]
fn a_timed_page_leads_one_millisecond_past_its_last_item() {
    let page = TimedPage { items: vec![stamped(100)] };
    assert_eq!(page.next_cursor(), Some(Epoch { millis: 101 }));
    assert!(!page.is_exhausted());
}

#[test]
fn a_timed_page_is_read_at_its_end() {
    let page = TimedPage { items: vec![stamped(10), stamped(20), stamped(30)] };
    assert_eq!(page.next_cursor(), Some(Epoch { millis: 31 }));
    // The last item counts, not the latest.
    let unsorted = TimedPage { items: vec![stamped(50), stamped(40)] };
    assert_eq!(unsorted.next_cursor(), Some(Epoch { millis: 41 }));
}

#[test]
fn an_empty_timed_page_leads_nowhere() {
    let page: TimedPage<&'static str> = TimedPage { items: vec![] };
    assert_eq!(page.next_cursor(), None);
    assert!(page.is_exhausted());
}

#[test]
fn a_timed_page_before_1970() {
    let page = TimedPage { items: vec![stamped(-1)] };
    assert_eq!(page.next_cursor(), Some(Epoch { millis: 0 }));
    let page = TimedPage { items: vec![stamped(-86_400_000)] };
    assert_eq!(page.next_cursor(), Some(Epoch { millis: -86_399_999 }));
}

#[test]
fn a_timed_page_just_before_the_last_instant() {
    let page = TimedPage { items: vec![stamped(i64::MAX - 1)] };
    assert_eq!(page.next_cursor(), Some(Epoch { millis: i64::MAX }));
    let page = TimedPage { items: vec![stamped(i64::MIN)] };
    assert_eq!(page.next_cursor(), Some(Epoch { millis: i64::MIN + 1 }));
}
