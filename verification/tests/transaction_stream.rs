use paged_stream::{
    Action, Epoch, Event, OrderBy, PagedClient, Party, Sort, Stamped, StreamState, TimedPage,
    TransactionRequest, TransactionStream,
};
use std::sync::Arc;

/// A transport that is never called: the engine only carries the handle.
struct Ledger;

type Page = TimedPage<u32>;
type Outcome = Result<Page, String>;

#[derive(Debug, PartialEq)]
enum Polled {
    Pending,
    Ready(Option<Outcome>),
}

/// A fetcher that hands out prepared outcomes, one per fetch, and counts.
struct Fetcher {
    outcomes: Vec<Outcome>,
    requests: Vec<TransactionRequest>,
    in_flight: usize,
    most_in_flight: usize,
    polls: usize,
    delay: usize,
    waited: usize,
}

impl Fetcher {
    fn new(outcomes: Vec<Outcome>, delay: usize) -> Fetcher {
        Fetcher {
            outcomes,
            requests: Vec::new(),
            in_flight: 0,
            most_in_flight: 0,
            polls: 0,
            delay,
            waited: 0,
        }
    }

    fn calls(&self) -> usize {
        self.requests.len()
    }

    fn launch(&mut self, request: TransactionRequest) {
        self.requests.push(request);
        self.in_flight += 1;
        if self.in_flight > self.most_in_flight {
            self.most_in_flight = self.in_flight;
        }
        self.waited = 0;
    }

    fn poll(&mut self) -> Event<Page, String> {
        self.polls += 1;
        assert!(self.in_flight == 1, "polled with {} fetches in flight", self.in_flight);
        if self.waited < self.delay {
            self.waited += 1;
            return Event::NotReady;
        }
        self.in_flight -= 1;
        let at = self.requests.len() - 1;
        match self.outcomes[at].clone() {
            Ok(page) => Event::Page(page),
            Err(e) => Event::Failed(e),
        }
    }
}

fn accept_all(_request: &TransactionRequest) -> Result<(), String> {
    Ok(())
}

fn refuse_all(_request: &TransactionRequest) -> Result<(), String> {
    Err("limit out of range".to_string())
}

fn refuse_after_200(request: &TransactionRequest) -> Result<(), String> {
    if request.after.millis > 200 {
        Err("too late".to_string())
    } else {
        Ok(())
    }
}

fn advance(
    stream: &mut TransactionStream<Ledger>,
    fetcher: &mut Fetcher,
    build: fn(&TransactionRequest) -> Result<(), String>,
) -> Polled {
    let mut event: Event<Page, String> = Event::Advance;
    let mut turns = 0;
    loop {
        turns += 1;
        assert!(turns <= 2, "an advance takes at most one instruction");
        match stream.poll_next(event) {
            Action::Launch(request) => {
                event = match build(&request) {
                    Ok(()) => {
                        fetcher.launch(request);
                        Event::Launched
                    }
                    Err(e) => Event::Rejected(e),
                };
            }
            Action::Poll => event = fetcher.poll(),
            Action::Pending => return Polled::Pending,
            Action::Deliver(page) => return Polled::Ready(Some(Ok(page))),
            Action::Fail(e) => return Polled::Ready(Some(Err(e))),
            Action::Done => return Polled::Ready(None),
        }
    }
}

fn drain(
    stream: &mut TransactionStream<Ledger>,
    fetcher: &mut Fetcher,
    build: fn(&TransactionRequest) -> Result<(), String>,
) -> Vec<Outcome> {
    let mut elements = Vec::new();
    for _ in 0..1000 {
        match advance(stream, fetcher, build) {
            Polled::Pending => {}
            Polled::Ready(Some(element)) => elements.push(element),
            Polled::Ready(None) => return elements,
        }
    }
    panic!("the sequence did not end");
}

fn page(stamps: &[i64]) -> Page {
    TimedPage {
        items: stamps
            .iter()
            .enumerate()
            .map(|(i, t)| Stamped { created_at: Epoch { millis: *t }, item: i as u32 })
            .collect(),
    }
}

fn from_source(vault_id: i32, batch: u16, after: Option<i64>) -> TransactionStream<Ledger> {
    PagedClient::new(Arc::new(Ledger)).transactions_from_source(
        vault_id,
        batch,
        after.map(|millis| Epoch { millis }),
    )
}

fn from_destination(vault_id: i32, batch: u16, after: Option<i64>) -> TransactionStream<Ledger> {
    PagedClient::new(Arc::new(Ledger)).transactions_from_destination(
        vault_id,
        batch,
        after.map(|millis| Epoch { millis }),
    )
}

fn source_request(vault_id: i32, limit: u16, after: i64) -> TransactionRequest {
    TransactionRequest {
        limit,
        sort: Sort::Ascending,
        order_by: OrderBy::CreatedAt,
        after: Epoch { millis: after },
        party: Party::Source(vault_id),
    }
}

#[test]
fn one_timed_page_then_an_empty_one() {
    let mut fetcher = Fetcher::new(vec![Ok(page(&[100])), Ok(page(&[]))], 0);
    let mut stream = from_source(0, 10, Some(0));
    let elements = drain(&mut stream, &mut fetcher, accept_all);
    assert_eq!(elements, vec![Ok(page(&[100]))]);
    assert_eq!(fetcher.calls(), 2);
    assert_eq!(fetcher.requests[0].after, Epoch { millis: 0 });
    assert_eq!(fetcher.requests[1].after, Epoch { millis: 101 });
    assert_eq!(stream.state(), StreamState::Exhausted);
}

#[test]
fn the_next_fetch_starts_one_millisecond_past_the_last_item() {
    let mut fetcher = Fetcher::new(
        vec![
            Ok(page(&[1_700_000_000_000, 1_700_000_000_500, 1_700_000_000_999])),
            Ok(page(&[1_700_000_001_000, 1_700_000_060_000])),
            Ok(page(&[])),
        ],
        1,
    );
    let mut stream = from_source(3, 3, Some(1_700_000_000_000));
    let elements = drain(&mut stream, &mut fetcher, accept_all);
    assert_eq!(elements.len(), 2);
    assert_eq!(
        fetcher.requests,
        vec![
            source_request(3, 3, 1_700_000_000_000),
            source_request(3, 3, 1_700_000_001_000),
            source_request(3, 3, 1_700_000_060_001),
        ]
    );
}

#[test]
fn the_cursor_after_one_page() {
    let mut stream = from_source(1, 5, Some(50));
    assert_eq!(stream.poll_next::<u32, String>(Event::Launched), Action::Pending);
    assert_eq!(
        stream.poll_next::<u32, String>(Event::Page(page(&[60, 70, 80]))),
        Action::Deliver(page(&[60, 70, 80]))
    );
    assert_eq!(stream.state(), StreamState::Idle);
    assert_eq!(stream.after(), Epoch { millis: 81 });
    assert_eq!(stream.build_params(), source_request(1, 5, 81));
    assert_eq!(
        stream.poll_next::<u32, String>(Event::Advance),
        Action::Launch(source_request(1, 5, 81))
    );
}

#[test]
fn items_at_the_same_instant_are_not_told_apart() {
    // Two items share the instant at the page's end: the cursor passes both.
    let mut stream = from_source(1, 2, Some(0));
    stream.poll_next::<u32, String>(Event::Launched);
    stream.poll_next::<u32, String>(Event::Page(page(&[500, 500])));
    assert_eq!(stream.after(), Epoch { millis: 501 });
}

#[test]
fn an_empty_first_page_ends_the_sequence_at_once() {
    let mut fetcher = Fetcher::new(vec![Ok(page(&[])), Ok(page(&[1]))], 0);
    let mut stream = from_source(0, 10, Some(0));
    assert_eq!(advance(&mut stream, &mut fetcher, accept_all), Polled::Pending);
    assert_eq!(advance(&mut stream, &mut fetcher, accept_all), Polled::Ready(None));
    assert_eq!(stream.state(), StreamState::Exhausted);
    for _ in 0..10 {
        assert_eq!(advance(&mut stream, &mut fetcher, accept_all), Polled::Ready(None));
    }
    assert_eq!(fetcher.calls(), 1);
    assert_eq!(fetcher.polls, 1);
}

#[test]
fn an_empty_page_is_not_delivered() {
    let mut stream = from_source(0, 10, Some(7));
    stream.poll_next::<u32, String>(Event::Launched);
    assert_eq!(stream.poll_next::<u32, String>(Event::Page(page(&[]))), Action::Done);
    assert_eq!(stream.state(), StreamState::Exhausted);
    assert_eq!(stream.after(), Epoch { millis: 7 });
}

#[test]
fn no_fetch_after_an_empty_page() {
    let mut fetcher =
        Fetcher::new(vec![Ok(page(&[5])), Ok(page(&[9])), Ok(page(&[])), Ok(page(&[11]))], 2);
    let mut stream = from_destination(4, 1, Some(1));
    let elements = drain(&mut stream, &mut fetcher, accept_all);
    assert_eq!(elements, vec![Ok(page(&[5])), Ok(page(&[9]))]);
    assert_eq!(fetcher.calls(), 3);
    let polls = fetcher.polls;
    for _ in 0..10 {
        assert_eq!(advance(&mut stream, &mut fetcher, accept_all), Polled::Ready(None));
    }
    assert_eq!(fetcher.calls(), 3);
    assert_eq!(fetcher.polls, polls);
}

#[test]
fn a_refused_transaction_request_is_the_only_element() {
    let mut fetcher = Fetcher::new(vec![Ok(page(&[1]))], 0);
    let mut stream = from_source(0, 0, None);
    let elements = drain(&mut stream, &mut fetcher, refuse_all);
    assert_eq!(elements, vec![Err("limit out of range".to_string())]);
    assert_eq!(fetcher.calls(), 0);
    assert_eq!(fetcher.polls, 0);
    for _ in 0..5 {
        assert_eq!(advance(&mut stream, &mut fetcher, accept_all), Polled::Ready(None));
    }
    assert_eq!(fetcher.calls(), 0);
}

#[test]
fn a_refused_later_transaction_request_ends_the_sequence() {
    let mut fetcher = Fetcher::new(vec![Ok(page(&[100, 300])), Ok(page(&[400]))], 0);
    let mut stream = from_source(0, 2, Some(0));
    let elements = drain(&mut stream, &mut fetcher, refuse_after_200);
    assert_eq!(elements, vec![Ok(page(&[100, 300])), Err("too late".to_string())]);
    assert_eq!(fetcher.calls(), 1);
    assert_eq!(advance(&mut stream, &mut fetcher, accept_all), Polled::Ready(None));
    assert_eq!(fetcher.calls(), 1);
}

#[test]
fn a_failed_transaction_fetch_is_the_last_element() {
    let mut fetcher =
        Fetcher::new(vec![Ok(page(&[10])), Err("gateway".to_string()), Ok(page(&[20]))], 1);
    let mut stream = from_source(0, 1, Some(0));
    let elements = drain(&mut stream, &mut fetcher, accept_all);
    assert_eq!(elements, vec![Ok(page(&[10])), Err("gateway".to_string())]);
    assert_eq!(fetcher.calls(), 2);
    assert_eq!(stream.after(), Epoch { millis: 11 });
    for _ in 0..5 {
        assert_eq!(advance(&mut stream, &mut fetcher, accept_all), Polled::Ready(None));
    }
    assert_eq!(fetcher.calls(), 2);
}

#[test]
fn never_two_transaction_fetches_in_flight() {
    let mut outcomes: Vec<Outcome> = (0..15).map(|i| Ok(page(&[i * 10, i * 10 + 5]))).collect();
    outcomes.push(Ok(page(&[])));
    let mut fetcher = Fetcher::new(outcomes, 3);
    let mut stream = from_source(0, 2, Some(0));
    let mut elements = 0;
    for _ in 0..1000 {
        let polled = advance(&mut stream, &mut fetcher, accept_all);
        assert!(fetcher.in_flight <= 1);
        assert_eq!(fetcher.in_flight == 1, stream.state() == StreamState::Fetching);
        match polled {
            Polled::Ready(Some(_)) => elements += 1,
            Polled::Ready(None) => break,
            Polled::Pending => {}
        }
    }
    assert_eq!(elements, 15);
    assert_eq!(fetcher.calls(), 16);
    assert_eq!(fetcher.most_in_flight, 1);
}

#[test]
fn the_cursor_does_not_move_back() {
    let mut outcomes: Vec<Outcome> = (1..12).map(|i| Ok(page(&[i * 100, i * 100 + 50]))).collect();
    outcomes.push(Ok(page(&[])));
    let mut fetcher = Fetcher::new(outcomes, 0);
    let mut stream = from_source(0, 2, Some(100));
    let mut last = stream.after();
    for _ in 0..100 {
        let polled = advance(&mut stream, &mut fetcher, accept_all);
        assert!(last.millis <= stream.after().millis);
        if let Polled::Ready(Some(Ok(_))) = polled {
            assert!(last.millis < stream.after().millis);
        }
        last = stream.after();
        if polled == Polled::Ready(None) {
            break;
        }
    }
    assert_eq!(last, Epoch { millis: 1151 });
}

#[test]
fn the_source_side_asks_by_source() {
    let stream = from_source(12, 100, Some(5));
    assert_eq!(
        stream.build_params(),
        TransactionRequest {
            limit: 100,
            sort: Sort::Ascending,
            order_by: OrderBy::CreatedAt,
            after: Epoch { millis: 5 },
            party: Party::Source(12),
        }
    );
}

#[test]
fn the_destination_side_asks_by_destination() {
    let stream = from_destination(12, 100, Some(5));
    assert_eq!(
        stream.build_params(),
        TransactionRequest {
            limit: 100,
            sort: Sort::Ascending,
            order_by: OrderBy::CreatedAt,
            after: Epoch { millis: 5 },
            party: Party::Destination(12),
        }
    );
}

#[test]
fn the_two_sides_move_their_cursor_alike() {
    let mut source = from_source(-3, 2, Some(0));
    let mut destination = from_destination(-3, 2, Some(0));
    for stream in [&mut source, &mut destination] {
        stream.poll_next::<u32, String>(Event::Launched);
        stream.poll_next::<u32, String>(Event::Page(page(&[41, 42])));
    }
    assert_eq!(source.after(), Epoch { millis: 43 });
    assert_eq!(destination.after(), Epoch { millis: 43 });
    assert_eq!(source.build_params().party, Party::Source(-3));
    assert_eq!(destination.build_params().party, Party::Destination(-3));
}

#[test]
fn a_listing_without_a_start_begins_at_the_default_instant() {
    let source = from_source(0, 100, None);
    assert_eq!(source.after(), Epoch { millis: 1_649_203_261_000 });
    assert_eq!(source.build_params().after, Epoch::default_after());
    let destination = from_destination(0, 100, None);
    assert_eq!(destination.after(), Epoch { millis: 1_649_203_261_000 });
    assert_eq!(destination.state(), StreamState::Uninitialized);
}

#[test]
fn a_listing_with_a_start_begins_there() {
    assert_eq!(from_source(0, 100, Some(0)).after(), Epoch { millis: 0 });
    assert_eq!(from_destination(0, 100, Some(-5)).after(), Epoch { millis: -5 });
    assert_eq!(
        from_source(0, 100, Some(1_649_203_261_000)).build_params(),
        from_source(0, 100, None).build_params()
    );
}

#[test]
fn the_constructors_by_side() {
    let handle = Arc::new(Ledger);
    let source = TransactionStream::from_source(handle.clone(), 7, 2, Epoch { millis: 9 });
    let destination = TransactionStream::from_dest(handle.clone(), 7, 2, Epoch { millis: 9 });
    assert_eq!(source.build_params(), source_request(2, 7, 9));
    assert_eq!(
        destination.build_params(),
        TransactionRequest { party: Party::Destination(2), ..source_request(2, 7, 9) }
    );
    assert!(Arc::ptr_eq(source.client(), &handle));
    assert!(Arc::ptr_eq(destination.client(), &handle));
    assert_eq!(source.state(), StreamState::Uninitialized);
    assert_eq!(destination.state(), StreamState::Uninitialized);
}

#[test]
fn transaction_events_that_answer_nothing_change_nothing() {
    let mut stream = from_source(0, 4, Some(10));
    assert_eq!(
        stream.poll_next::<u32, String>(Event::Page(page(&[99]))),
        Action::Launch(source_request(0, 4, 10))
    );
    assert_eq!(
        stream.poll_next::<u32, String>(Event::NotReady),
        Action::Launch(source_request(0, 4, 10))
    );
    assert_eq!(stream.after(), Epoch { millis: 10 });
    assert_eq!(stream.state(), StreamState::Uninitialized);
    assert_eq!(stream.poll_next::<u32, String>(Event::Launched), Action::Pending);
    assert_eq!(stream.poll_next::<u32, String>(Event::Launched), Action::Poll);
    assert_eq!(stream.poll_next::<u32, String>(Event::Rejected("no".to_string())), Action::Poll);
    assert_eq!(stream.poll_next::<u32, String>(Event::Advance), Action::Poll);
    assert_eq!(stream.state(), StreamState::Fetching);
    assert_eq!(stream.after(), Epoch { millis: 10 });
}

#[test]
fn an_exhausted_transaction_engine_answers_done_to_everything() {
    let mut stream = from_source(0, 4, Some(10));
    stream.poll_next::<u32, String>(Event::Launched);
    stream.poll_next::<u32, String>(Event::Failed("down".to_string()));
    assert_eq!(stream.state(), StreamState::Exhausted);
    let events: Vec<Event<Page, String>> = vec![
        Event::Advance,
        Event::Launched,
        Event::Rejected("again".to_string()),
        Event::NotReady,
        Event::Page(page(&[20])),
        Event::Failed("late".to_string()),
    ];
    for event in events {
        assert_eq!(stream.poll_next(event), Action::Done);
        assert_eq!(stream.state(), StreamState::Exhausted);
        assert_eq!(stream.after(), Epoch { millis: 10 });
    }
}

#[test]
fn a_transaction_engine_dropped_in_mid_fetch_leaves_nothing_behind() {
    let mut fetcher = Fetcher::new(vec![Ok(page(&[100])), Ok(page(&[]))], 5);
    let mut stream = from_source(0, 10, Some(0));
    assert_eq!(advance(&mut stream, &mut fetcher, accept_all), Polled::Pending);
    assert_eq!(advance(&mut stream, &mut fetcher, accept_all), Polled::Pending);
    assert_eq!(stream.state(), StreamState::Fetching);
    let calls = fetcher.calls();
    let polls = fetcher.polls;
    drop(stream);
    assert_eq!(fetcher.calls(), calls);
    assert_eq!(fetcher.polls, polls);
    assert_eq!(calls, 1);
}

#[test]
fn a_page_that_ends_just_before_the_last_instant() {
    let mut stream = from_source(0, 1, Some(0));
    stream.poll_next::<u32, String>(Event::Launched);
    stream.poll_next::<u32, String>(Event::Page(page(&[i64::MAX - 1])));
    assert_eq!(stream.after(), Epoch { millis: i64::MAX });
    assert_eq!(stream.state(), StreamState::Idle);
}
