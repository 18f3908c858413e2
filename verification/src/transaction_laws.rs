//! What holds of a time-paged engine however it is driven.

use crate::epoch::Epoch;
use crate::page::TimedPage;
use crate::state::{Event, StreamState};
use crate::transaction_stream::{
    TransactionAction, TransactionEvent, TransactionRequest, TransactionStreamView,
};
use vstd::prelude::*;

verus! {

/// The page size, the transport and the filter of an engine are fixed for
/// its lifetime.
pub proof fn lemma_transaction_wiring_is_fixed<C, T, E>(
    s: TransactionStreamView<C>,
    trace: Seq<TransactionEvent<T, E>>,
)
    ensures
        s.run(trace).client == s.client,
        s.run(trace).batch == s.batch,
        s.run(trace).vault_id == s.vault_id,
        s.run(trace).is_source == s.is_source,
    decreases trace.len(),
{
    if trace.len() > 0 {
        lemma_transaction_wiring_is_fixed(s, trace.drop_last());
    }
}

/// Running one trace and then another is running the two as one.
pub proof fn lemma_transaction_run_in_two<C, T, E>(
    s: TransactionStreamView<C>,
    first: Seq<TransactionEvent<T, E>>,
    second: Seq<TransactionEvent<T, E>>,
)
    ensures
        s.run(first + second) == s.run(first).run(second),
        s.launched(first + second) == s.launched(first) + s.run(first).launched(second),
        s.resolved(first + second) == s.resolved(first) + s.run(first).resolved(second),
    decreases second.len(),
{
    if second.len() == 0 {
        assert(first + second == first);
    } else {
        assert((first + second).drop_last() == first + second.drop_last());
        lemma_transaction_run_in_two(s, first, second.drop_last());
    }
}

/// An exhausted engine stays as it is, whatever it is told.
pub proof fn lemma_transaction_exhausted_stays<C, T, E>(
    s: TransactionStreamView<C>,
    trace: Seq<TransactionEvent<T, E>>,
)
    requires
        s.state == StreamState::Exhausted,
    ensures
        s.run(trace) == s,
        s.launched(trace) == 0,
        s.resolved(trace) == 0,
    decreases trace.len(),
{
    if trace.len() > 0 {
        lemma_transaction_exhausted_stays(s, trace.drop_last());
    }
}

/// Exhaustion is final: an exhausted engine answers every event with
/// `Done`, asks for no fetch, and never leaves that state.
pub proof fn lemma_transaction_exhausted_is_final<C, T, E>(
    s: TransactionStreamView<C>,
    trace: Seq<TransactionEvent<T, E>>,
)
    requires
        s.state == StreamState::Exhausted,
    ensures
        forall|i: int| 0 <= i <= trace.len() ==> (#[trigger] s.run(trace.take(i))) == s,
        forall|i: int|
            0 <= i < trace.len() ==> (#[trigger] s.answer_at(trace, i))
                == TransactionAction::<T, E>::Done,
        s.launched(trace) == 0,
{
    assert forall|i: int| 0 <= i <= trace.len() implies (#[trigger] s.run(trace.take(i)))
        == s by {
        lemma_transaction_exhausted_stays(s, trace.take(i));
    }
    lemma_transaction_exhausted_stays(s, trace);
}

/// After a page that holds items, the next fetch is asked from one
/// millisecond past the last item of the page, exactly: the engine
/// delivers the page, and whenever it asks for a launch after that, the
/// request carries that instant and is otherwise as before.
pub proof fn lemma_transaction_cursor_follows_last_item<C, T, E>(
    s: TransactionStreamView<C>,
    page: TimedPage<T>,
)
    requires
        s.state == StreamState::Fetching,
        page.items@.len() > 0,
        page.last_created_at().millis < i64::MAX,
    ensures
        ({
            let arrival = TransactionEvent::<T, E>::Page(page);
            let ready = s.next(arrival);
            let after = Epoch { millis: (page.last_created_at().millis + 1) as i64 };
            let request = TransactionRequest { after, ..s.request() };
            &&& s.answer(arrival) == TransactionAction::<T, E>::Deliver(page)
            &&& ready.state == StreamState::Idle
            &&& ready.after.millis == page.last_created_at().millis + 1
            &&& ready.answer(TransactionEvent::<T, E>::Advance) == TransactionAction::<
                T,
                E,
            >::Launch(request)
            &&& forall|event: TransactionEvent<T, E>|
                (#[trigger] ready.answer(event)) is Launch ==> ready.answer(event)
                    == TransactionAction::<T, E>::Launch(request)
        }),
{
}

/// The cursor moves with pages only: as long as no page arrives, every
/// request that the engine asks to have launched is the same.
pub proof fn lemma_transaction_cursor_waits_for_page<C, T, E>(
    s: TransactionStreamView<C>,
    trace: Seq<TransactionEvent<T, E>>,
)
    requires
        forall|i: int| 0 <= i < trace.len() ==> !(trace[i] is Page),
    ensures
        s.run(trace).after == s.after,
        s.run(trace).request() == s.request(),
    decreases trace.len(),
{
    if trace.len() > 0 {
        lemma_transaction_cursor_waits_for_page(s, trace.drop_last());
    }
}

/// An empty page ends the sequence at once: the engine delivers nothing
/// for it, answers this and every later event with `Done`, and no further
/// fetch is launched.
pub proof fn lemma_transaction_empty_page_ends<C, T, E>(
    s: TransactionStreamView<C>,
    page: TimedPage<T>,
    trace: Seq<TransactionEvent<T, E>>,
)
    requires
        s.state == StreamState::Fetching,
        page.items@.len() == 0,
    ensures
        ({
            let arrival = TransactionEvent::<T, E>::Page(page);
            let ended = s.next(arrival);
            &&& s.answer(arrival) == TransactionAction::<T, E>::Done
            &&& ended == s.moved_to(StreamState::Exhausted)
            &&& forall|i: int|
                0 <= i < trace.len() ==> (#[trigger] ended.answer_at(trace, i))
                    == TransactionAction::<T, E>::Done
            &&& ended.launched(trace) == 0
        }),
{
    lemma_transaction_exhausted_is_final(s.next(TransactionEvent::<T, E>::Page(page)), trace);
}

/// An engine that waits for a launch stays as it is until it is told what
/// came of one: to every other event it answers with the same request.
pub proof fn lemma_transaction_waits_for_launch<C, T, E>(
    s: TransactionStreamView<C>,
    trace: Seq<TransactionEvent<T, E>>,
)
    requires
        s.state.awaits_launch(),
        forall|i: int| 0 <= i < trace.len() ==> !(trace[i] is Launched) && !(trace[i] is Rejected),
    ensures
        s.run(trace) == s,
        s.launched(trace) == 0,
        forall|i: int|
            0 <= i < trace.len() ==> (#[trigger] s.answer_at(trace, i)) == TransactionAction::<
                T,
                E,
            >::Launch(s.request()),
    decreases trace.len(),
{
    if trace.len() > 0 {
        let shorter = trace.drop_last();
        lemma_transaction_waits_for_launch(s, shorter);
        assert forall|i: int| 0 <= i < trace.len() implies (#[trigger] s.answer_at(trace, i))
            == TransactionAction::<T, E>::Launch(s.request()) by {
            if i < shorter.len() {
                assert(trace.take(i) == shorter.take(i));
                assert(s.answer_at(trace, i) == s.answer_at(shorter, i));
            } else {
                assert(trace.take(i) == shorter);
            }
        }
    }
}

/// A request that the parameter builder refuses ends the sequence with
/// that one error: the engine hands the error on, answers every later
/// event with `Done`, and no fetch is launched, neither for the refused
/// request nor after it.
pub proof fn lemma_transaction_rejected_request_ends<C, T, E>(
    s: TransactionStreamView<C>,
    error: E,
    trace: Seq<TransactionEvent<T, E>>,
)
    requires
        s.state.awaits_launch(),
    ensures
        ({
            let refusal = TransactionEvent::<T, E>::Rejected(error);
            let ended = s.next(refusal);
            &&& s.answer(refusal) == TransactionAction::<T, E>::Fail(error)
            &&& !s.state.launches(refusal)
            &&& ended.state == StreamState::Exhausted
            &&& forall|i: int|
                0 <= i < trace.len() ==> (#[trigger] ended.answer_at(trace, i))
                    == TransactionAction::<T, E>::Done
            &&& ended.launched(trace) == 0
        }),
{
    lemma_transaction_exhausted_is_final(
        s.next(TransactionEvent::<T, E>::Rejected(error)),
        trace,
    );
}

/// Where the parameter builder refuses the first request, the sequence is
/// that one error and no fetch is ever launched: the engine asks for the
/// launch until it is told of the refusal, hands the error on, and
/// answers every later event with `Done`.
pub proof fn lemma_transaction_refused_first_request<C, T, E>(
    s: TransactionStreamView<C>,
    asking: Seq<TransactionEvent<T, E>>,
    error: E,
    later: Seq<TransactionEvent<T, E>>,
)
    requires
        s.state == StreamState::Uninitialized,
        forall|i: int|
            0 <= i < asking.len() ==> !(asking[i] is Launched) && !(asking[i] is Rejected),
    ensures
        ({
            let trace = asking + seq![TransactionEvent::<T, E>::Rejected(error)] + later;
            &&& forall|i: int|
                0 <= i < asking.len() ==> (#[trigger] s.answer_at(trace, i))
                    == TransactionAction::<T, E>::Launch(s.request())
            &&& s.answer_at(trace, asking.len() as int) == TransactionAction::<T, E>::Fail(error)
            &&& forall|i: int|
                asking.len() < i < trace.len() ==> (#[trigger] s.answer_at(trace, i))
                    == TransactionAction::<T, E>::Done
            &&& s.launched(trace) == 0
            &&& s.run(trace).state == StreamState::Exhausted
        }),
{
    let refusal = seq![TransactionEvent::<T, E>::Rejected(error)];
    let head = asking + refusal;
    let trace = head + later;
    let n = asking.len() as int;
    lemma_transaction_waits_for_launch(s, asking);
    lemma_transaction_run_in_two(s, asking, refusal);
    assert(refusal.drop_last() == Seq::<TransactionEvent<T, E>>::empty());
    assert(s.run(refusal) == s.next(refusal.last()));
    assert(s.launched(refusal) == s.launched(refusal.drop_last()));
    let ended = s.run(head);
    lemma_transaction_run_in_two(s, head, later);
    lemma_transaction_exhausted_is_final(ended, later);
    assert forall|i: int| 0 <= i < n implies (#[trigger] s.answer_at(trace, i))
        == TransactionAction::<T, E>::Launch(s.request()) by {
        assert(trace.take(i) == asking.take(i));
        assert(s.answer_at(asking, i) == s.answer_at(trace, i));
    }
    assert(trace.take(n) == asking);
    assert forall|i: int| n < i < trace.len() implies (#[trigger] s.answer_at(trace, i))
        == TransactionAction::<T, E>::Done by {
        let j = i - n - 1;
        assert(trace.take(i) == head + later.take(j));
        lemma_transaction_run_in_two(s, head, later.take(j));
        assert(ended.answer_at(later, j) == s.answer_at(trace, i));
    }
}

/// A fetch that fails ends the sequence with that one error, and no
/// further fetch is launched.
pub proof fn lemma_transaction_failed_fetch_ends<C, T, E>(
    s: TransactionStreamView<C>,
    error: E,
    trace: Seq<TransactionEvent<T, E>>,
)
    requires
        s.state == StreamState::Fetching,
    ensures
        ({
            let failure = TransactionEvent::<T, E>::Failed(error);
            let ended = s.next(failure);
            &&& s.answer(failure) == TransactionAction::<T, E>::Fail(error)
            &&& ended.state == StreamState::Exhausted
            &&& forall|i: int|
                0 <= i < trace.len() ==> (#[trigger] ended.answer_at(trace, i))
                    == TransactionAction::<T, E>::Done
            &&& ended.launched(trace) == 0
        }),
{
    lemma_transaction_exhausted_is_final(s.next(TransactionEvent::<T, E>::Failed(error)), trace);
}

/// An error is the last element of its sequence: an engine that has
/// handed one on is exhausted, and answers every later event with `Done`.
pub proof fn lemma_transaction_error_is_last<C, T, E>(
    s: TransactionStreamView<C>,
    event: TransactionEvent<T, E>,
    trace: Seq<TransactionEvent<T, E>>,
)
    requires
        s.answer(event) is Fail,
    ensures
        s.next(event).state == StreamState::Exhausted,
        forall|i: int|
            0 <= i < trace.len() ==> (#[trigger] s.next(event).answer_at(trace, i))
                == TransactionAction::<T, E>::Done,
        s.next(event).launched(trace) == 0,
{
    lemma_transaction_exhausted_is_final(s.next(event), trace);
}

/// The fetches that were launched and have not resolved are those that the
/// state counts as in flight.
pub proof fn lemma_transaction_in_flight_is_counted<C, T, E>(
    s: TransactionStreamView<C>,
    trace: Seq<TransactionEvent<T, E>>,
)
    ensures
        s.state.in_flight() + s.launched(trace) - s.resolved(trace) == s.run(
            trace,
        ).state.in_flight(),
    decreases trace.len(),
{
    if trace.len() > 0 {
        lemma_transaction_in_flight_is_counted(s, trace.drop_last());
    }
}

/// At every instant at most one fetch of an engine is in flight: of the
/// fetches launched since the engine was made, all have resolved, or all
/// but one. The engine asks for a launch only when none is in flight.
pub proof fn lemma_transaction_one_fetch_in_flight<C, T, E>(
    s: TransactionStreamView<C>,
    trace: Seq<TransactionEvent<T, E>>,
)
    requires
        s.state == StreamState::Uninitialized,
    ensures
        forall|i: int|
            0 <= i <= trace.len() ==> 0 <= (#[trigger] s.launched(trace.take(i))) - s.resolved(
                trace.take(i),
            ) <= 1,
        forall|i: int|
            0 <= i < trace.len() && (#[trigger] s.answer_at(trace, i)) is Launch ==> s.launched(
                trace.take(i),
            ) == s.resolved(trace.take(i)),
{
    assert forall|i: int| 0 <= i <= trace.len() implies 0 <= (#[trigger] s.launched(
        trace.take(i),
    )) - s.resolved(trace.take(i)) <= 1 by {
        lemma_transaction_in_flight_is_counted(s, trace.take(i));
    }
    assert forall|i: int|
        0 <= i < trace.len() && (#[trigger] s.answer_at(trace, i)) is Launch implies s.launched(
        trace.take(i),
    ) == s.resolved(trace.take(i)) by {
        lemma_transaction_in_flight_is_counted(s, trace.take(i));
    }
}

/// One event that is in keeping with the request does not move the cursor
/// back, and a page that holds items moves it forward.
pub proof fn lemma_transaction_cursor_step<C, T, E>(
    s: TransactionStreamView<C>,
    event: TransactionEvent<T, E>,
)
    requires
        s.honoured_by(event),
    ensures
        s.admits(event),
        s.after.millis <= s.next(event).after.millis,
        s.state == StreamState::Fetching && (event matches Event::Page(page) && page.items@.len()
            > 0) ==> s.after.millis < s.next(event).after.millis,
{
}

/// Where every page is in keeping with the request that it answers, the
/// cursor never moves back.
pub proof fn lemma_transaction_cursor_never_moves_back<C, T, E>(
    s: TransactionStreamView<C>,
    trace: Seq<TransactionEvent<T, E>>,
)
    requires
        forall|i: int|
            0 <= i < trace.len() ==> (#[trigger] s.run(trace.take(i))).honoured_by(trace[i]),
    ensures
        s.after.millis <= s.run(trace).after.millis,
    decreases trace.len(),
{
    if trace.len() > 0 {
        let shorter = trace.drop_last();
        assert forall|i: int| 0 <= i < shorter.len() implies (#[trigger] s.run(
            shorter.take(i),
        )).honoured_by(shorter[i]) by {
            assert(shorter.take(i) == trace.take(i));
        }
        lemma_transaction_cursor_never_moves_back(s, shorter);
        assert(trace.take(trace.len() - 1) == shorter);
        lemma_transaction_cursor_step(s.run(shorter), trace.last());
    }
}

} // verus!
