//! The pagination protocol as a state machine over abstract signals, and the
//! laws that hold of every run of it.

use vstd::prelude::*;
use crate::page::{client_ref_of, lemma_client_ref_injective, page_in_range, PAGE_SIZE};

verus! {

/// What the coordinator remembers between two signals.
pub struct CoordState {
    /// The page whose full response is awaited to ask for the page after it.
    pub page: nat,
    /// A dispatch of page `page + 1` is in flight, and the response that
    /// asked for it waits for its outcome.
    pub awaiting: bool,
    /// The delivery channel has been closed.
    pub closed: bool,
}

/// What reaches the coordinator, stripped of payloads.
pub enum Signal {
    /// A response: its correlation reference, if it has headers, and its
    /// number of twins, if it has a payload.
    Response { client_ref: Option<Seq<char>>, twin_count: Option<nat> },
    /// The subscription stream yielded an error.
    StreamFailed,
    /// The dispatch in flight was acknowledged.
    DispatchOk,
    /// The dispatch in flight failed.
    DispatchFailed,
    /// The subscription stream ended.
    StreamEnded,
    /// The caller's timeout fired.
    TimedOut,
}

/// What the coordinator asks its runner to do, stripped of payloads.
pub enum Effect {
    /// Dispatch a request for the given page.
    Dispatch(nat),
    /// Deliver a response on the channel.
    DeliverResponse,
    /// Deliver an error on the channel.
    DeliverFailure,
    /// Close the channel.
    Close,
}

/// The state at the start of a session.
pub open spec fn initial_state() -> CoordState {
    CoordState { page: 0, awaiting: false, closed: false }
}

/// A response is full when it holds at least a page of twins.
pub open spec fn is_full(twin_count: Option<nat>) -> bool {
    twin_count is Some && twin_count->Some_0 >= PAGE_SIZE
}

/// A response extends page `page` of session `correlation_id` when it is full
/// and answers exactly that page.
pub open spec fn saturates(
    correlation_id: Seq<char>,
    page: nat,
    client_ref: Option<Seq<char>>,
    twin_count: Option<nat>,
) -> bool {
    is_full(twin_count) && client_ref == Some(client_ref_of(correlation_id, page))
}

/// One transition: the next state and the effects, in order.
pub open spec fn step(correlation_id: Seq<char>, s: CoordState, e: Signal) -> (CoordState, Seq<Effect>) {
    if s.closed {
        (s, seq![])
    } else {
        match e {
            Signal::Response { client_ref, twin_count } => {
                if s.awaiting || !saturates(correlation_id, s.page, client_ref, twin_count) {
                    (s, seq![Effect::DeliverResponse])
                } else if page_in_range(s.page + 1) {
                    (CoordState { awaiting: true, ..s }, seq![Effect::Dispatch(s.page + 1)])
                } else {
                    (s, seq![Effect::DeliverFailure, Effect::DeliverResponse])
                }
            },
            Signal::StreamFailed => (s, seq![Effect::DeliverFailure]),
            Signal::DispatchOk => {
                if s.awaiting {
                    (CoordState { page: s.page + 1, awaiting: false, ..s }, seq![Effect::DeliverResponse])
                } else {
                    (s, seq![])
                }
            },
            Signal::DispatchFailed => {
                if s.awaiting {
                    (
                        CoordState { awaiting: false, ..s },
                        seq![Effect::DeliverFailure, Effect::DeliverResponse],
                    )
                } else {
                    (s, seq![])
                }
            },
            Signal::StreamEnded => {
                let out = if s.awaiting {
                    seq![Effect::DeliverResponse, Effect::Close]
                } else {
                    seq![Effect::Close]
                };
                (CoordState { awaiting: false, closed: true, ..s }, out)
            },
            Signal::TimedOut => (CoordState { awaiting: false, closed: true, ..s }, seq![Effect::Close]),
        }
    }
}

/// The state reached and the effects produced, in order, by a sequence of signals.
pub open spec fn run(correlation_id: Seq<char>, s: CoordState, es: Seq<Signal>) -> (CoordState, Seq<Effect>)
    decreases es.len(),
{
    if es.len() == 0 {
        (s, seq![])
    } else {
        let prev = run(correlation_id, s, es.drop_last());
        let next = step(correlation_id, prev.0, es.last());
        (next.0, prev.1 + next.1)
    }
}

/// The number of elements of `s` that satisfy `p`.
pub open spec fn count<A>(s: Seq<A>, p: spec_fn(A) -> bool) -> nat
    decreases s.len(),
{
    if s.len() == 0 {
        0
    } else {
        count(s.drop_last(), p) + if p(s.last()) { 1nat } else { 0nat }
    }
}

/// The signal is a response.
pub open spec fn is_response(e: Signal) -> bool {
    e is Response
}

/// The signal acknowledges a dispatch.
pub open spec fn is_dispatch_ok(e: Signal) -> bool {
    e is DispatchOk
}

/// The signal is the timeout.
pub open spec fn is_timeout(e: Signal) -> bool {
    e is TimedOut
}

/// The signal ends the session.
pub open spec fn ends_session(e: Signal) -> bool {
    e is StreamEnded || e is TimedOut
}

/// The effect delivers a response.
pub open spec fn is_deliver_response(f: Effect) -> bool {
    f is DeliverResponse
}

/// The signal is an error of the stream.
pub open spec fn is_stream_failed(e: Signal) -> bool {
    e is StreamFailed
}

/// The effect delivers an error.
pub open spec fn is_deliver_failure(f: Effect) -> bool {
    f is DeliverFailure
}

/// The effect closes the channel.
pub open spec fn is_close(f: Effect) -> bool {
    f is Close
}

/// The effect dispatches a page request.
pub open spec fn is_dispatch(f: Effect) -> bool {
    f is Dispatch
}

/// Counting over a concatenation adds the counts of the parts.
pub proof fn lemma_count_concat<A>(a: Seq<A>, b: Seq<A>, p: spec_fn(A) -> bool)
    ensures
        count(a + b, p) == count(a, p) + count(b, p),
    decreases b.len(),
{
    if b.len() > 0 {
        lemma_count_concat(a, b.drop_last(), p);
        assert((a + b).drop_last() =~= a + b.drop_last());
    } else {
        assert(a + b =~= a);
    }
}

/// Counts over sequences of one and two elements.
pub proof fn lemma_count_small<A>(x: A, y: A, p: spec_fn(A) -> bool)
    ensures
        count(seq![x], p) == if p(x) { 1nat } else { 0nat },
        count(seq![x, y], p) == count(seq![x], p) + if p(y) { 1nat } else { 0nat },
        count(Seq::<A>::empty(), p) == 0,
{
    assert(count(Seq::<A>::empty(), p) == 0);
    assert(seq![x].drop_last() =~= Seq::<A>::empty());
    assert(seq![x].last() == x);
    assert(seq![x, y].drop_last() =~= seq![x]);
    assert(seq![x, y].last() == y);
}

/// The effects of one step, counted by kind.
proof fn lemma_step_counts(c: Seq<char>, s: CoordState, e: Signal)
    ensures
        ({
            let (t, out) = step(c, s, e);
            &&& count(out, |f: Effect| is_deliver_response(f)) + (if t.awaiting { 1nat } else { 0nat })
                <= (if is_response(e) { 1nat } else { 0nat }) + (if s.awaiting { 1nat } else { 0nat })
            &&& (!s.closed && !is_timeout(e)) ==> count(out, |f: Effect| is_deliver_response(f)) + (
            if t.awaiting { 1nat } else { 0nat }) == (if is_response(e) { 1nat } else { 0nat }) + (
            if s.awaiting { 1nat } else { 0nat })
            &&& (!s.closed && is_stream_failed(e)) ==> count(out, |f: Effect| is_deliver_failure(f)) == 1
            &&& count(out, |f: Effect| is_close(f)) == if !s.closed && ends_session(e) { 1nat } else { 0nat }
            &&& t.closed == (s.closed || ends_session(e))
            &&& t.page + (if t.awaiting { 1nat } else { 0nat }) <= s.page + (if s.awaiting { 1nat } else { 0nat })
                + count(out, |f: Effect| is_dispatch(f))
        }),
{
    lemma_count_small(Effect::DeliverResponse, Effect::Close, |f: Effect| is_deliver_response(f));
    lemma_count_small(Effect::DeliverResponse, Effect::Close, |f: Effect| is_close(f));
    lemma_count_small(Effect::DeliverFailure, Effect::DeliverResponse, |f: Effect| is_deliver_response(f));
    lemma_count_small(Effect::DeliverFailure, Effect::DeliverResponse, |f: Effect| is_deliver_failure(f));
    lemma_count_small(Effect::DeliverFailure, Effect::DeliverResponse, |f: Effect| is_close(f));
    lemma_count_small(Effect::DeliverFailure, Effect::DeliverResponse, |f: Effect| is_dispatch(f));
    lemma_count_small(Effect::DeliverResponse, Effect::Close, |f: Effect| is_dispatch(f));
    lemma_count_small(Effect::Dispatch(s.page + 1), Effect::Close, |f: Effect| is_deliver_response(f));
    lemma_count_small(Effect::Dispatch(s.page + 1), Effect::Close, |f: Effect| is_close(f));
    lemma_count_small(Effect::Dispatch(s.page + 1), Effect::Close, |f: Effect| is_dispatch(f));
    lemma_count_small(Effect::Close, Effect::Close, |f: Effect| is_deliver_response(f));
    lemma_count_small(Effect::Close, Effect::Close, |f: Effect| is_deliver_failure(f));
    lemma_count_small(Effect::Close, Effect::Close, |f: Effect| is_close(f));
    lemma_count_small(Effect::Close, Effect::Close, |f: Effect| is_dispatch(f));
}

/// Saturation gate: a response leads to a dispatch exactly when the session is
/// open, no dispatch is in flight, the response is full and answers the page
/// currently tracked, and the next page's offset can be written; the dispatch
/// then asks for the page after the tracked one.
pub proof fn lemma_saturation_gate(
    correlation_id: Seq<char>,
    s: CoordState,
    client_ref: Option<Seq<char>>,
    twin_count: Option<nat>,
)
    ensures
        ({
            let out = step(correlation_id, s, Signal::Response { client_ref, twin_count }).1;
            &&& count(out, |f: Effect| is_dispatch(f)) == if !s.closed && !s.awaiting && saturates(
                correlation_id,
                s.page,
                client_ref,
                twin_count,
            ) && page_in_range(s.page + 1) {
                1nat
            } else {
                0nat
            }
            &&& forall|i: int| 0 <= i < out.len() && #[trigger] out[i] is Dispatch ==> out[i] == Effect::Dispatch(s.page + 1)
        }),
{
    lemma_count_small(Effect::DeliverResponse, Effect::Close, |f: Effect| is_dispatch(f));
    lemma_count_small(Effect::DeliverFailure, Effect::DeliverResponse, |f: Effect| is_dispatch(f));
    lemma_count_small(Effect::Dispatch(s.page + 1), Effect::Close, |f: Effect| is_dispatch(f));
}

/// A full response that answers a page other than the one tracked never leads
/// to a dispatch: once the counter has moved past a page, late or duplicate
/// full responses to that page are passed on and nothing more.
pub proof fn lemma_stale_page_ignored(correlation_id: Seq<char>, s: CoordState, answered: nat, twin_count: Option<nat>)
    requires
        answered != s.page,
    ensures
        step(correlation_id, s, Signal::Response { client_ref: Some(client_ref_of(correlation_id, answered)), twin_count }).1
            == (if s.closed { Seq::<Effect>::empty() } else { seq![Effect::DeliverResponse] }),
{
    if client_ref_of(correlation_id, answered) == client_ref_of(correlation_id, s.page) {
        lemma_client_ref_injective(correlation_id, answered, s.page);
    }
}

/// The page counter changes only when a dispatch in flight is acknowledged,
/// and then grows by exactly one.
pub proof fn lemma_step_page(correlation_id: Seq<char>, s: CoordState, e: Signal)
    ensures
        step(correlation_id, s, e).0.page == s.page + if !s.closed && s.awaiting && e is DispatchOk {
            1nat
        } else {
            0nat
        },
{
}

/// Over any run the page counter never decreases, grows by at most the number
/// of acknowledgements received, and never by more than the dispatches issued.
pub proof fn lemma_run_page(correlation_id: Seq<char>, s: CoordState, es: Seq<Signal>)
    ensures
        ({
            let (t, out) = run(correlation_id, s, es);
            &&& s.page <= t.page
            &&& t.page <= s.page + count(es, |e: Signal| is_dispatch_ok(e))
            &&& t.page + (if t.awaiting { 1nat } else { 0nat }) <= s.page + (if s.awaiting { 1nat } else { 0nat })
                + count(out, |f: Effect| is_dispatch(f))
        }),
    decreases es.len(),
{
    if es.len() > 0 {
        let prev = run(correlation_id, s, es.drop_last());
        let next = step(correlation_id, prev.0, es.last());
        lemma_run_page(correlation_id, s, es.drop_last());
        lemma_step_page(correlation_id, prev.0, es.last());
        lemma_step_counts(correlation_id, prev.0, es.last());
        lemma_count_concat(prev.1, next.1, |f: Effect| is_dispatch(f));
    }
}

/// Closure: from an open state, the channel is closed after a run exactly when
/// the stream ended or the timeout fired in it; it is closed once, and the close
/// is the last effect.
pub proof fn lemma_run_closure(correlation_id: Seq<char>, s: CoordState, es: Seq<Signal>)
    requires
        !s.closed,
    ensures
        ({
            let (t, out) = run(correlation_id, s, es);
            &&& t.closed <==> exists|i: int| 0 <= i < es.len() && ends_session(#[trigger] es[i])
            &&& count(out, |f: Effect| is_close(f)) == if t.closed { 1nat } else { 0nat }
            &&& t.closed ==> out.len() > 0 && out.last() is Close
        }),
    decreases es.len(),
{
    if es.len() > 0 {
        let prev = run(correlation_id, s, es.drop_last());
        let next = step(correlation_id, prev.0, es.last());
        lemma_run_closure(correlation_id, s, es.drop_last());
        lemma_step_counts(correlation_id, prev.0, es.last());
        lemma_count_concat(prev.1, next.1, |f: Effect| is_close(f));
        if prev.0.closed {
            let i = choose|i: int| 0 <= i < es.drop_last().len() && ends_session(#[trigger] es.drop_last()[i]);
            assert(ends_session(es[i]));
            assert(next.1 =~= Seq::<Effect>::empty());
            assert(prev.1 + next.1 =~= prev.1);
        } else {
            if exists|i: int| 0 <= i < es.len() && ends_session(#[trigger] es[i]) {
                let i = choose|i: int| 0 <= i < es.len() && ends_session(#[trigger] es[i]);
                if i < es.len() - 1 {
                    assert(ends_session(es.drop_last()[i]));
                }
            }
            if ends_session(es.last()) {
                assert(ends_session(es[es.len() - 1]));
            }
        }
    }
}

/// Forwarding: no response is delivered twice; and over a run from an open
/// state in which the session ends at most at its last signal and no timeout
/// fires, the responses delivered, with the one that waits for its dispatch's
/// outcome, are exactly the responses received, and every stream error is
/// delivered.
pub proof fn lemma_run_forwarding(correlation_id: Seq<char>, s: CoordState, es: Seq<Signal>)
    ensures
        ({
            let (t, out) = run(correlation_id, s, es);
            &&& count(out, |f: Effect| is_deliver_response(f)) + (if t.awaiting { 1nat } else { 0nat })
                <= count(es, |e: Signal| is_response(e)) + (if s.awaiting { 1nat } else { 0nat })
            &&& (!s.closed && count(es, |e: Signal| is_timeout(e)) == 0 && (forall|i: int|
                0 <= i < es.len() - 1 ==> !ends_session(#[trigger] es[i]))) ==> {
                &&& count(out, |f: Effect| is_deliver_response(f)) + (if t.awaiting { 1nat } else { 0nat })
                    == count(es, |e: Signal| is_response(e)) + (if s.awaiting { 1nat } else { 0nat })
                &&& count(out, |f: Effect| is_deliver_failure(f)) >= count(es, |e: Signal| is_stream_failed(e))
            }
        }),
    decreases es.len(),
{
    if es.len() > 0 {
        let prev = run(correlation_id, s, es.drop_last());
        let next = step(correlation_id, prev.0, es.last());
        lemma_run_forwarding(correlation_id, s, es.drop_last());
        lemma_step_counts(correlation_id, prev.0, es.last());
        lemma_count_concat(prev.1, next.1, |f: Effect| is_deliver_response(f));
        lemma_count_concat(prev.1, next.1, |f: Effect| is_deliver_failure(f));
        if !s.closed && count(es, |e: Signal| is_timeout(e)) == 0 && (forall|i: int|
            0 <= i < es.len() - 1 ==> !ends_session(#[trigger] es[i])) {
            assert forall|i: int| 0 <= i < es.drop_last().len() - 1 implies !ends_session(
                #[trigger] es.drop_last()[i],
            ) by {
                assert(es.drop_last()[i] == es[i]);
            }
            lemma_run_closure(correlation_id, s, es.drop_last());
            assert forall|i: int| 0 <= i < es.drop_last().len() implies !ends_session(
                #[trigger] es.drop_last()[i],
            ) by {
                assert(es.drop_last()[i] == es[i]);
            }
        }
    }
}

} // verus!
