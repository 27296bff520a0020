//! The pagination coordinator: the decisions of a search session, taken one
//! event at a time. Its runner performs the actions it returns (dispatching a
//! page, delivering on the channel, closing it) and reports what came of them.

use vstd::prelude::*;
use crate::model::{initial_state, saturates, step, CoordState, Effect, Signal};
use crate::page::{client_ref, page_in_range, page_request, requests_page, PageRequest, Scope, PAGE_SIZE};

verus! {

/// What the coordinator reads of a response.
#[derive(Clone, Debug)]
pub struct ResponseMeta {
    /// The correlation reference of the response's headers, if it has headers.
    pub client_ref: Option<String>,
    /// The number of twins of the response's payload, if it has a payload.
    pub twin_count: Option<usize>,
}

impl ResponseMeta {
    /// The correlation reference, as characters.
    pub open spec fn client_ref_view(self) -> Option<Seq<char>> {
        match self.client_ref {
            Some(r) => Some(r@),
            None => None,
        }
    }

    /// The number of twins, as a natural number.
    pub open spec fn twin_count_view(self) -> Option<nat> {
        match self.twin_count {
            Some(n) => Some(n as nat),
            None => None,
        }
    }
}

/// What happens to a session: `T` is a response, `E` an error of the transport.
pub enum Event<T, E> {
    /// The subscription stream yielded a response.
    Received(T, ResponseMeta),
    /// The subscription stream yielded an error.
    StreamFailed(E),
    /// The outcome of the dispatch last asked for.
    Dispatched(Result<(), E>),
    /// The subscription stream ended.
    StreamEnded,
    /// The caller's timeout fired.
    TimedOut,
}

impl<T, E> Event<T, E> {
    /// The event stripped of its payloads.
    pub open spec fn signal(self) -> Signal {
        match self {
            Event::Received(_, meta) => Signal::Response {
                client_ref: meta.client_ref_view(),
                twin_count: meta.twin_count_view(),
            },
            Event::StreamFailed(_) => Signal::StreamFailed,
            Event::Dispatched(Ok(())) => Signal::DispatchOk,
            Event::Dispatched(Err(_)) => Signal::DispatchFailed,
            Event::StreamEnded => Signal::StreamEnded,
            Event::TimedOut => Signal::TimedOut,
        }
    }
}

/// An error delivered on the channel in the course of a session.
#[derive(Clone, Debug)]
pub enum SearchFailure<E> {
    /// The subscription stream yielded this error.
    Stream(E),
    /// The dispatch of page `page` failed.
    Dispatch { page: u32, cause: E },
    /// Page `page` was due, but its offset cannot be written.
    PageOutOfRange { page: u32 },
}

/// What the coordinator asks its runner to do.
pub enum Action<T, E> {
    /// Send this page request, with the session's filter, and report the outcome.
    Dispatch(PageRequest),
    /// Deliver this item on the channel.
    Deliver(Result<T, SearchFailure<E>>),
    /// Close the channel.
    Close,
}

impl<T, E> Action<T, E> {
    /// The action stripped of its payloads.
    pub open spec fn effect(self) -> Effect {
        match self {
            Action::Dispatch(r) => Effect::Dispatch((r.range.offset / PAGE_SIZE) as nat),
            Action::Deliver(Ok(_)) => Effect::DeliverResponse,
            Action::Deliver(Err(_)) => Effect::DeliverFailure,
            Action::Close => Effect::Close,
        }
    }
}

/// The actions stripped of their payloads.
pub open spec fn effects<T, E>(actions: Seq<Action<T, E>>) -> Seq<Effect> {
    actions.map_values(|a: Action<T, E>| a.effect())
}

/// The state of a session's coordinator.
pub struct Coordinator<T> {
    correlation_id: String,
    transaction_ref: Vec<String>,
    scope: Scope,
    page: u32,
    pending: Option<T>,
    closed: bool,
}

/// The model of a coordinator.
pub struct CoordinatorView<T> {
    pub correlation_id: Seq<char>,
    pub transaction_ref: Seq<String>,
    pub scope: Scope,
    /// The page whose full response is awaited to ask for the page after it.
    pub page: nat,
    /// The response held while the dispatch it asked for is in flight.
    pub pending: Option<T>,
    pub closed: bool,
}

impl<T> CoordinatorView<T> {
    /// The model stripped of its payloads.
    pub open spec fn state(self) -> CoordState {
        CoordState { page: self.page, awaiting: self.pending is Some, closed: self.closed }
    }
}

impl<T> View for Coordinator<T> {
    type V = CoordinatorView<T>;

    closed spec fn view(&self) -> CoordinatorView<T> {
        CoordinatorView {
            correlation_id: self.correlation_id@,
            transaction_ref: self.transaction_ref@,
            scope: self.scope,
            page: self.page as nat,
            pending: self.pending,
            closed: self.closed,
        }
    }
}

/// Exactly what `handle` does: from the model `old`, the event `event` leads to
/// the model `new` and the actions `actions`.
pub open spec fn handled<T, E>(
    old: CoordinatorView<T>,
    event: Event<T, E>,
    new: CoordinatorView<T>,
    actions: Seq<Action<T, E>>,
) -> bool {
    if old.closed {
        actions.len() == 0 && new == old
    } else {
        match event {
            Event::Received(item, meta) => {
                if old.pending is Some || !saturates(
                    old.correlation_id,
                    old.page,
                    meta.client_ref_view(),
                    meta.twin_count_view(),
                ) {
                    actions == seq![Action::<T, E>::Deliver(Ok(item))] && new == old
                } else if page_in_range(old.page + 1) {
                    &&& actions.len() == 1
                    &&& actions[0] is Dispatch
                    &&& requests_page(
                        actions[0]->Dispatch_0,
                        old.correlation_id,
                        old.transaction_ref,
                        old.scope,
                        old.page + 1,
                    )
                    &&& new == CoordinatorView { pending: Some(item), ..old }
                } else {
                    &&& actions == seq![
                        Action::<T, E>::Deliver(Err(SearchFailure::PageOutOfRange { page: (old.page + 1) as u32 })),
                        Action::Deliver(Ok(item)),
                    ]
                    &&& new == old
                }
            },
            Event::StreamFailed(e) => actions == seq![Action::<T, E>::Deliver(Err(SearchFailure::Stream(e)))]
                && new == old,
            Event::Dispatched(outcome) => match old.pending {
                None => actions.len() == 0 && new == old,
                Some(item) => match outcome {
                    Ok(()) => {
                        &&& actions == seq![Action::<T, E>::Deliver(Ok(item))]
                        &&& new == CoordinatorView { page: old.page + 1, pending: None, ..old }
                    },
                    Err(e) => {
                        &&& actions == seq![
                            Action::<T, E>::Deliver(
                                Err(SearchFailure::Dispatch { page: (old.page + 1) as u32, cause: e }),
                            ),
                            Action::Deliver(Ok(item)),
                        ]
                        &&& new == CoordinatorView { pending: None, ..old }
                    },
                },
            },
            Event::StreamEnded => {
                &&& actions == match old.pending {
                    Some(item) => seq![Action::<T, E>::Deliver(Ok(item)), Action::Close],
                    None => seq![Action::<T, E>::Close],
                }
                &&& new == CoordinatorView { pending: None, closed: true, ..old }
            },
            Event::TimedOut => {
                &&& actions == seq![Action::<T, E>::Close]
                &&& new == CoordinatorView { pending: None, closed: true, ..old }
            },
        }
    }
}

fn one<A>(a: A) -> (r: Vec<A>)
    ensures
        r@ == seq![a],
{
    let mut r: Vec<A> = Vec::new();
    r.push(a);
    assert(r@ =~= seq![a]);
    r
}

fn two<A>(a: A, b: A) -> (r: Vec<A>)
    ensures
        r@ == seq![a, b],
{
    let mut r: Vec<A> = Vec::new();
    r.push(a);
    r.push(b);
    assert(r@ =~= seq![a, b]);
    r
}

impl<T> Coordinator<T> {
    /// Every page dispatched so far, and the one in flight, can be numbered.
    pub open spec fn well_formed(&self) -> bool {
        &&& page_in_range(self@.page)
        &&& self@.pending is Some ==> page_in_range(self@.page + 1)
    }

    /// A coordinator for the session `correlation_id`, tracking page 0.
    pub fn new(correlation_id: String, transaction_ref: Vec<String>, scope: Scope) -> (r: Self)
        ensures
            r@ == (CoordinatorView::<T> {
                correlation_id: correlation_id@,
                transaction_ref: transaction_ref@,
                scope,
                page: 0,
                pending: None,
                closed: false,
            }),
            r@.state() == initial_state(),
            r.well_formed(),
    {
        Coordinator { correlation_id, transaction_ref, scope, page: 0, pending: None, closed: false }
    }

    /// The page currently tracked.
    pub fn page(&self) -> (r: u32)
        ensures
            r as nat == self@.page,
    {
        self.page
    }

    /// Whether the channel has been closed.
    pub fn is_closed(&self) -> (r: bool)
        ensures
            r == self@.closed,
    {
        self.closed
    }

    /// Whether a dispatch is in flight, its outcome still to be reported.
    pub fn awaits_dispatch(&self) -> (r: bool)
        ensures
            r == self@.pending is Some,
    {
        self.pending.is_some()
    }

    /// Whether `meta` describes a full response to the page currently tracked.
    fn saturates(&self, meta: &ResponseMeta) -> (r: bool)
        ensures
            r == saturates(self@.correlation_id, self@.page, meta.client_ref_view(), meta.twin_count_view()),
    {
        match meta.twin_count {
            Some(n) => {
                if n < PAGE_SIZE as usize {
                    false
                } else {
                    match &meta.client_ref {
                        Some(r) => {
                            let expected = client_ref(self.correlation_id.as_str(), self.page);
                            *r == expected
                        },
                        None => false,
                    }
                }
            },
            None => false,
        }
    }

    /// Takes one event and returns, in order, what is to be done about it.
    pub fn handle<E>(&mut self, event: Event<T, E>) -> (actions: Vec<Action<T, E>>)
        requires
            old(self).well_formed(),
        ensures
            final(self).well_formed(),
            handled(old(self)@, event, final(self)@, actions@),
            (final(self)@.state(), effects(actions@)) == step(
                old(self)@.correlation_id,
                old(self)@.state(),
                event.signal(),
            ),
    {
        if self.closed {
            let r: Vec<Action<T, E>> = Vec::new();
            assert(effects(r@) =~= Seq::<Effect>::empty());
            return r;
        }
        let ghost c = self@.correlation_id;
        match event {
            Event::Received(item, meta) => {
                if self.pending.is_some() || !self.saturates(&meta) {
                    let r = one(Action::Deliver(Ok(item)));
                    assert(effects(r@) =~= seq![Effect::DeliverResponse]);
                    r
                } else {
                    let next: u32 = self.page + 1;
                    match page_request(self.correlation_id.as_str(), &self.transaction_ref, self.scope, next) {
                        Some(request) => {
                            self.pending = Some(item);
                            let r = one(Action::Dispatch(request));
                            proof {
                                let ghost n = next as int;
                                assert((100 * n) / 100 == n) by (nonlinear_arith);
                            }
                            assert(effects(r@) =~= seq![Effect::Dispatch(next as nat)]);
                            r
                        },
                        None => {
                            let r = two(
                                Action::Deliver(Err(SearchFailure::PageOutOfRange { page: next })),
                                Action::Deliver(Ok(item)),
                            );
                            assert(effects(r@) =~= seq![Effect::DeliverFailure, Effect::DeliverResponse]);
                            r
                        },
                    }
                }
            },
            Event::StreamFailed(e) => {
                let r = one(Action::Deliver(Err(SearchFailure::Stream(e))));
                assert(effects(r@) =~= seq![Effect::DeliverFailure]);
                r
            },
            Event::Dispatched(outcome) => {
                match self.pending.take() {
                    None => {
                        let r: Vec<Action<T, E>> = Vec::new();
                        assert(effects(r@) =~= Seq::<Effect>::empty());
                        r
                    },
                    Some(item) => {
                        let next: u32 = self.page + 1;
                        match outcome {
                            Ok(()) => {
                                proof {
                                    assert(page_in_range(next as nat));
                                }
                                self.page = next;
                                let r = one(Action::Deliver(Ok(item)));
                                assert(effects(r@) =~= seq![Effect::DeliverResponse]);
                                r
                            },
                            Err(e) => {
                                let r = two(
                                    Action::Deliver(Err(SearchFailure::Dispatch { page: next, cause: e })),
                                    Action::Deliver(Ok(item)),
                                );
                                assert(effects(r@) =~= seq![Effect::DeliverFailure, Effect::DeliverResponse]);
                                r
                            },
                        }
                    },
                }
            },
            Event::StreamEnded => {
                self.closed = true;
                match self.pending.take() {
                    Some(item) => {
                        let r = two(Action::Deliver(Ok(item)), Action::Close);
                        assert(effects(r@) =~= seq![Effect::DeliverResponse, Effect::Close]);
                        r
                    },
                    None => {
                        let r = one(Action::Close);
                        assert(effects(r@) =~= seq![Effect::Close]);
                        r
                    },
                }
            },
            Event::TimedOut => {
                self.closed = true;
                self.pending = None;
                let r = one(Action::Close);
                assert(effects(r@) =~= seq![Effect::Close]);
                r
            },
        }
    }
}

} // verus!
