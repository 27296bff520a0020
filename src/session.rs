//! The setup of a search session: its correlation id, its subscription and
//! the request for its first page.

use vstd::prelude::*;
use crate::client_id::{generate_client_app_id, is_alphanumeric, CLIENT_APP_ID_LEN};
use crate::coordinator::{Coordinator, CoordinatorView};
use crate::model::initial_state;
use crate::page::{copy_strings, page_request, requests_page, PageRequest, Scope};

verus! {

/// The headers that open the subscription receiving every response of a session.
#[derive(Clone, Debug)]
pub struct SubscriptionHeaders {
    pub client_app_id: String,
    pub transaction_ref: Vec<String>,
}

/// Everything a runner needs to start a session: the coordinator, the
/// subscription to open, and the request for page 0, to dispatch once the
/// subscription is open.
pub struct SearchSession<T> {
    pub coordinator: Coordinator<T>,
    pub subscription: SubscriptionHeaders,
    pub first_page: PageRequest,
}

/// `r` is the start of a session whose correlation id is `id` and whose
/// transaction reference list is that id alone.
pub open spec fn starts_session<T>(r: SearchSession<T>, id: Seq<char>, scope: Scope) -> bool {
    &&& r.coordinator@ == (CoordinatorView::<T> {
        correlation_id: id,
        transaction_ref: r.subscription.transaction_ref@,
        scope,
        page: 0,
        pending: None,
        closed: false,
    })
    &&& r.coordinator.well_formed()
    &&& r.coordinator@.state() == initial_state()
    &&& r.subscription.client_app_id@ == id
    &&& r.subscription.transaction_ref@.len() == 1
    &&& r.subscription.transaction_ref@[0]@ == id
    &&& requests_page(r.first_page, id, r.subscription.transaction_ref@, scope, 0)
}

impl<T> SearchSession<T> {
    /// The start of the session whose correlation id is `client_app_id`.
    pub fn new(client_app_id: String, scope: Scope) -> (r: Self)
        ensures
            starts_session(r, client_app_id@, scope),
    {
        let transaction_ref = vec![client_app_id.clone()];
        let first_page = match page_request(client_app_id.as_str(), &transaction_ref, scope, 0) {
            Some(request) => request,
            None => {
                proof {
                    assert(false);
                }
                unreached()
            },
        };
        let subscription = SubscriptionHeaders {
            client_app_id: client_app_id.clone(),
            transaction_ref: copy_strings(&transaction_ref),
        };
        let coordinator = Coordinator::new(client_app_id, transaction_ref, scope);
        SearchSession { coordinator, subscription, first_page }
    }
}

/// The start of a session under a fresh random correlation id.
pub fn start_search<T>(scope: Scope) -> (r: SearchSession<T>)
    ensures
        r.coordinator@.correlation_id.len() == CLIENT_APP_ID_LEN,
        forall|i: int|
            0 <= i < r.coordinator@.correlation_id.len() ==> is_alphanumeric(
                #[trigger] r.coordinator@.correlation_id[i],
            ),
        starts_session(r, r.coordinator@.correlation_id, scope),
{
    SearchSession::new(generate_client_app_id(), scope)
}

} // verus!
