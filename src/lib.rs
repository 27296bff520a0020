//! Client-side orchestration of the paginated, federated twin search.
//!
//! - `page`: correlation references, page ranges and page requests.
//! - `client_id`: random client application ids, used as correlation ids.
//! - `auth`: the check that a bearer token can travel as gRPC metadata.
//! - `model`: the pagination protocol as an abstract state machine, and the
//!   laws proved of every run of it.
//! - `coordinator`: the executable coordinator, refining that state machine.
//! - `session`: what a search session starts from.
//! - `properties`: building twin properties and finding values among them.

pub mod auth;
pub mod client_id;
pub mod coordinator;
pub mod model;
pub mod page;
pub mod properties;
pub mod session;
