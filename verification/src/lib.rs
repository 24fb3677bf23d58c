//! Payment intake service core: the payments ledger kept in SQLite, the
//! retry/fallback decisions taken while forwarding a payment to the payment
//! processors, the work queue shared by the workers, and the small routing and
//! balancing rules of the front ends.
pub mod app_state;
pub mod database;
pub mod dates;
pub mod http_routes;
pub mod ledger;
pub mod processing;
pub mod redirect;
pub mod single_node;
pub mod sql_store;
pub mod stealing_queue;

pub use crate::app_state::PaymentGet;
