//! Verified core of a feedback service: the records it keeps, the requests it
//! accepts, and the response it owes for every outcome of the store.

pub mod clock;
pub mod common;
pub mod ident;
pub mod model;
pub mod response;
pub mod schema;
pub mod store;
pub mod routes;
pub mod handler;
pub mod guarantees;
