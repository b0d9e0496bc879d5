//! Identity, authorization and request rules of the TagBlaze ticket tracker.
//!
//! The crate decides; persistence and transport are left to the caller. Every
//! operation takes the rows that a lookup returned as plain values and hands
//! back the row to store or the error to answer with.
//!
//! - `error`: the error taxonomy and its status codes.
//! - `models`: the persisted records and their mathematical views.
//! - `policy`: the owner-or-admin rule.
//! - `utils`: password digests, signed tokens and the bearer guard.
//! - `routes`: the request and response bodies of the identity endpoints.
//! - `handlers`: the decisions of each endpoint.
pub mod error;
pub mod handlers;
pub mod models;
pub mod policy;
pub mod routes;
pub mod utils;
