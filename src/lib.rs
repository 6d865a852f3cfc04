//! Lazy, background initialization of a shared database pool, with
//! non-blocking readiness checks and a bounded wait for request handlers,
//! together with the request rules of the presentation backend.

pub mod readiness;
pub mod waiting;
pub mod initializer;
pub mod health;
pub mod response;
pub mod config;
pub mod text;
pub mod requests;
