//! What the health endpoints report, from the readiness record and, once
//! the pool is ready, from a liveness query made on every probe.

use vstd::prelude::*;
use crate::readiness::{Readiness, ReadinessCell};

verus! {

/// The message reported when the ready pool did not answer the liveness query.
pub open spec fn probe_failed_message() -> Seq<char> {
    "database did not answer the liveness query"@
}

/// A health probe's verdict.
#[derive(Clone, Debug, PartialEq, Eq)]
pub enum HealthStatus {
    /// Initialization is still running: not ready yet, and not an error.
    Starting,
    /// The pool is ready and answered the liveness query.
    Healthy,
    /// Initialization failed, or the ready pool did not answer; with why.
    Unhealthy(String),
}

pub const STATUS_OK: u16 = 200;
pub const STATUS_UNAVAILABLE: u16 = 503;

impl HealthStatus {
    /// The HTTP status of the verdict.
    pub fn status_code(&self) -> (r: u16)
        ensures
            r == (if *self is Healthy { STATUS_OK } else { STATUS_UNAVAILABLE }),
    {
        match self {
            HealthStatus::Healthy => STATUS_OK,
            _ => STATUS_UNAVAILABLE,
        }
    }
}

/// Decides the deep health verdict for the record, given whether the
/// liveness query against the ready pool succeeded (it is only made, and
/// only matters, once the pool is ready).
pub fn health_report<P>(cell: &ReadinessCell<P>, probe_succeeded: bool) -> (r: HealthStatus)
    ensures
        match cell.state() {
            Readiness::Initializing => r == HealthStatus::Starting,
            Readiness::Failed(m) => r == HealthStatus::Unhealthy(m),
            Readiness::Ready(_) => if probe_succeeded {
                r == HealthStatus::Healthy
            } else {
                r matches HealthStatus::Unhealthy(m) && m@ == probe_failed_message()
            },
        },
{
    if cell.is_ready() {
        if probe_succeeded {
            HealthStatus::Healthy
        } else {
            proof {
                reveal_strlit("database did not answer the liveness query");
            }
            HealthStatus::Unhealthy(String::from_str("database did not answer the liveness query"))
        }
    } else {
        match cell.get_error() {
            Some(m) => HealthStatus::Unhealthy(m),
            None => HealthStatus::Starting,
        }
    }
}

} // verus!
