//! The responses to the probes: a status code and a JSON body.

use crate::samples::telemetry::healthcheck::{
    answer_of, probe_json_of, HealthCheck, HealthView, Probe,
};
use vstd::prelude::*;

verus! {

/// The status code of the response to a probe: 200 where the answer is yes,
/// 503 where it is no.
pub open spec fn status_of(health: HealthView, probe: Probe) -> u16 {
    if answer_of(health, probe) {
        200
    } else {
        503
    }
}

/// The response to `probe`.
fn respond(health: &HealthCheck, probe: Probe) -> (r: (u16, String))
    ensures
        r.0 == status_of(health@, probe),
        r.1@ == probe_json_of(answer_of(health@, probe), probe),
{
    if health.check(probe) {
        (200, health.to_json(probe))
    } else {
        (503, health.to_json(probe))
    }
}

/// The response to the liveness probe.
pub fn liveness(health: &HealthCheck) -> (r: (u16, String))
    ensures
        r.0 == status_of(health@, Probe::Liveness),
        r.1@ == probe_json_of(health@.alive, Probe::Liveness),
{
    respond(health, Probe::Liveness)
}

/// The response to the readiness probe.
pub fn readiness(health: &HealthCheck) -> (r: (u16, String))
    ensures
        r.0 == status_of(health@, Probe::Readiness),
        r.1@ == probe_json_of(health@.ready, Probe::Readiness),
{
    respond(health, Probe::Readiness)
}

/// The response to the startup probe.
pub fn startup(health: &HealthCheck) -> (r: (u16, String))
    ensures
        r.0 == status_of(health@, Probe::Startup),
        r.1@ == probe_json_of(health@.started, Probe::Startup),
{
    respond(health, Probe::Startup)
}

} // verus!
