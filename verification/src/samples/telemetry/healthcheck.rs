//! The health of an application, as the probes of an orchestrator ask for it.

pub mod handlers;

use crate::text::{from_chars, push_str};
use vstd::prelude::*;

verus! {

/// What a probe asks.
#[derive(Debug, Clone, Copy, PartialEq, Eq, Structural)]
pub enum Probe {
    /// Is the application running?
    Liveness,
    /// Is the application ready to serve?
    Readiness,
    /// Has the application started?
    Startup,
}

/// The health of an application: three flags. A new application is alive,
/// and neither ready nor started.
#[derive(Debug)]
pub struct HealthCheck {
    alive: bool,
    ready: bool,
    started: bool,
}

/// The flags of a [`HealthCheck`].
pub struct HealthView {
    pub alive: bool,
    pub ready: bool,
    pub started: bool,
}

impl View for HealthCheck {
    type V = HealthView;

    closed spec fn view(&self) -> HealthView {
        HealthView { alive: self.alive, ready: self.ready, started: self.started }
    }
}

/// The name of a probe.
pub open spec fn probe_name_of(probe: Probe) -> Seq<char> {
    match probe {
        Probe::Liveness => "Liveness"@,
        Probe::Readiness => "Readiness"@,
        Probe::Startup => "Startup"@,
    }
}

/// The answer to a probe.
pub open spec fn answer_of(health: HealthView, probe: Probe) -> bool {
    match probe {
        Probe::Liveness => health.alive,
        Probe::Readiness => health.ready,
        Probe::Startup => health.started,
    }
}

/// The JSON text that reports the answer `healthy` to the probe `probe`.
pub open spec fn probe_json_of(healthy: bool, probe: Probe) -> Seq<char> {
    "{\"healthy\": "@ + (if healthy {
        "true"@
    } else {
        "false"@
    }) + ", \"probe\": \""@ + probe_name_of(probe) + "\"}"@
}

impl Default for HealthCheck {
    fn default() -> (r: Self)
        ensures
            r@ == (HealthView { alive: true, ready: false, started: false }),
    {
        HealthCheck::new()
    }
}

impl HealthCheck {
    /// The health of a new application.
    pub fn new() -> (r: Self)
        ensures
            r@ == (HealthView { alive: true, ready: false, started: false }),
    {
        HealthCheck { alive: true, ready: false, started: false }
    }

    /// Whether the application is alive.
    pub fn is_alive(&self) -> (r: bool)
        ensures
            r == self@.alive,
    {
        self.alive
    }

    /// Whether the application is ready.
    pub fn is_ready(&self) -> (r: bool)
        ensures
            r == self@.ready,
    {
        self.ready
    }

    /// Whether the application has started.
    pub fn is_started(&self) -> (r: bool)
        ensures
            r == self@.started,
    {
        self.started
    }

    /// Says whether the application is ready.
    pub fn set_ready(&mut self, ready: bool)
        ensures
            final(self)@ == (HealthView { ready, ..old(self)@ }),
    {
        self.ready = ready;
    }

    /// Says whether the application has started.
    pub fn set_started(&mut self, started: bool)
        ensures
            final(self)@ == (HealthView { started, ..old(self)@ }),
    {
        self.started = started;
    }

    /// Says that the application is no longer alive.
    pub fn set_unhealthy(&mut self)
        ensures
            final(self)@ == (HealthView { alive: false, ..old(self)@ }),
    {
        self.alive = false;
    }

    /// The answer to `probe`.
    pub fn check(&self, probe: Probe) -> (r: bool)
        ensures
            r == answer_of(self@, probe),
    {
        match probe {
            Probe::Liveness => self.is_alive(),
            Probe::Readiness => self.is_ready(),
            Probe::Startup => self.is_started(),
        }
    }

    /// The JSON text that reports the answer to `probe`.
    pub fn to_json(&self, probe: Probe) -> (r: String)
        ensures
            r@ == probe_json_of(answer_of(self@, probe), probe),
    {
        let healthy = self.check(probe);
        let mut out: Vec<char> = Vec::new();
        push_str(&mut out, "{\"healthy\": ");
        push_str(&mut out, if healthy { "true" } else { "false" });
        push_str(&mut out, ", \"probe\": \"");
        push_str(
            &mut out,
            match probe {
                Probe::Liveness => "Liveness",
                Probe::Readiness => "Readiness",
                Probe::Startup => "Startup",
            },
        );
        push_str(&mut out, "\"}");
        from_chars(&out)
    }
}

} // verus!
