//! Observability: health probes, metrics, spans and the settings of logging.

pub mod healthcheck;
pub mod log;
pub mod metric;
pub mod trace;

pub use healthcheck::{HealthCheck, Probe};
pub use metric::Metrics;
pub use trace::init_tracing;
