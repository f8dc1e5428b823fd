//! Regions and their health.

pub mod healthcheck;

pub use healthcheck::{HealthChecker, HealthStatus, Region};
