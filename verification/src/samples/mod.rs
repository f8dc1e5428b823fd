//! The building blocks of the sample application: roles and tokens, the
//! board's data and permissions, health and metrics, and regions.

pub mod api;
pub mod auth;
pub mod board;
pub mod dns;
pub mod telemetry;
