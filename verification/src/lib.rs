//! Project scaffolding: option parsing, module resolution, template rendering
//! and the plan of files that make up a generated project.

pub mod adder;
pub mod clock;
pub mod config;
pub mod error;
pub mod generator;
pub mod samples;
pub mod template;
pub mod text;

pub use error::BootsError;
