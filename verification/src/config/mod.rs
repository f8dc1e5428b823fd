//! The configuration of a project: its types, and the parser of the options
//! string.

pub mod parser;
pub mod types;

pub use parser::parse_options;
pub use types::{FrontendType, Module, PersistenceType, ProjectConfig, ProjectType};
