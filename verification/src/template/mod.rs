//! Templates: the renderer that substitutes variables, and the store that
//! holds the raw template texts.

pub mod embedded;
pub mod engine;
pub mod table;

pub use embedded::Templates;
pub use engine::TemplateEngine;
