//! Authentication: roles, claims and tokens.

pub mod role;
pub mod token;

pub use role::Role;
pub use token::{Claims, Token, TokenError};
