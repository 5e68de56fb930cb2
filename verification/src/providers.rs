//! Pull-based audio providers.

pub mod node;
pub mod sine;
pub mod source_static;
