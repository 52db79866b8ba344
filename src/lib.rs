//! Parameter conversion between a host's normalized control space and a
//! parameter's physical range.
//!
//! This crate holds the discrete part of the conversion: the kind of a
//! parameter, the order in which the conversion stages run in each
//! direction, step counting, list bounds, and the display fallbacks.
pub mod kind;
pub mod display;
pub mod list;
pub mod pipeline;

pub use kind::Kind;
