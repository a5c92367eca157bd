//! Trait prelude.

pub use crate::provider::ClipboardProvider;
