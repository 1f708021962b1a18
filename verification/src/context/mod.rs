//! Contexts: `Handle`s to capabilities, kept in a `Store`.
pub mod handle;
pub mod store;
