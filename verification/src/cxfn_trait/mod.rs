//! Traits of contextual functions: callables that take a context beside their arguments.
pub mod gat;
pub mod input;
