//! Architecture-specific primitives.

pub mod aarch64;
