//! Keeping the settings safe at rest.

pub mod encryption;
