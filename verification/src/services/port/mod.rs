//! Listening ports: the host's port table and active probing.

pub mod resolver;
pub mod scanner;
