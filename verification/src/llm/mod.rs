//! What is said to the language model: cleaned logs and the prompts around them.

pub mod analyzer;
pub mod client;
