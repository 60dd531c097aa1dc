//! Text handling shared by the parsers: characters, tokens, numbers, search.

pub mod chars;
pub mod split;
pub mod number;
pub mod search;
pub mod order;
pub mod case;
pub mod compose;
