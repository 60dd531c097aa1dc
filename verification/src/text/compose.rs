//! Putting texts together from fixed parts, names and numbers.

use vstd::prelude::*;
use crate::text::chars::{chars_eq, str_chars, string_from_chars};
use crate::text::number::{decimal, push_decimal};
use crate::text::search::{contains, contains_text, has_prefix, starts_with};
use crate::text::split::extend_chars;

verus! {

/// A text followed by a number in decimal.
pub fn text_with_number(prefix: &str, n: u64) -> (r: String)
    ensures
        r@ == prefix@ + decimal(n as nat),
{
    let mut chars = str_chars(prefix);
    push_decimal(&mut chars, n);
    string_from_chars(&chars)
}

/// Two texts, one after the other.
pub fn text_pair(a: &str, b: &str) -> (r: String)
    ensures
        r@ == a@ + b@,
{
    let mut chars = str_chars(a);
    let tail = str_chars(b);
    extend_chars(&mut chars, &tail);
    string_from_chars(&chars)
}

/// A number in decimal between two texts.
pub fn text_around_number(before: &str, n: u64, after: &str) -> (r: String)
    ensures
        r@ == before@ + decimal(n as nat) + after@,
{
    let mut chars = str_chars(before);
    push_decimal(&mut chars, n);
    let tail = str_chars(after);
    extend_chars(&mut chars, &tail);
    string_from_chars(&chars)
}

/// Whether `needle` stands somewhere in `hay`.
pub fn str_contains(hay: &str, needle: &str) -> (r: bool)
    ensures
        r == contains_text(hay@, needle@),
{
    let h = str_chars(hay);
    let n = str_chars(needle);
    contains(&h, &n)
}

/// Whether `s` begins with `prefix`.
pub fn str_starts_with(s: &str, prefix: &str) -> (r: bool)
    ensures
        r == has_prefix(s@, prefix@),
{
    let h = str_chars(s);
    let n = str_chars(prefix);
    starts_with(&h, &n)
}

/// The text of an optional fixed text.
pub open spec fn static_text(t: Option<&'static str>) -> Option<Seq<char>> {
    match t {
        Some(s) => Some(s@),
        None => None,
    }
}

/// Whether two texts are the same text.
pub fn same_text(a: &str, b: &str) -> (r: bool)
    ensures
        r == (a@ == b@),
{
    let x = str_chars(a);
    let y = str_chars(b);
    chars_eq(&x, &y)
}

} // verus!
