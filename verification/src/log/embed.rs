//! Embeddings inside logging messages.
//!
//! Instead of costly formatting, log facades receive one `&str` and an array of [`Embed`]s, so
//! logs can attach arbitrary data without the formatting cost.

use vstd::prelude::*;

verus! {

/// An embed inside a log message.
#[derive(Debug, Clone, Copy, PartialEq, Eq)]
pub enum Embed<'a> {
    /// A single 64-bit integer.
    Integer(i64),
    /// A string slice borrowed for `'a`.
    Str(&'a str),
    /// A key-value correspondence.
    KeyValue(&'a Embed<'a>, &'a Embed<'a>),
}

} // verus!
