//! A whitespace-normalizing JSON re-indenter.
//!
//! The formatter is a single-pass lexical transform: it never parses the
//! input into a document tree. Each character is classified by a small
//! amount of local state (inside a string literal? escaped? current nesting
//! depth? newline pending?) and zero or more output characters are emitted
//! immediately. The whole transform is specified by the spec functions in
//! [`model`], and every executable path is verified against them.

pub mod engine;
pub mod indentation;
pub mod laws;
pub mod memory;
pub mod model;
pub mod text;

pub use crate::engine::{CharSink, CharSource, StreamError, format_reader_writer};
pub use crate::indentation::Indentation;
pub use crate::memory::{MemorySink, MemorySource};
pub use crate::model::State;

use vstd::prelude::*;

verus! {

use crate::model::fmt;
use crate::text::{chars_to_string, str_to_chars};

/// Formats a JSON string in memory: the result is exactly [`fmt`] of the
/// input's characters under the chosen indentation, ending in one trailing
/// newline. Malformed input is never rejected; it yields best-effort
/// output under the same rules.
pub fn format(json: &str, indentation: Indentation<'_>) -> (r: String)
    ensures
        r@ == fmt(json@, indentation.unit()),
{
    let chars = str_to_chars(json);
    let mut source = MemorySource::new(chars);
    let mut sink = MemorySink::new();
    let outcome = format_reader_writer(&mut source, &mut sink, indentation);
    proof {
        assert(outcome is Ok);
        assert(sink.written() =~= fmt(json@, indentation.unit()));
    }
    let out = sink.into_chars();
    chars_to_string(&out)
}

} // verus!
