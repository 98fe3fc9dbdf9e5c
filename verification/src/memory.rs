//! In-memory character streams: an infallible source over a character
//! vector and an infallible sink collecting into one. The buffered entry
//! point [`crate::format`] wraps its input and output in this pair and
//! runs the streaming engine once.

use vstd::prelude::*;
use crate::engine::{CharSink, CharSource, StreamError};

verus! {

/// A source that yields the characters of a vector, front to back.
/// It never faults.
pub struct MemorySource {
    chars: Vec<char>,
    pos: usize,
}

impl MemorySource {
    /// Wraps a character vector as a source over all of it.
    pub fn new(chars: Vec<char>) -> (r: Self)
        ensures
            r.remaining() == chars@,
            r.infallible(),
    {
        let r = MemorySource { chars, pos: 0 };
        proof {
            assert(r.remaining() =~= r.chars@);
        }
        r
    }
}

impl CharSource for MemorySource {
    closed spec fn remaining(&self) -> Seq<char> {
        if self.pos <= self.chars@.len() {
            self.chars@.skip(self.pos as int)
        } else {
            Seq::empty()
        }
    }

    closed spec fn infallible(&self) -> bool {
        true
    }

    fn next_char(&mut self) -> (r: Result<Option<char>, StreamError>) {
        if self.pos < self.chars.len() {
            let c = self.chars[self.pos];
            self.pos = self.pos + 1;
            proof {
                assert(final(self).remaining() =~= old(self).remaining().drop_first());
            }
            Ok(Some(c))
        } else {
            Ok(None)
        }
    }
}

/// A sink that collects every character it is handed. It never faults.
pub struct MemorySink {
    out: Vec<char>,
}

impl MemorySink {
    /// An empty sink.
    pub fn new() -> (r: Self)
        ensures
            r.written() == Seq::<char>::empty(),
            r.infallible(),
    {
        MemorySink { out: Vec::new() }
    }

    /// Hands back everything written, in order.
    pub fn into_chars(self) -> (v: Vec<char>)
        ensures
            v@ == self.written(),
    {
        self.out
    }
}

impl CharSink for MemorySink {
    closed spec fn written(&self) -> Seq<char> {
        self.out@
    }

    closed spec fn infallible(&self) -> bool {
        true
    }

    fn put_char(&mut self, c: char) -> (r: Result<(), StreamError>) {
        self.out.push(c);
        Ok(())
    }
}

} // verus!
