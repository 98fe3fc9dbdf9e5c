//! The streaming re-indentation engine.
//!
//! The engine consumes characters one at a time from a [`CharSource`],
//! updates the formatter [`State`], and hands the emitted characters to a
//! [`CharSink`], in strictly increasing order and with no lookahead beyond
//! the one-character `nl_req` flag. Its output is proved to be exactly
//! [`fmt`] of the characters the source yielded.

use vstd::prelude::*;
use crate::indentation::Indentation;
use crate::model::{State, fmt, fmt_from, indent_seq, init_state, step_out, step_state};

verus! {

/// The one fault the engine itself can surface: the source failed to
/// yield a character, or the sink failed to accept one. The engine never
/// rejects input for its content.
#[derive(Debug, Clone, Copy, PartialEq, Eq)]
pub enum StreamError {
    /// The character source reported a fault.
    Read,
    /// The character sink reported a fault.
    Write,
}

/// A sequential source of characters: the engine's only demand on its
/// input side. `remaining()` models the characters still to come and
/// `infallible()` marks sources, such as in-memory buffers, that never
/// fail; the engine promises success over such a source.
pub trait CharSource {
    /// The characters this source has yet to yield.
    spec fn remaining(&self) -> Seq<char>;

    /// Whether this source can never report a fault.
    spec fn infallible(&self) -> bool;

    /// Yields the next character, `Ok(None)` at the end of the stream.
    fn next_char(&mut self) -> (r: Result<Option<char>, StreamError>)
        ensures
            final(self).infallible() == old(self).infallible(),
            old(self).infallible() ==> r is Ok,
            match r {
                Ok(Some(c)) => old(self).remaining().len() > 0 && c == old(self).remaining()[0]
                    && final(self).remaining() == old(self).remaining().drop_first(),
                Ok(None) => old(self).remaining().len() == 0 && final(self).remaining()
                    == old(self).remaining(),
                Err(_) => true,
            },
    ;
}

/// A sequential sink of characters: the engine's only demand on its
/// output side. `written()` models everything accepted so far; after a
/// fault nothing further is promised about it.
pub trait CharSink {
    /// The characters this sink has accepted so far.
    spec fn written(&self) -> Seq<char>;

    /// Whether this sink can never report a fault.
    spec fn infallible(&self) -> bool;

    /// Accepts one character.
    fn put_char(&mut self, c: char) -> (r: Result<(), StreamError>)
        ensures
            final(self).infallible() == old(self).infallible(),
            old(self).infallible() ==> r is Ok,
            r is Ok ==> final(self).written() == old(self).written().push(c),
    ;
}

/// Appends `level` copies of the indent unit to `out`.
pub fn indent(out: &mut Vec<char>, level: usize, unit: &Vec<char>)
    ensures
        final(out)@ == old(out)@ + indent_seq(unit@, level as nat),
{
    let mut i: usize = 0;
    while i < level
        invariant
            i <= level,
            out@ == old(out)@ + indent_seq(unit@, i as nat),
        decreases level - i,
    {
        let mut j: usize = 0;
        while j < unit.len()
            invariant
                j <= unit.len(),
                out@ == old(out)@ + indent_seq(unit@, i as nat) + unit@.take(j as int),
            decreases unit.len() - j,
        {
            out.push(unit[j]);
            proof {
                assert(unit@.take(j as int).push(unit@[j as int]) =~= unit@.take(j + 1 as int));
            }
            j += 1;
        }
        proof {
            assert(unit@.take(unit@.len() as int) =~= unit@);
        }
        i += 1;
    }
}

/// Processes one input character: returns the successor state and the
/// characters emitted for it, exactly as the model prescribes.
fn emit_step(st: State, c: char, unit: &Vec<char>) -> (r: (State, Vec<char>))
    ensures
        r.0 == step_state(st, c),
        r.1@ == step_out(st, c, unit@),
{
    let mut s = st;
    let mut out: Vec<char> = Vec::new();
    if s.in_string {
        let mut escape_here = false;
        if c == '"' {
            if !s.escaped {
                s.in_string = false;
            }
        } else if c == '\\' {
            if !s.escaped {
                escape_here = true;
            }
        }
        out.push(c);
        s.escaped = escape_here;
        proof {
            assert(out@ =~= step_out(st, c, unit@));
        }
    } else if c == ' ' || c == '\n' || c == '\t' {
        // insignificant whitespace: consumed with no output and no state change
    } else {
        let prev_level = s.level;
        let mut auto_push = true;
        let mut request_newline = false;
        if c == '"' {
            s.in_string = true;
        } else if c == '[' || c == '{' {
            s.level = if s.level < usize::MAX {
                s.level + 1
            } else {
                s.level
            };
            request_newline = true;
        } else if c == ']' || c == '}' {
            s.level = if s.level > 0 {
                s.level - 1
            } else {
                0
            };
            if !s.nl_req {
                // a closer on its own line, at the new shallower level
                out.push('\n');
                indent(&mut out, s.level, unit);
            }
        } else if c == ':' {
            auto_push = false;
            out.push(':');
            out.push(' ');
        } else if c == ',' {
            request_newline = true;
        }
        if s.nl_req && c != ']' && c != '}' {
            // the line break requested by the previous `{`, `[` or `,`;
            // suppressed before a closer: the empty-container collapse
            out.push('\n');
            indent(&mut out, prev_level, unit);
        }
        if auto_push {
            out.push(c);
        }
        s.nl_req = request_newline;
        proof {
            assert(out@ =~= step_out(st, c, unit@));
        }
    }
    (s, out)
}

/// Hands every character of `cs` to the sink, in order, stopping at the
/// first fault.
fn put_all<W: CharSink>(writer: &mut W, cs: &Vec<char>) -> (r: Result<(), StreamError>)
    ensures
        final(writer).infallible() == old(writer).infallible(),
        old(writer).infallible() ==> r is Ok,
        r is Ok ==> final(writer).written() == old(writer).written() + cs@,
{
    let mut i: usize = 0;
    while i < cs.len()
        invariant
            i <= cs.len(),
            writer.infallible() == old(writer).infallible(),
            writer.written() == old(writer).written() + cs@.take(i as int),
        decreases cs.len() - i,
    {
        match writer.put_char(cs[i]) {
            Ok(_) => {},
            Err(e) => {
                return Err(e);
            },
        }
        proof {
            assert(cs@.take(i as int).push(cs@[i as int]) =~= cs@.take(i + 1 as int));
        }
        i += 1;
    }
    proof {
        assert(cs@.take(cs@.len() as int) =~= cs@);
    }
    Ok(())
}

/// Re-indents one whole document: reads the source to its end, writes the
/// formatted output to the sink, and appends the single trailing newline.
///
/// On success the sink has received exactly [`fmt`] of the characters the
/// source held, under the chosen indentation. Over an infallible source
/// and sink, such as the in-memory pair behind [`crate::format`], success
/// is certain. On a fault the run aborts at once with the failing side;
/// characters already accepted by the sink stay written.
pub fn format_reader_writer<R: CharSource, W: CharSink>(
    reader: &mut R,
    writer: &mut W,
    indentation: Indentation<'_>,
) -> (r: Result<(), StreamError>)
    ensures
        old(reader).infallible() && old(writer).infallible() ==> r is Ok,
        r is Ok ==> final(writer).written() == old(writer).written() + fmt(
            old(reader).remaining(),
            indentation.unit(),
        ) && final(reader).remaining().len() == 0,
        r matches Err(e) && e == StreamError::Read ==> !old(reader).infallible(),
        r matches Err(e) && e == StreamError::Write ==> !old(writer).infallible(),
{
    let unit = indentation.unit_chars();
    let mut st = State { in_string: false, escaped: false, level: 0, nl_req: false };
    loop
        invariant
            unit@ == indentation.unit(),
            reader.infallible() == old(reader).infallible(),
            writer.infallible() == old(writer).infallible(),
            writer.written() + fmt_from(st, reader.remaining(), unit@) == old(writer).written()
                + fmt_from(init_state(), old(reader).remaining(), unit@),
        ensures
            reader.infallible() == old(reader).infallible(),
            writer.infallible() == old(writer).infallible(),
            reader.remaining().len() == 0,
            writer.written() == old(writer).written() + fmt_from(
                init_state(),
                old(reader).remaining(),
                unit@,
            ),
        decreases reader.remaining().len(),
    {
        let c = match reader.next_char() {
            Ok(Some(c)) => c,
            Ok(None) => {
                break;
            },
            Err(_) => {
                return Err(StreamError::Read);
            },
        };
        let (st2, emitted) = emit_step(st, c, &unit);
        match put_all(writer, &emitted) {
            Ok(_) => {},
            Err(_) => {
                return Err(StreamError::Write);
            },
        }
        st = st2;
    }
    match writer.put_char('\n') {
        Ok(_) => {},
        Err(_) => {
            return Err(StreamError::Write);
        },
    }
    proof {
        assert(old(writer).written() + fmt_from(init_state(), old(reader).remaining(), unit@)
            + seq!['\n'] =~= old(writer).written() + fmt(old(reader).remaining(), unit@));
    }
    Ok(())
}

} // verus!
