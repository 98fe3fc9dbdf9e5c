//! The mathematical model of the formatter.
//!
//! The formatter is a deterministic state machine over characters. For each
//! input character it either copies it, suppresses it (insignificant
//! whitespace outside string literals), or surrounds it with structural
//! whitespace of its own: a newline plus one copy of the indent unit per
//! nesting level, and a single space after each `:`.
//!
//! [`step_state`] gives the state transition for one character,
//! [`step_out`] the characters emitted for it, and [`fmt`] the output of a
//! whole run, which ends with exactly one trailing newline. The executable
//! engine is verified to produce exactly `fmt` of its input.

use vstd::prelude::*;

verus! {

/// The transient per-run state of the formatter.
///
/// `level` counts nesting depth; it saturates at zero on unbalanced
/// closers and at `usize::MAX` on absurdly deep input, so a run can
/// never underflow or overflow. `nl_req` is the one-character lookahead
/// flag: it records that the next non-suppressed character must be
/// preceded by a newline and indentation, unless that character is a
/// closer (the empty-container collapse).
#[derive(Clone, Copy)]
pub struct State {
    pub in_string: bool,
    pub escaped: bool,
    pub level: usize,
    pub nl_req: bool,
}

/// The state every run starts in: outside any string, depth zero.
pub open spec fn init_state() -> State {
    State { in_string: false, escaped: false, level: 0, nl_req: false }
}

/// Insignificant whitespace: discarded wherever it occurs outside a string.
pub open spec fn is_ws(c: char) -> bool {
    c == ' ' || c == '\n' || c == '\t'
}

/// A character the formatter keeps: anything inside a string literal,
/// and anything but whitespace outside one.
pub open spec fn keep(st: State, c: char) -> bool {
    st.in_string || !is_ws(c)
}

pub open spec fn is_opener(c: char) -> bool {
    c == '{' || c == '['
}

pub open spec fn is_closer(c: char) -> bool {
    c == '}' || c == ']'
}

/// Depth increment, saturating at the top of `usize`.
pub open spec fn sat_inc(n: usize) -> usize {
    if n < usize::MAX { (n + 1) as usize } else { n }
}

/// Depth decrement, saturating at zero.
pub open spec fn sat_dec(n: usize) -> usize {
    if n > 0 { (n - 1) as usize } else { 0 }
}

/// The state after consuming one character.
pub open spec fn step_state(st: State, c: char) -> State {
    if st.in_string {
        State {
            in_string: !(c == '"' && !st.escaped),
            escaped: c == '\\' && !st.escaped,
            level: st.level,
            nl_req: st.nl_req,
        }
    } else if is_ws(c) {
        st
    } else {
        State {
            in_string: c == '"',
            escaped: st.escaped,
            level: if is_opener(c) {
                sat_inc(st.level)
            } else if is_closer(c) {
                sat_dec(st.level)
            } else {
                st.level
            },
            nl_req: is_opener(c) || c == ',',
        }
    }
}

/// The indent unit repeated once per nesting level.
pub open spec fn indent_seq(unit: Seq<char>, level: nat) -> Seq<char>
    decreases level,
{
    if level == 0 {
        Seq::empty()
    } else {
        indent_seq(unit, (level - 1) as nat) + unit
    }
}

/// A line break: one newline, then indentation for `level` levels.
pub open spec fn nl_indent(unit: Seq<char>, level: nat) -> Seq<char> {
    seq!['\n'] + indent_seq(unit, level)
}

/// The characters emitted for one input character.
///
/// Inside a string the character is copied verbatim. Outside, whitespace
/// is suppressed; a closer is preceded by a line break at the new, shallower
/// level unless a newline was already pending (the collapse); `:` becomes
/// `: `; every other kept character is preceded by the pending line break,
/// if any, at the level current when the break was requested.
pub open spec fn step_out(st: State, c: char, unit: Seq<char>) -> Seq<char> {
    if st.in_string {
        seq![c]
    } else if is_ws(c) {
        Seq::empty()
    } else if is_closer(c) {
        if st.nl_req {
            seq![c]
        } else {
            nl_indent(unit, sat_dec(st.level) as nat) + seq![c]
        }
    } else if c == ':' {
        seq![':', ' '] + (if st.nl_req { nl_indent(unit, st.level as nat) } else { Seq::empty() })
    } else {
        (if st.nl_req { nl_indent(unit, st.level as nat) } else { Seq::empty() }) + seq![c]
    }
}

/// Output of running the machine from `st` over all of `s`.
pub open spec fn fmt_from(st: State, s: Seq<char>, unit: Seq<char>) -> Seq<char>
    decreases s.len(),
{
    if s.len() == 0 {
        Seq::empty()
    } else {
        step_out(st, s[0], unit) + fmt_from(step_state(st, s[0]), s.drop_first(), unit)
    }
}

/// State after running the machine from `st` over all of `s`.
pub open spec fn scan(st: State, s: Seq<char>) -> State
    decreases s.len(),
{
    if s.len() == 0 {
        st
    } else {
        scan(step_state(st, s[0]), s.drop_first())
    }
}

/// The output of one whole formatting run: the machine's output over the
/// input, followed by exactly one trailing newline. Appending the trailing
/// newline is this formatter's fixed policy.
pub open spec fn fmt(s: Seq<char>, unit: Seq<char>) -> Seq<char> {
    fmt_from(init_state(), s, unit) + seq!['\n']
}

} // verus!
