//! Proved laws of the formatter.
//!
//! The statements are phrased over a second, simpler machine that walks a
//! character sequence with the same state transitions as the formatter and
//! only classifies characters: [`strip_from`] drops insignificant
//! whitespace, [`content_from`] keeps exactly the characters scanned
//! inside string literals. Over these the theorems at the bottom state
//! that formatting is idempotent, that string contents pass through
//! untouched, and that insignificant whitespace in the input cannot
//! influence the output.

use vstd::prelude::*;
use crate::model::{
    State, fmt, fmt_from, indent_seq, init_state, is_ws, keep, nl_indent, scan, step_out,
    step_state,
};

verus! {

/// `s` with insignificant whitespace removed, scanning from `st`.
pub open spec fn strip_from(st: State, s: Seq<char>) -> Seq<char>
    decreases s.len(),
{
    if s.len() == 0 {
        Seq::empty()
    } else {
        (if keep(st, s[0]) {
            seq![s[0]]
        } else {
            Seq::empty()
        }) + strip_from(step_state(st, s[0]), s.drop_first())
    }
}

/// `s` with insignificant whitespace removed: everything the formatter
/// bases its output on.
pub open spec fn strip(s: Seq<char>) -> Seq<char> {
    strip_from(init_state(), s)
}

/// The characters of `s` scanned while inside a string literal (closing
/// quotes included, opening quotes not), from `st`.
pub open spec fn content_from(st: State, s: Seq<char>) -> Seq<char>
    decreases s.len(),
{
    if s.len() == 0 {
        Seq::empty()
    } else {
        (if st.in_string {
            seq![s[0]]
        } else {
            Seq::empty()
        }) + content_from(step_state(st, s[0]), s.drop_first())
    }
}

/// The string-literal content of a document.
pub open spec fn string_content(s: Seq<char>) -> Seq<char> {
    content_from(init_state(), s)
}

/// Every character of `s` is insignificant whitespace.
pub open spec fn all_ws(s: Seq<char>) -> bool {
    forall|i: int| 0 <= i < s.len() ==> is_ws(s[i])
}

/// A scan distributes over concatenation.
proof fn lemma_scan_concat(st: State, a: Seq<char>, b: Seq<char>)
    ensures
        scan(st, a + b) == scan(scan(st, a), b),
    decreases a.len(),
{
    if a.len() == 0 {
        assert(a + b =~= b);
    } else {
        assert((a + b).drop_first() =~= a.drop_first() + b);
        lemma_scan_concat(step_state(st, a[0]), a.drop_first(), b);
    }
}

/// Stripping distributes over concatenation.
proof fn lemma_strip_concat(st: State, a: Seq<char>, b: Seq<char>)
    ensures
        strip_from(st, a + b) == strip_from(st, a) + strip_from(scan(st, a), b),
    decreases a.len(),
{
    if a.len() == 0 {
        assert(a + b =~= b);
        assert(strip_from(st, a) + strip_from(st, b) =~= strip_from(st, b));
    } else {
        assert((a + b).drop_first() =~= a.drop_first() + b);
        lemma_strip_concat(step_state(st, a[0]), a.drop_first(), b);
        let k = if keep(st, a[0]) {
            seq![a[0]]
        } else {
            Seq::<char>::empty()
        };
        assert(k + (strip_from(step_state(st, a[0]), a.drop_first()) + strip_from(scan(st, a), b))
            =~= (k + strip_from(step_state(st, a[0]), a.drop_first())) + strip_from(
            scan(st, a),
            b,
        ));
    }
}

/// String-content extraction distributes over concatenation.
proof fn lemma_content_concat(st: State, a: Seq<char>, b: Seq<char>)
    ensures
        content_from(st, a + b) == content_from(st, a) + content_from(scan(st, a), b),
    decreases a.len(),
{
    if a.len() == 0 {
        assert(a + b =~= b);
        assert(content_from(st, a) + content_from(st, b) =~= content_from(st, b));
    } else {
        assert((a + b).drop_first() =~= a.drop_first() + b);
        lemma_content_concat(step_state(st, a[0]), a.drop_first(), b);
        let k = if st.in_string {
            seq![a[0]]
        } else {
            Seq::<char>::empty()
        };
        assert(k + (content_from(step_state(st, a[0]), a.drop_first()) + content_from(
            scan(st, a),
            b,
        )) =~= (k + content_from(step_state(st, a[0]), a.drop_first())) + content_from(
            scan(st, a),
            b,
        ));
    }
}

/// Whitespace scanned outside a string changes nothing and is dropped.
proof fn lemma_ws_chunk(st: State, s: Seq<char>)
    requires
        !st.in_string,
        all_ws(s),
    ensures
        scan(st, s) == st,
        strip_from(st, s) == Seq::<char>::empty(),
        content_from(st, s) == Seq::<char>::empty(),
    decreases s.len(),
{
    if s.len() > 0 {
        assert(is_ws(s[0]));
        assert forall|i: int| 0 <= i < s.drop_first().len() implies is_ws(
            s.drop_first()[i],
        ) by {
            assert(s.drop_first()[i] == s[i + 1]);
        }
        lemma_ws_chunk(st, s.drop_first());
        assert(strip_from(st, s) =~= Seq::<char>::empty());
        assert(content_from(st, s) =~= Seq::<char>::empty());
    }
}

/// Concatenating whitespace yields whitespace.
proof fn lemma_all_ws_concat(a: Seq<char>, b: Seq<char>)
    requires
        all_ws(a),
        all_ws(b),
    ensures
        all_ws(a + b),
{
    assert forall|i: int| 0 <= i < (a + b).len() implies is_ws((a + b)[i]) by {
        if i < a.len() {
            assert((a + b)[i] == a[i]);
        } else {
            assert((a + b)[i] == b[i - a.len()]);
        }
    }
}

/// Indentation built from a whitespace unit is whitespace.
proof fn lemma_indent_seq_ws(unit: Seq<char>, level: nat)
    requires
        all_ws(unit),
    ensures
        all_ws(indent_seq(unit, level)),
    decreases level,
{
    if level > 0 {
        lemma_indent_seq_ws(unit, (level - 1) as nat);
        lemma_all_ws_concat(indent_seq(unit, (level - 1) as nat), unit);
    }
}

/// A line break made from a whitespace unit is whitespace.
proof fn lemma_nl_indent_ws(unit: Seq<char>, level: nat)
    requires
        all_ws(unit),
    ensures
        all_ws(nl_indent(unit, level)),
{
    lemma_indent_seq_ws(unit, level);
    assert(all_ws(seq!['\n'])) by {
        assert(seq!['\n'][0] == '\n');
    }
    lemma_all_ws_concat(seq!['\n'], indent_seq(unit, level));
}

/// One-character scans, written out.
proof fn lemma_single(st: State, c: char)
    ensures
        scan(st, seq![c]) == step_state(st, c),
        strip_from(st, seq![c]) == (if keep(st, c) {
            seq![c]
        } else {
            Seq::<char>::empty()
        }),
        content_from(st, seq![c]) == (if st.in_string {
            seq![c]
        } else {
            Seq::<char>::empty()
        }),
{
    let st2 = step_state(st, c);
    let e = seq![c].drop_first();
    assert(e.len() == 0);
    assert(scan(st2, e) == st2);
    assert(strip_from(st2, e) == Seq::<char>::empty());
    assert(content_from(st2, e) == Seq::<char>::empty());
    assert(seq![c][0] == c);
    assert(strip_from(st, seq![c]) =~= (if keep(st, c) {
        seq![c]
    } else {
        Seq::<char>::empty()
    }));
    assert(content_from(st, seq![c]) =~= (if st.in_string {
        seq![c]
    } else {
        Seq::<char>::empty()
    }));
}

/// Scanning a whitespace run and then one character, from outside a
/// string, is the same as scanning the character alone.
proof fn lemma_ws_char_chunk(so: State, w: Seq<char>, c: char)
    requires
        !so.in_string,
        all_ws(w),
    ensures
        scan(so, w + seq![c]) == step_state(so, c),
        strip_from(so, w + seq![c]) == (if keep(so, c) {
            seq![c]
        } else {
            Seq::<char>::empty()
        }),
        content_from(so, w + seq![c]) == Seq::<char>::empty(),
{
    lemma_ws_chunk(so, w);
    lemma_scan_concat(so, w, seq![c]);
    lemma_strip_concat(so, w, seq![c]);
    lemma_content_concat(so, w, seq![c]);
    lemma_single(so, c);
    assert(Seq::<char>::empty() + strip_from(so, seq![c]) =~= strip_from(so, seq![c]));
    assert(Seq::<char>::empty() + content_from(so, seq![c]) =~= content_from(so, seq![c]));
}

/// Scanning one non-whitespace character that does not open a string,
/// followed by a whitespace run, from outside a string.
proof fn lemma_char_ws_chunk(so: State, c: char, w: Seq<char>)
    requires
        !so.in_string,
        !is_ws(c),
        !step_state(so, c).in_string,
        all_ws(w),
    ensures
        scan(so, seq![c] + w) == scan(step_state(so, c), w),
        strip_from(so, seq![c] + w) == seq![c],
        content_from(so, seq![c] + w) == Seq::<char>::empty(),
{
    lemma_scan_concat(so, seq![c], w);
    lemma_strip_concat(so, seq![c], w);
    lemma_content_concat(so, seq![c], w);
    lemma_single(so, c);
    lemma_ws_chunk(step_state(so, c), w);
    assert(strip_from(so, seq![c] + w) =~= seq![c]);
    assert(content_from(so, seq![c] + w) =~= Seq::<char>::empty());
}

/// The heart of the laws: what the formatter emits for an input strips
/// back to exactly what the input itself strips to, string contents are
/// carried over unchanged, and the scan of the output stays aligned with
/// the scan of the input — provided the indent unit is whitespace.
proof fn lemma_fmt_preserves(so: State, st: State, s: Seq<char>, unit: Seq<char>)
    requires
        so.in_string == st.in_string,
        so.escaped == st.escaped,
        all_ws(unit),
    ensures
        scan(so, fmt_from(st, s, unit)).in_string == scan(st, s).in_string,
        scan(so, fmt_from(st, s, unit)).escaped == scan(st, s).escaped,
        strip_from(so, fmt_from(st, s, unit)) == strip_from(st, s),
        content_from(so, fmt_from(st, s, unit)) == content_from(st, s),
    decreases s.len(),
{
    if s.len() == 0 {
    } else {
        let c = s[0];
        let rest = s.drop_first();
        let st2 = step_state(st, c);
        let chunk = step_out(st, c, unit);
        let tail = fmt_from(st2, rest, unit);
        assert(fmt_from(st, s, unit) == chunk + tail);
        lemma_scan_concat(so, chunk, tail);
        lemma_strip_concat(so, chunk, tail);
        lemma_content_concat(so, chunk, tail);
        let so2 = scan(so, chunk);
        // what one chunk scans, strips and contributes
        if st.in_string {
            assert(chunk == seq![c]);
            lemma_single(so, c);
        } else if is_ws(c) {
            assert(chunk =~= Seq::<char>::empty());
            assert(so2 == so);
            assert(st2 == st);
        } else {
            let pending = if st.nl_req {
                nl_indent(unit, st.level as nat)
            } else {
                Seq::<char>::empty()
            };
            assert(all_ws(pending)) by {
                if st.nl_req {
                    lemma_nl_indent_ws(unit, st.level as nat);
                }
            }
            if c == '}' || c == ']' {
                let before = if st.nl_req {
                    Seq::<char>::empty()
                } else {
                    nl_indent(unit, crate::model::sat_dec(st.level) as nat)
                };
                assert(all_ws(before)) by {
                    if !st.nl_req {
                        lemma_nl_indent_ws(unit, crate::model::sat_dec(st.level) as nat);
                    }
                }
                assert(chunk =~= before + seq![c]);
                lemma_ws_char_chunk(so, before, c);
            } else if c == ':' {
                assert(chunk =~= seq![':'] + (seq![' '] + pending));
                assert(all_ws(seq![' '])) by {
                    assert(seq![' '][0] == ' ');
                }
                lemma_all_ws_concat(seq![' '], pending);
                lemma_char_ws_chunk(so, ':', seq![' '] + pending);
                lemma_ws_chunk(step_state(so, ':'), seq![' '] + pending);
            } else {
                assert(chunk =~= pending + seq![c]);
                lemma_ws_char_chunk(so, pending, c);
            }
            assert(so2.in_string == st2.in_string);
            assert(so2.escaped == st2.escaped);
            assert(strip_from(so, chunk) =~= seq![c]);
            assert(content_from(so, chunk) =~= Seq::<char>::empty());
        }
        lemma_fmt_preserves(so2, st2, rest, unit);
        // assemble the three equalities
        assert(strip_from(so, fmt_from(st, s, unit)) =~= strip_from(st, s));
        assert(content_from(so, fmt_from(st, s, unit)) =~= content_from(st, s));
    }
}

/// The formatter reads nothing but the stripped input: formatting a
/// document and formatting its stripped form give the same output and
/// end in the same state.
proof fn lemma_fmt_of_strip(st: State, s: Seq<char>, unit: Seq<char>)
    ensures
        fmt_from(st, s, unit) == fmt_from(st, strip_from(st, s), unit),
        scan(st, strip_from(st, s)) == scan(st, s),
    decreases s.len(),
{
    if s.len() == 0 {
    } else {
        let c = s[0];
        let rest = s.drop_first();
        let st2 = step_state(st, c);
        if !st.in_string && is_ws(c) {
            assert(st2 == st);
            assert(strip_from(st, s) =~= strip_from(st, rest));
            lemma_fmt_of_strip(st, rest, unit);
        } else {
            lemma_fmt_of_strip(st2, rest, unit);
            let tail = strip_from(st2, rest);
            assert(strip_from(st, s) =~= seq![c] + tail);
            assert((seq![c] + tail).len() > 0);
            assert((seq![c] + tail)[0] == c);
            assert((seq![c] + tail).drop_first() =~= tail);
            assert(fmt_from(st, seq![c] + tail, unit) == step_out(st, c, unit) + fmt_from(
                st2,
                tail,
                unit,
            ));
            assert(scan(st, seq![c] + tail) == scan(st2, tail));
        }
    }
}

/// Whitespace insignificance: two documents that differ only in
/// insignificant whitespace outside string literals are formatted to the
/// same output, whatever the indentation.
pub proof fn theorem_whitespace_insignificant(d1: Seq<char>, d2: Seq<char>, unit: Seq<char>)
    requires
        strip(d1) == strip(d2),
    ensures
        fmt(d1, unit) == fmt(d2, unit),
{
    lemma_fmt_of_strip(init_state(), d1, unit);
    lemma_fmt_of_strip(init_state(), d2, unit);
}

/// Formatting only rearranges insignificant whitespace: the output strips
/// back to exactly what the input strips to, and the scan of the output
/// ends outside a string whenever the input's does. Holds whenever the
/// indent unit is whitespace and the input's string literals are closed.
pub proof fn theorem_strip_of_output(d: Seq<char>, unit: Seq<char>)
    requires
        all_ws(unit),
        !scan(init_state(), d).in_string,
    ensures
        strip(fmt(d, unit)) == strip(d),
{
    let st0 = init_state();
    let body = fmt_from(st0, d, unit);
    lemma_fmt_preserves(st0, st0, d, unit);
    lemma_strip_concat(st0, body, seq!['\n']);
    let sb = scan(st0, body);
    assert(!sb.in_string);
    lemma_single(sb, '\n');
    assert(strip(fmt(d, unit)) =~= strip(d));
}

/// Idempotence: formatting is a fixed point after one run. Holds for any
/// input whose string literals are closed — in particular every valid
/// JSON document — provided the indent unit consists of whitespace, as
/// all the preset units do.
pub proof fn theorem_idempotent(d: Seq<char>, unit: Seq<char>)
    requires
        all_ws(unit),
        !scan(init_state(), d).in_string,
    ensures
        fmt(fmt(d, unit), unit) == fmt(d, unit),
{
    theorem_strip_of_output(d, unit);
    theorem_whitespace_insignificant(fmt(d, unit), d, unit);
}

/// String preservation: the characters inside string literals, escapes
/// included, come out exactly as they went in; only structural whitespace
/// outside strings changes. Holds under the same provisos as idempotence.
pub proof fn theorem_string_content_preserved(d: Seq<char>, unit: Seq<char>)
    requires
        all_ws(unit),
        !scan(init_state(), d).in_string,
    ensures
        string_content(fmt(d, unit)) == string_content(d),
{
    let st0 = init_state();
    let body = fmt_from(st0, d, unit);
    lemma_fmt_preserves(st0, st0, d, unit);
    lemma_content_concat(st0, body, seq!['\n']);
    let sb = scan(st0, body);
    assert(!sb.in_string);
    lemma_single(sb, '\n');
    assert(string_content(fmt(d, unit)) =~= string_content(d));
}

/// Depth non-negativity: however unbalanced the input's closers are, the
/// nesting level never goes below zero — the decrement saturates, and the
/// level is carried as an unsigned count.
pub proof fn theorem_depth_nonnegative(d: Seq<char>, i: int)
    requires
        0 <= i <= d.len(),
    ensures
        scan(init_state(), d.take(i)).level >= 0,
{
}

} // verus!
