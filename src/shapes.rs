//! The line shapes described directly: what the bytes of a line are when
//! the grammar reads a given shape from it.
use vstd::prelude::*;
use crate::grammar_regex::{
    escaped_name, is_blank, is_name_operator, lemma_line_bounds, lemma_parse_line_within,
    lemma_run_end_bytes, next_name_operator, next_ticks, parse_line, run_end, skip_blanks,
    ticks_at, trim_end, BACKSLASH, BACKTICK, COLON, DASH, GREATER, HASH, PIPE,
};
use crate::tokenizer::{InstructionValues, NameRanges, Span};

verus! {

proof fn lemma_skip_blanks_facts(l: Seq<u8>, p: int)
    requires
        0 <= p <= l.len(),
    ensures
        forall|j: int| p <= j < skip_blanks(l, p) ==> is_blank(l[j]),
        skip_blanks(l, p) < l.len() ==> !is_blank(l[skip_blanks(l, p)]),
    decreases l.len() - p,
{
    if p < l.len() && is_blank(l[p]) {
        lemma_skip_blanks_facts(l, p + 1);
    }
}

proof fn lemma_trim_end_facts(l: Seq<u8>, p: int, e: int)
    requires
        0 <= p <= e <= l.len(),
    ensures
        forall|j: int| trim_end(l, p, e) <= j < e ==> is_blank(l[j]),
        trim_end(l, p, e) > p ==> !is_blank(l[trim_end(l, p, e) - 1]),
    decreases e - p,
{
    if e > p && is_blank(l[e - 1]) {
        lemma_trim_end_facts(l, p, e - 1);
    }
}

proof fn lemma_next_name_operator_facts(l: Seq<u8>, p: int)
    requires
        0 <= p <= l.len(),
    ensures
        forall|j: int| p <= j < next_name_operator(l, p) ==> !is_name_operator(l[j]),
        next_name_operator(l, p) < l.len() ==> is_name_operator(l[next_name_operator(l, p)]),
    decreases l.len() - p,
{
    if p < l.len() && !is_name_operator(l[p]) {
        lemma_next_name_operator_facts(l, p + 1);
    }
}

proof fn lemma_next_ticks_facts(l: Seq<u8>, p: int, n: int)
    requires
        0 <= p <= l.len(),
        n > 0,
    ensures
        forall|c: int| p <= c < next_ticks(l, p, n) ==> !ticks_at(l, c, n),
    decreases l.len() - p,
{
    if p + n <= l.len() && !ticks_at(l, p, n) {
        lemma_next_ticks_facts(l, p + 1, n);
    }
}

/// Only blanks stand in `[a, b)`.
pub open spec fn blanks_between(l: Seq<u8>, a: int, b: int) -> bool {
    forall|j: int| a <= j < b ==> is_blank(l[j])
}

/// `x` is not empty and starts and ends with a non-blank byte.
pub open spec fn trimmed(l: Seq<u8>, x: Span) -> bool {
    &&& x.start < x.end
    &&& !is_blank(l[x.start as int])
    &&& !is_blank(l[x.end - 1])
}

/// A field line with an unescaped name: blanks, the name (no `:`, `=` or
/// `<` in it), blanks, the `:`, blanks, the value, blanks.
pub open spec fn is_plain_field(l: Seq<u8>, name: Span, colon: Span, value: Span) -> bool {
    &&& 0 <= name.start < name.end <= colon.start
    &&& colon.end == colon.start + 1 <= value.start < value.end <= l.len()
    &&& l[colon.start as int] == COLON
    &&& blanks_between(l, 0, name.start as int)
    &&& trimmed(l, name)
    &&& forall|j: int| name.start <= j < colon.start ==> !is_name_operator(#[trigger] l[j])
    &&& blanks_between(l, name.end as int, colon.start as int)
    &&& blanks_between(l, colon.end as int, value.start as int)
    &&& trimmed(l, value)
    &&& blanks_between(l, value.end as int, l.len() as int)
}

/// An escaped name: the whole run of `n` backticks at `begin`, blanks, the
/// name, blanks, and `n` backticks at `end`. After its first byte the name
/// holds no run of `n` backticks.
pub open spec fn is_escaped(l: Seq<u8>, nm: NameRanges) -> bool {
    nm.escape matches Some(e) && {
        let n = e.begin.end - e.begin.start;
        &&& 0 < n == e.end.end - e.end.start
        &&& e.begin.end <= nm.name.start
        &&& nm.name.end <= e.end.start
        &&& e.end.end <= l.len()
        &&& ticks_at(l, e.begin.start as int, n)
        &&& (e.begin.end < l.len() ==> l[e.begin.end as int] != BACKTICK)
        &&& ticks_at(l, e.end.start as int, n)
        &&& blanks_between(l, e.begin.end as int, nm.name.start as int)
        &&& trimmed(l, nm.name)
        &&& blanks_between(l, nm.name.end as int, e.end.start as int)
        &&& forall|c: int| nm.name.start < c < e.end.start ==> !(#[trigger] ticks_at(l, c, n))
    }
}

proof fn lemma_escaped_name_shape(l: Seq<u8>, p: int)
    requires
        0 <= p < l.len() <= usize::MAX,
        l[p] == BACKTICK,
    ensures
        escaped_name(l, p) matches Some((nm, u)) ==> is_escaped(l, nm) && nm.escape->Some_0.end.end
            == u && nm.escape->Some_0.begin.start == p,
{
    lemma_line_bounds(l);
    assert(run_end(l, p, BACKTICK) == run_end(l, p + 1, BACKTICK));
    let r = run_end(l, p, BACKTICK);
    let n = r - p;
    lemma_run_end_bytes(l, p, BACKTICK);
    let t = skip_blanks(l, r);
    lemma_skip_blanks_facts(l, r);
    if t < l.len() {
        let c = next_ticks(l, t + 1, n);
        lemma_next_ticks_facts(l, t + 1, n);
        if ticks_at(l, c, n) {
            lemma_trim_end_facts(l, t, c);
            assert(ticks_at(l, p, n));
        }
    }
}

/// The name of a shape that has one, with its escape.
pub open spec fn name_of(v: InstructionValues) -> Option<NameRanges> {
    match v {
        InstructionValues::Field { name, .. } => Some(name),
        InstructionValues::Name { name, .. } => Some(name),
        InstructionValues::FieldsetEntry { name, .. } => Some(name),
        InstructionValues::Section { name, .. } => Some(name),
        _ => None,
    }
}

/// Every escaped name that the grammar reads opens and closes with runs of
/// the same number of backticks, and holds no such run after its first byte.
pub proof fn lemma_escaped_names(l: Seq<u8>)
    requires
        l.len() <= usize::MAX,
    ensures
        parse_line(l) matches Some(v) ==> (name_of(v) matches Some(nm) ==> (nm.escape is Some
            ==> is_escaped(l, nm))),
{
    reveal(parse_line);
    lemma_line_bounds(l);
    let a = skip_blanks(l, 0);
    if a < l.len() {
        if l[a] == HASH {
            let h = run_end(l, a, HASH);
            let q = skip_blanks(l, h);
            if q < l.len() && l[q] == BACKTICK {
                lemma_escaped_name_shape(l, q);
            }
        } else if l[a] == BACKTICK {
            lemma_escaped_name_shape(l, a);
        }
    }
}

/// A field whose name is not escaped is exactly: blanks, a name without
/// `:`, `=` or `<`, blanks, `:`, blanks, a value, blanks.
pub proof fn lemma_plain_field(l: Seq<u8>)
    requires
        l.len() <= usize::MAX,
    ensures
        parse_line(l) matches Some(InstructionValues::Field { name, name_operator, value })
            ==> (name.escape is None ==> is_plain_field(l, name.name, name_operator, value)),
{
    reveal(parse_line);
    lemma_line_bounds(l);
    lemma_parse_line_within(l);
    let a = skip_blanks(l, 0);
    lemma_skip_blanks_facts(l, 0);
    if a < l.len() && l[a] != BACKTICK && !is_name_operator(l[a]) {
        let k = next_name_operator(l, a);
        lemma_next_name_operator_facts(l, a);
        if k < l.len() {
            lemma_trim_end_facts(l, a, k);
            assert(trim_end(l, a, k) > a) by {
                if trim_end(l, a, k) <= a {
                    assert(is_blank(l[a]));
                }
            }
            let q = skip_blanks(l, k + 1);
            lemma_skip_blanks_facts(l, k + 1);
            if q < l.len() {
                lemma_trim_end_facts(l, q, l.len() as int);
                assert(trim_end(l, q, l.len() as int) > q) by {
                    if trim_end(l, q, l.len() as int) <= q {
                        assert(is_blank(l[q]));
                    }
                }
            }
        }
    }
}

/// After the one-byte operator at `op`, either only blanks, or blanks, the
/// value and blanks.
pub open spec fn is_operator_value(l: Seq<u8>, op: Span, value: Option<Span>) -> bool {
    &&& op.end == op.start + 1 <= l.len()
    &&& blanks_between(l, 0, op.start as int)
    &&& match value {
        Some(x) => {
            &&& op.end <= x.start
            &&& x.end <= l.len()
            &&& blanks_between(l, op.end as int, x.start as int)
            &&& trimmed(l, x)
            &&& blanks_between(l, x.end as int, l.len() as int)
        },
        None => blanks_between(l, op.end as int, l.len() as int),
    }
}

proof fn lemma_opt_value_shape(l: Seq<u8>, p: int)
    requires
        0 < p <= l.len() <= usize::MAX,
    ensures
        is_operator_value(l, crate::tokenizer::span(p - 1, p), crate::grammar_regex::opt_value(l, p))
            || !blanks_between(l, 0, p - 1),
{
    lemma_line_bounds(l);
    lemma_skip_blanks_facts(l, p);
    let q = skip_blanks(l, p);
    if q < l.len() {
        lemma_trim_end_facts(l, q, l.len() as int);
        assert(trim_end(l, q, l.len() as int) > q) by {
            if trim_end(l, q, l.len() as int) <= q {
                assert(is_blank(l[q]));
            }
        }
    }
}

/// A list item, a comment and a continuation are exactly: blanks, their
/// operator (`-`, `>`, `|` or `\`), and then either only blanks, or blanks,
/// the value and blanks.
pub proof fn lemma_operator_lines(l: Seq<u8>)
    requires
        l.len() <= usize::MAX,
    ensures
        parse_line(l) matches Some(v) ==> match v {
            InstructionValues::ListItem { item_operator, value } => l[item_operator.start as int]
                == DASH && is_operator_value(l, item_operator, value),
            InstructionValues::Comment { comment_operator, comment } => l[comment_operator.start as int]
                == GREATER && is_operator_value(l, comment_operator, comment),
            InstructionValues::Continuation { newline, operator, value } => l[operator.start as int]
                == (if newline {
                PIPE
            } else {
                BACKSLASH
            }) && is_operator_value(l, operator, value),
            _ => true,
        },
{
    reveal(parse_line);
    lemma_line_bounds(l);
    lemma_skip_blanks_facts(l, 0);
    let a = skip_blanks(l, 0);
    if a < l.len() {
        lemma_opt_value_shape(l, a + 1);
    }
}

/// A block opener is exactly: blanks, a run of at least two dashes, blanks,
/// the name, blanks; or, on a line of three or more dashes alone, all dashes
/// but the last, and that last dash as the name.
pub proof fn lemma_block_opener(l: Seq<u8>)
    requires
        l.len() <= usize::MAX,
    ensures
        parse_line(l) matches Some(InstructionValues::Block { block_operator: d, name }) ==> {
            &&& d.start + 2 <= d.end <= name.start < name.end <= l.len()
            &&& blanks_between(l, 0, d.start as int)
            &&& forall|j: int| d.start <= j < d.end ==> l[j] == DASH
            &&& blanks_between(l, d.end as int, name.start as int)
            &&& trimmed(l, name)
            &&& blanks_between(l, name.end as int, l.len() as int)
        },
{
    reveal(parse_line);
    lemma_line_bounds(l);
    lemma_skip_blanks_facts(l, 0);
    let a = skip_blanks(l, 0);
    if a + 1 < l.len() && l[a] == DASH && l[a + 1] == DASH {
        lemma_run_end_bytes(l, a, DASH);
        assert(run_end(l, a, DASH) == run_end(l, a + 1, DASH));
        assert(run_end(l, a + 1, DASH) == run_end(l, a + 2, DASH));
        let d = run_end(l, a, DASH);
        lemma_skip_blanks_facts(l, d);
        let q = skip_blanks(l, d);
        if q < l.len() {
            lemma_trim_end_facts(l, q, l.len() as int);
            assert(trim_end(l, q, l.len() as int) > q) by {
                if trim_end(l, q, l.len() as int) <= q {
                    assert(is_blank(l[q]));
                }
            }
        }
    }
}

} // verus!
