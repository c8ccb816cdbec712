//! Where the byte spans of instructions fall in UTF-8 text.
use vstd::prelude::*;
use vstd::utf8::{
    is_char_boundary, is_char_boundary_iff_not_is_continuation_byte,
    is_char_boundary_start_end_of_seq, length_of_first_scalar, pop_first_scalar, valid_utf8,
    valid_utf8_split,
};
use crate::grammar_regex::{
    block_line, copy_at, escaped_name, is_blank, is_name_operator, lemma_line_bounds,
    lemma_parse_line_within, lemma_run_end_bytes, name_line, name_tail, next_byte,
    next_name_operator, next_ticks, opt_value, parse_line, run_end, section_line, skip_blanks,
    ticks_at, trim_end, BACKTICK, DASH, HASH, LESS, NEWLINE,
};
use crate::properties::{fits, lemma_scan_fits};
use crate::tokenizer::{
    after_line, content_instruction, is_terminator, lemma_line_end, lemma_scan_block,
    lemma_scan_block_line, lemma_scan_invalid, lemma_scan_plain, lemma_values_within, line_end,
    ranges_of, scan, scan_block, span_within, terminator_values, CopyRanges, Instruction,
    InstructionValues, NameOperator, NameRanges, RangesValues, Span,
};

verus! {

/// Position `x` of `s` touches an ASCII byte, or an end of `s`.
pub open spec fn ascii_edge(s: Seq<u8>, x: int) -> bool {
    ||| x == 0
    ||| x == s.len()
    ||| (0 <= x < s.len() && s[x] < 0x80)
    ||| (0 < x <= s.len() && s[x - 1] < 0x80)
}

proof fn lemma_after_ascii(bytes: Seq<u8>, j: int)
    requires
        valid_utf8(bytes),
        0 <= j < bytes.len(),
        is_char_boundary(bytes, j),
        bytes[j] < 0x80,
    ensures
        is_char_boundary(bytes, j + 1),
    decreases bytes.len(),
{
    let k = length_of_first_scalar(bytes);
    let pop = pop_first_scalar(bytes);
    if j == 0 {
        assert(k == 1);
        assert(is_char_boundary(pop, 0));
    } else {
        assert(is_char_boundary(pop, j - k));
        assert(0 <= j - k);
        assert(pop.len() == bytes.len() - k);
        assert(pop[j - k] == bytes[j]);
        lemma_after_ascii(pop, j - k);
    }
}

/// A character boundary `b` of valid UTF-8 stays one in the part that starts
/// at an earlier boundary `a`.
pub proof fn lemma_boundary_in_suffix(s: Seq<u8>, a: int, b: int)
    requires
        valid_utf8(s),
        0 <= a <= b <= s.len(),
        is_char_boundary(s, a),
        is_char_boundary(s, b),
    ensures
        is_char_boundary(s.subrange(a, s.len() as int), b - a),
    decreases a,
{
    if a == 0 {
        assert(s.subrange(0, s.len() as int) =~= s);
    } else {
        let k = length_of_first_scalar(s);
        let pop = pop_first_scalar(s);
        assert(is_char_boundary(pop, a - k));
        assert(is_char_boundary(pop, b - k));
        lemma_boundary_in_suffix(pop, a - k, b - k);
        assert(pop.subrange(a - k, pop.len() as int) =~= s.subrange(a, s.len() as int));
    }
}

/// In valid UTF-8, a position next to an ASCII byte is a character boundary.
pub proof fn lemma_ascii_edge_boundary(s: Seq<u8>, x: int)
    requires
        valid_utf8(s),
        0 <= x <= s.len(),
        ascii_edge(s, x),
    ensures
        is_char_boundary(s, x),
{
    is_char_boundary_start_end_of_seq(s);
    if x == 0 || x == s.len() {
    } else if s[x] < 0x80 {
        is_char_boundary_iff_not_is_continuation_byte(s, x);
    } else {
        is_char_boundary_iff_not_is_continuation_byte(s, x - 1);
        lemma_after_ascii(s, x - 1);
    }
}

proof fn lemma_skip_blanks_edge(l: Seq<u8>, p: int)
    requires
        0 <= p <= l.len(),
    ensures
        skip_blanks(l, p) == p || is_blank(l[skip_blanks(l, p) - 1]),
    decreases l.len() - p,
{
    if p < l.len() && is_blank(l[p]) {
        lemma_skip_blanks_edge(l, p + 1);
    }
}

proof fn lemma_trim_end_edge(l: Seq<u8>, p: int, e: int)
    requires
        0 <= p <= e <= l.len(),
    ensures
        trim_end(l, p, e) == e || is_blank(l[trim_end(l, p, e)]),
    decreases e - p,
{
    if e > p && is_blank(l[e - 1]) {
        lemma_trim_end_edge(l, p, e - 1);
    }
}

proof fn lemma_next_byte_edge(l: Seq<u8>, p: int, c: u8)
    requires
        0 <= p <= l.len(),
    ensures
        next_byte(l, p, c) == l.len() || l[next_byte(l, p, c)] == c,
    decreases l.len() - p,
{
    if p < l.len() && l[p] != c {
        lemma_next_byte_edge(l, p + 1, c);
    }
}

proof fn lemma_next_name_operator_edge(l: Seq<u8>, p: int)
    requires
        0 <= p <= l.len(),
    ensures
        next_name_operator(l, p) == l.len() || is_name_operator(l[next_name_operator(l, p)]),
    decreases l.len() - p,
{
    if p < l.len() && !is_name_operator(l[p]) {
        lemma_next_name_operator_edge(l, p + 1);
    }
}

/// The positions that the scanning functions give touch ASCII bytes, when
/// they start from such positions.
proof fn lemma_line_edges(l: Seq<u8>)
    ensures
        forall|p: int| 0 <= p <= l.len() && ascii_edge(l, p) ==> ascii_edge(l, #[trigger] skip_blanks(l, p)),
        forall|p: int, c: u8|
            0 <= p <= l.len() && c < 0x80 && ascii_edge(l, p) ==> ascii_edge(l, #[trigger] run_end(l, p, c)),
        forall|p: int, e: int|
            0 <= p <= e <= l.len() && ascii_edge(l, e) ==> ascii_edge(l, #[trigger] trim_end(l, p, e)),
        forall|p: int, c: u8| 0 <= p <= l.len() && c < 0x80 ==> ascii_edge(l, #[trigger] next_byte(l, p, c)),
        forall|p: int| 0 <= p <= l.len() ==> ascii_edge(l, #[trigger] next_name_operator(l, p)),
{
    lemma_line_bounds(l);
    assert forall|p: int| 0 <= p <= l.len() && ascii_edge(l, p) implies ascii_edge(l, #[trigger] skip_blanks(l, p)) by {
        lemma_skip_blanks_edge(l, p);
    }
    assert forall|p: int, c: u8| 0 <= p <= l.len() && c < 0x80 && ascii_edge(l, p) implies ascii_edge(
        l,
        #[trigger] run_end(l, p, c),
    ) by {
        lemma_run_end_bytes(l, p, c);
        if run_end(l, p, c) > p {
            assert(l[run_end(l, p, c) - 1] == c);
        }
    }
    assert forall|p: int, e: int| 0 <= p <= e <= l.len() && ascii_edge(l, e) implies ascii_edge(
        l,
        #[trigger] trim_end(l, p, e),
    ) by {
        lemma_trim_end_edge(l, p, e);
    }
    assert forall|p: int, c: u8| 0 <= p <= l.len() && c < 0x80 implies ascii_edge(l, #[trigger] next_byte(l, p, c)) by {
        lemma_next_byte_edge(l, p, c);
    }
    assert forall|p: int| 0 <= p <= l.len() implies ascii_edge(l, #[trigger] next_name_operator(l, p)) by {
        lemma_next_name_operator_edge(l, p);
    }
}

pub open spec fn span_on_edges(x: Span, l: Seq<u8>) -> bool {
    ascii_edge(l, x.start as int) && ascii_edge(l, x.end as int)
}

pub open spec fn name_on_edges(nm: NameRanges, l: Seq<u8>) -> bool {
    &&& span_on_edges(nm.name, l)
    &&& nm.escape matches Some(e) ==> span_on_edges(e.begin, l) && span_on_edges(e.end, l)
}

pub open spec fn copy_on_edges(cp: CopyRanges, l: Seq<u8>) -> bool {
    span_on_edges(cp.operator, l) && span_on_edges(cp.template, l)
}

pub open spec fn opt_on_edges(v: Option<Span>, l: Seq<u8>) -> bool {
    v matches Some(x) ==> span_on_edges(x, l)
}

/// Every span of `v` starts and ends next to an ASCII byte of line `l`, or
/// at an end of the line.
pub open spec fn values_on_edges(v: InstructionValues, l: Seq<u8>) -> bool {
    match v {
        InstructionValues::EmptyLine => true,
        InstructionValues::Field { name, name_operator, value } => name_on_edges(name, l)
            && span_on_edges(name_operator, l) && span_on_edges(value, l),
        InstructionValues::Name { name, operator } => name_on_edges(name, l) && match operator {
            NameOperator::Plain(op) => span_on_edges(op, l),
            NameOperator::Template(cp) => copy_on_edges(cp, l),
        },
        InstructionValues::ListItem { item_operator, value } => span_on_edges(item_operator, l)
            && opt_on_edges(value, l),
        InstructionValues::FieldsetEntry { name, entry_operator, value } => name_on_edges(name, l)
            && span_on_edges(entry_operator, l) && opt_on_edges(value, l),
        InstructionValues::Continuation { operator, value, .. } => span_on_edges(operator, l)
            && opt_on_edges(value, l),
        InstructionValues::Section { section_operator, name, copy } => span_on_edges(section_operator, l)
            && name_on_edges(name, l) && (copy matches Some(cp) ==> copy_on_edges(cp, l)),
        InstructionValues::Block { block_operator, name } => span_on_edges(block_operator, l)
            && span_on_edges(name, l),
        InstructionValues::BlockContent { content } => span_on_edges(content, l),
        InstructionValues::BlockTerminator { block_operator, name } => span_on_edges(block_operator, l)
            && span_on_edges(name, l),
        InstructionValues::Comment { comment_operator, comment } => span_on_edges(comment_operator, l)
            && opt_on_edges(comment, l),
    }
}

proof fn lemma_opt_value_edges(l: Seq<u8>, p: int)
    requires
        0 <= p <= l.len() <= usize::MAX,
        ascii_edge(l, p),
    ensures
        opt_on_edges(opt_value(l, p), l),
{
    lemma_line_bounds(l);
    lemma_line_edges(l);
}

proof fn lemma_copy_edges(l: Seq<u8>, k: int)
    requires
        0 <= k < l.len() <= usize::MAX,
        l[k] == LESS,
    ensures
        copy_at(l, k) matches Some(cp) ==> copy_on_edges(cp, l),
{
    lemma_line_bounds(l);
    lemma_line_edges(l);
    let deep = k + 1 < l.len() && l[k + 1] == LESS;
    let oe = if deep {
        k + 2
    } else {
        k + 1
    };
    assert(ascii_edge(l, oe));
}

proof fn lemma_escaped_edges(l: Seq<u8>, p: int)
    requires
        0 <= p < l.len() <= usize::MAX,
        l[p] == BACKTICK,
    ensures
        escaped_name(l, p) matches Some((nm, u)) ==> name_on_edges(nm, l) && ascii_edge(l, u),
{
    lemma_line_bounds(l);
    lemma_line_edges(l);
    assert(run_end(l, p, BACKTICK) == run_end(l, p + 1, BACKTICK));
    let r = run_end(l, p, BACKTICK);
    let n = r - p;
    let t = skip_blanks(l, r);
    if t < l.len() {
        let c = next_ticks(l, t + 1, n);
        if ticks_at(l, c, n) {
            assert(l[c] == BACKTICK);
            assert(l[c + n - 1] == BACKTICK);
            assert(ascii_edge(l, c));
            assert(ascii_edge(l, c + n));
        }
    }
}

proof fn lemma_section_edges(l: Seq<u8>, a: int)
    requires
        0 <= a < l.len() <= usize::MAX,
        ascii_edge(l, a),
    ensures
        section_line(l, a) matches Some(v) ==> values_on_edges(v, l),
{
    lemma_line_bounds(l);
    lemma_line_edges(l);
    let h = run_end(l, a, HASH);
    let q = skip_blanks(l, h);
    if q < l.len() {
        if l[q] == BACKTICK {
            lemma_escaped_edges(l, q);
            if let Some((nm, u)) = escaped_name(l, q) {
                let k = skip_blanks(l, u);
                if k < l.len() && l[k] == LESS {
                    lemma_copy_edges(l, k);
                }
            }
        } else {
            let k = next_byte(l, q, LESS);
            lemma_next_byte_edge(l, q, LESS);
            if k < l.len() {
                lemma_copy_edges(l, k);
            }
        }
    }
}

proof fn lemma_block_edges(l: Seq<u8>, a: int)
    requires
        0 <= a < l.len() <= usize::MAX,
        ascii_edge(l, a),
        l[a] == DASH,
    ensures
        block_line(l, a) matches Some(v) ==> values_on_edges(v, l),
{
    lemma_line_bounds(l);
    lemma_line_edges(l);
    lemma_run_end_bytes(l, a, DASH);
    let d = run_end(l, a, DASH);
    if d - a >= 3 {
        assert(l[d - 1] == DASH && l[d - 2] == DASH);
        assert(ascii_edge(l, d - 1));
    }
}

proof fn lemma_name_tail_edges(l: Seq<u8>, nm: NameRanges, k: int)
    requires
        0 <= k < l.len() <= usize::MAX,
        is_name_operator(l[k]),
        name_on_edges(nm, l),
    ensures
        name_tail(l, nm, k) matches Some(v) ==> values_on_edges(v, l),
{
    assert(ascii_edge(l, k) && ascii_edge(l, k + 1));
    lemma_opt_value_edges(l, k + 1);
    if l[k] == LESS {
        lemma_copy_edges(l, k);
    }
}

proof fn lemma_name_line_edges(l: Seq<u8>, a: int)
    requires
        0 <= a < l.len() <= usize::MAX,
        ascii_edge(l, a),
    ensures
        name_line(l, a) matches Some(v) ==> values_on_edges(v, l),
{
    lemma_line_bounds(l);
    lemma_line_edges(l);
    if l[a] == BACKTICK {
        lemma_escaped_edges(l, a);
        if let Some((nm, u)) = escaped_name(l, a) {
            let v = skip_blanks(l, u);
            if v < l.len() && is_name_operator(l[v]) {
                lemma_name_tail_edges(l, nm, v);
            }
        }
    } else if !is_name_operator(l[a]) {
        let k = next_name_operator(l, a);
        lemma_next_name_operator_edge(l, a);
        if k < l.len() {
            let nm = NameRanges { name: crate::tokenizer::span(a, trim_end(l, a, k)), escape: None };
            lemma_name_tail_edges(l, nm, k);
        }
    }
}

/// Every span of a line's shape starts and ends next to an ASCII byte, or at
/// an end of the line.
pub proof fn lemma_parse_line_edges(l: Seq<u8>)
    requires
        l.len() <= usize::MAX,
    ensures
        parse_line(l) matches Some(v) ==> values_on_edges(v, l),
{
    reveal(parse_line);
    lemma_line_bounds(l);
    lemma_line_edges(l);
    let a = skip_blanks(l, 0);
    if a < l.len() {
        if l[a] < 0x80 {
            assert(ascii_edge(l, a + 1));
            lemma_opt_value_edges(l, a + 1);
        }
        if l[a] == HASH {
            lemma_section_edges(l, a);
        } else if l[a] == DASH {
            if a + 1 < l.len() && l[a + 1] == DASH {
                lemma_block_edges(l, a);
            }
        } else {
            lemma_name_line_edges(l, a);
        }
    }
}

proof fn lemma_block_dashes(l: Seq<u8>)
    requires
        l.len() <= usize::MAX,
    ensures
        parse_line(l) matches Some(InstructionValues::Block { block_operator: bo, .. }) ==> {
            &&& bo.start < bo.end <= l.len()
            &&& forall|k: int| bo.start <= k < bo.end ==> l[k] == DASH
        },
{
    reveal(parse_line);
    lemma_line_bounds(l);
    let a = skip_blanks(l, 0);
    if a < l.len() && l[a] == DASH && a + 1 < l.len() && l[a + 1] == DASH {
        lemma_run_end_bytes(l, a, DASH);
        assert(run_end(l, a, DASH) == run_end(l, a + 1, DASH));
        assert(run_end(l, a + 1, DASH) == run_end(l, a + 2, DASH));
    }
}

/// The line of instruction `t` starts the input or follows a newline, and
/// ends the input or precedes one; its spans touch ASCII bytes of the line.
pub open spec fn on_edges(s: Seq<u8>, t: Instruction) -> bool {
    let e = t.index + t.length;
    &&& t.index == 0 || s[t.index - 1] == NEWLINE
    &&& e == s.len() || s[e] == NEWLINE
    &&& values_on_edges(t.values, s.subrange(t.index as int, e))
}

proof fn lemma_block_edges_contents(s: Seq<u8>, j: int, line: int, dashes: Seq<u8>, name: Seq<u8>)
    requires
        s.len() <= usize::MAX,
        0 <= j < s.len() ==> s[j] == NEWLINE,
    ensures
        scan_block(s, j, line, dashes, name) matches Some((c, u)) ==> forall|k: int|
            0 <= k < c.len() ==> on_edges(s, #[trigger] c[k]),
    decreases s.len() - j,
{
    if 0 <= j < s.len() {
        let t = j + 1;
        lemma_line_end(s, t);
        let te = line_end(s, t);
        if !is_terminator(s.subrange(t, te), dashes, name) {
            lemma_block_edges_contents(s, te, line + 1, dashes, name);
            if let Some((c2, u)) = scan_block(s, te, line + 1, dashes, name) {
                let ci = content_instruction(t, line, te - t);
                let c = seq![ci] + c2;
                assert(s.subrange(ci.index as int, ci.index + ci.length).len() == te - t);
                assert(on_edges(s, ci));
                assert forall|k: int| 0 <= k < c.len() implies on_edges(s, #[trigger] c[k]) by {
                    if k > 0 {
                        assert(c[k] == c2[k - 1]);
                    }
                }
            }
        }
    }
}

proof fn lemma_terminator_edges(s: Seq<u8>, t: int, dashes: Seq<u8>, name: Seq<u8>)
    requires
        s.len() <= usize::MAX,
        0 < t <= s.len(),
        s[t - 1] == NEWLINE,
        is_terminator(s.subrange(t, line_end(s, t)), dashes, name),
        dashes.len() > 0,
        dashes[dashes.len() - 1] == DASH,
    ensures
        values_on_edges(
            terminator_values(s.subrange(t, line_end(s, t)), dashes.len() as int, name.len() as int),
            s.subrange(t, line_end(s, t)),
        ),
{
    lemma_line_end(s, t);
    let l = s.subrange(t, line_end(s, t));
    lemma_line_bounds(l);
    lemma_line_edges(l);
    let a = skip_blanks(l, 0);
    let dl = dashes.len() as int;
    let q = skip_blanks(l, a + dl);
    let nl = name.len() as int;
    assert(l.subrange(a, a + dl)[dl - 1] == l[a + dl - 1]);
    assert(ascii_edge(l, a + dl));
    assert(ascii_edge(l, q));
    assert(ascii_edge(l, q + nl));
}

/// Every instruction from line start `i` on lies on edges.
pub proof fn lemma_scan_edges(s: Seq<u8>, i: int, line: int)
    requires
        s.len() <= usize::MAX,
        0 <= i,
        i == 0 || i >= s.len() || s[i - 1] == NEWLINE,
    ensures
        forall|k: int| 0 <= k < scan(s, i, line).0.len() ==> on_edges(s, #[trigger] scan(s, i, line).0[k]),
    decreases s.len() - i,
{
    if i >= s.len() {
        reveal(scan);
        if s.len() > 0 && s[s.len() - 1] == NEWLINE {
            let ts = scan(s, i, line).0;
            assert(on_edges(s, ts[0]));
        }
    } else {
        lemma_line_end(s, i);
        let e = line_end(s, i);
        let l = s.subrange(i, e);
        lemma_parse_line_within(l);
        lemma_parse_line_edges(l);
        lemma_block_dashes(l);
        let n = after_line(s, e);
        match parse_line(l) {
            None => {
                lemma_scan_invalid(s, i, line);
                lemma_scan_edges(s, n, line + 1);
            },
            Some(v) => {
                let ins = crate::tokenizer::instruction(i, line, e - i, v);
                assert(s.subrange(ins.index as int, ins.index + ins.length) == l);
                assert(on_edges(s, ins));
                if let InstructionValues::Block { block_operator, name } = v {
                    lemma_scan_block_line(s, i, line);
                    let dashes = l.subrange(block_operator.start as int, block_operator.end as int);
                    let nm = l.subrange(name.start as int, name.end as int);
                    lemma_scan_block(s, e, line + 1, dashes, nm);
                    lemma_block_edges_contents(s, e, line + 1, dashes, nm);
                    if let Some((c, t)) = scan_block(s, e, line + 1, dashes, nm) {
                        lemma_line_end(s, t);
                        let te = line_end(s, t);
                        let lt = line + 1 + c.len();
                        assert(s[t - 1] == NEWLINE) by {
                            if t == e + 1 {
                            } else {
                                crate::properties::lemma_block_lines_newline(s, e, line + 1, dashes, nm);
                            }
                        }
                        assert(dashes[dashes.len() - 1] == l[block_operator.end - 1]);
                        lemma_terminator_edges(s, t, dashes, nm);
                        let tl = s.subrange(t, te);
                        let term = crate::tokenizer::instruction(
                            t,
                            lt,
                            te - t,
                            terminator_values(tl, dashes.len() as int, nm.len() as int),
                        );
                        assert(s.subrange(term.index as int, term.index + term.length) == tl);
                        assert(on_edges(s, term));
                        lemma_scan_edges(s, after_line(s, te), lt + 1);
                        let all = scan(s, i, line).0;
                        let rest = scan(s, after_line(s, te), lt + 1).0;
                        assert forall|k: int| 0 <= k < all.len() implies on_edges(s, #[trigger] all[k]) by {
                            if 1 <= k < 1 + c.len() {
                                assert(all[k] == c[k - 1]);
                            } else if k > 1 + c.len() {
                                assert(all[k] == rest[k - 2 - c.len()]);
                            }
                        }
                    }
                } else {
                    lemma_scan_plain(s, i, line);
                    lemma_scan_edges(s, n, line + 1);
                    let all = scan(s, i, line).0;
                    let rest = scan(s, n, line + 1).0;
                    assert forall|k: int| 0 <= k < all.len() implies on_edges(s, #[trigger] all[k]) by {
                        if k > 0 {
                            assert(all[k] == rest[k - 1]);
                        }
                    }
                }
            },
        }
    }
}

proof fn lemma_values_on_edges(v: InstructionValues, l: Seq<u8>)
    requires
        values_on_edges(v, l),
    ensures
        forall|k: int| 0 <= k < ranges_of(v).len() ==> span_on_edges(#[trigger] ranges_of(v)[k].span_of(), l),
{
    let r = ranges_of(v);
    assert forall|k: int| 0 <= k < r.len() implies span_on_edges(#[trigger] r[k].span_of(), l) by {
        match v {
            InstructionValues::Field { name, name_operator, value } => {
                assert(r == crate::tokenizer::name_ranges(name) + seq![
                    RangesValues::NameOperator(name_operator),
                    RangesValues::Value(value),
                ]);
            },
            _ => {},
        }
    }
}

proof fn lemma_lift_edge(s: Seq<u8>, t: Instruction, x: int)
    requires
        on_edges(s, t),
        t.index + t.length <= s.len(),
        0 <= x <= t.length,
        ascii_edge(s.subrange(t.index as int, t.index + t.length), x),
    ensures
        ascii_edge(s, t.index + x),
{
    let l = s.subrange(t.index as int, t.index + t.length);
    if 0 <= x < l.len() && l[x] < 0x80 {
        assert(s[t.index + x] == l[x]);
    } else if 0 < x <= l.len() && l[x - 1] < 0x80 {
        assert(s[t.index + x - 1] == l[x - 1]);
    }
}

/// Span `x` on the line of `t` starts and ends on character boundaries of
/// `s`, and its bytes are valid UTF-8.
pub open spec fn on_char_boundaries(s: Seq<u8>, t: Instruction, x: Span) -> bool {
    &&& is_char_boundary(s, t.index + x.start)
    &&& is_char_boundary(s, t.index + x.end)
    &&& valid_utf8(s.subrange(t.index + x.start, t.index + x.end))
}

/// The bytes between two positions next to ASCII bytes of valid UTF-8 are
/// valid UTF-8.
proof fn lemma_edges_valid(s: Seq<u8>, a: int, b: int)
    requires
        valid_utf8(s),
        0 <= a <= b <= s.len(),
        ascii_edge(s, a),
        ascii_edge(s, b),
    ensures
        valid_utf8(s.subrange(a, b)),
{
    lemma_ascii_edge_boundary(s, a);
    valid_utf8_split(s, a);
    let u = s.subrange(a, s.len() as int);
    assert(ascii_edge(u, b - a)) by {
        if b - a > 0 && b < s.len() && s[b] < 0x80 {
            assert(u[b - a] == s[b]);
        } else if b - a > 0 && s[b - 1] < 0x80 {
            assert(u[b - a - 1] == s[b - 1]);
        }
    }
    lemma_ascii_edge_boundary(u, b - a);
    valid_utf8_split(u, b - a);
    assert(u.subrange(0, b - a) =~= s.subrange(a, b));
}

/// In UTF-8 input, every range of every instruction starts and ends on a
/// character boundary, so that its bytes are whole characters: the text of
/// a name, a value or a template decodes exactly.
pub proof fn lemma_ranges_on_char_boundaries(s: Seq<u8>)
    requires
        s.len() <= usize::MAX,
        valid_utf8(s),
    ensures
        forall|k: int, j: int|
            0 <= k < scan(s, 0, 0).0.len() && 0 <= j < ranges_of(scan(s, 0, 0).0[k].values).len()
                ==> on_char_boundaries(
                s,
                scan(s, 0, 0).0[k],
                #[trigger] ranges_of(scan(s, 0, 0).0[k].values)[j].span_of(),
            ),
{
    let ts = scan(s, 0, 0).0;
    lemma_scan_fits(s, 0, 0);
    lemma_scan_edges(s, 0, 0);
    assert forall|k: int, j: int|
        0 <= k < ts.len() && 0 <= j < ranges_of(ts[k].values).len() implies on_char_boundaries(
        s,
        ts[k],
        #[trigger] ranges_of(ts[k].values)[j].span_of(),
    ) by {
        let t = ts[k];
        let x = ranges_of(t.values)[j].span_of();
        assert(fits(s, t));
        assert(on_edges(s, t));
        lemma_values_within(t.values, t.length as int);
        assert(span_within(x, t.length as int));
        lemma_values_on_edges(t.values, s.subrange(t.index as int, t.index + t.length));
        lemma_lift_edge(s, t, x.start as int);
        lemma_lift_edge(s, t, x.end as int);
        lemma_ascii_edge_boundary(s, t.index + x.start);
        lemma_ascii_edge_boundary(s, t.index + x.end);
        lemma_edges_valid(s, t.index + x.start, t.index + x.end);
    }
}

} // verus!
