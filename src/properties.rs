//! What holds of every result of the scanner.
use vstd::prelude::*;
use crate::grammar_regex::{
    lemma_line_bounds, lemma_parse_line_within, parse_line, skip_blanks, NEWLINE,
};
use crate::tokenizer::{
    after_line, content_instruction, is_terminator, lemma_line_end, lemma_scan_block,
    lemma_scan_block_line, lemma_scan_invalid, lemma_scan_plain, lemma_values_within, line_end,
    ranges_within, scan, scan_block, terminator_values, values_within, Diagnostic, ErrorKey,
    Instruction, InstructionValues, Span,
};

verus! {

/// Instruction `t` lies within input `s`, and its spans within its line.
pub open spec fn fits(s: Seq<u8>, t: Instruction) -> bool {
    t.index + t.length <= s.len() && values_within(t.values, t.length as int)
}

proof fn lemma_block_fits(s: Seq<u8>, j: int, line: int, dashes: Seq<u8>, name: Seq<u8>)
    requires
        s.len() <= usize::MAX,
    ensures
        scan_block(s, j, line, dashes, name) matches Some((c, u)) ==> forall|k: int|
            0 <= k < c.len() ==> fits(s, #[trigger] c[k]),
    decreases s.len() - j,
{
    if 0 <= j < s.len() {
        let t = j + 1;
        lemma_line_end(s, t);
        let te = line_end(s, t);
        if !is_terminator(s.subrange(t, te), dashes, name) {
            lemma_block_fits(s, te, line + 1, dashes, name);
            if let Some((c2, u)) = scan_block(s, te, line + 1, dashes, name) {
                let c = seq![content_instruction(t, line, te - t)] + c2;
                assert forall|k: int| 0 <= k < c.len() implies fits(s, #[trigger] c[k]) by {
                    if k > 0 {
                        assert(c[k] == c2[k - 1]);
                    }
                }
            }
        }
    }
}

proof fn lemma_terminator_fits(s: Seq<u8>, t: int, dl: int, nl: int, dashes: Seq<u8>, name: Seq<u8>)
    requires
        s.len() <= usize::MAX,
        0 <= t <= s.len(),
        dl == dashes.len(),
        nl == name.len(),
        is_terminator(s.subrange(t, line_end(s, t)), dashes, name),
    ensures
        values_within(terminator_values(s.subrange(t, line_end(s, t)), dl, nl), line_end(s, t) - t),
{
    lemma_line_end(s, t);
    let l = s.subrange(t, line_end(s, t));
    lemma_line_bounds(l);
    let a = skip_blanks(l, 0);
    let q = skip_blanks(l, a + dl);
}

pub proof fn lemma_scan_fits(s: Seq<u8>, i: int, line: int)
    requires
        s.len() <= usize::MAX,
        0 <= i,
    ensures
        forall|k: int| 0 <= k < scan(s, i, line).0.len() ==> fits(s, #[trigger] scan(s, i, line).0[k]),
    decreases s.len() - i,
{
    if i >= s.len() {
        reveal(scan);
    } else {
        lemma_line_end(s, i);
        let e = line_end(s, i);
        let l = s.subrange(i, e);
        lemma_parse_line_within(l);
        match parse_line(l) {
            None => {
                lemma_scan_invalid(s, i, line);
                lemma_scan_fits(s, after_line(s, e), line + 1);
            },
            Some(v) => {
                if let InstructionValues::Block { block_operator, name } = v {
                    lemma_scan_block_line(s, i, line);
                    let dashes = l.subrange(block_operator.start as int, block_operator.end as int);
                    let nm = l.subrange(name.start as int, name.end as int);
                    lemma_scan_block(s, e, line + 1, dashes, nm);
                    lemma_block_fits(s, e, line + 1, dashes, nm);
                    if let Some((c, t)) = scan_block(s, e, line + 1, dashes, nm) {
                        lemma_line_end(s, t);
                        let te = line_end(s, t);
                        let lt = line + 1 + c.len();
                        lemma_terminator_fits(s, t, dashes.len() as int, nm.len() as int, dashes, nm);
                        lemma_scan_fits(s, after_line(s, te), lt + 1);
                        let all = scan(s, i, line).0;
                        let rest = scan(s, after_line(s, te), lt + 1).0;
                        assert forall|k: int| 0 <= k < all.len() implies fits(s, #[trigger] all[k]) by {
                            if 1 <= k < 1 + c.len() {
                                assert(all[k] == c[k - 1]);
                            } else if k > 1 + c.len() {
                                assert(all[k] == rest[k - 2 - c.len()]);
                            }
                        }
                    }
                } else {
                    lemma_scan_plain(s, i, line);
                    lemma_scan_fits(s, after_line(s, e), line + 1);
                    let all = scan(s, i, line).0;
                    let rest = scan(s, after_line(s, e), line + 1).0;
                    assert forall|k: int| 0 <= k < all.len() implies fits(s, #[trigger] all[k]) by {
                        if k > 0 {
                            assert(all[k] == rest[k - 1]);
                        }
                    }
                }
            },
        }
    }
}

/// Every instruction of a tokenized input lies within the input, and every
/// range of an instruction lies within its line.
pub proof fn lemma_instructions_fit(s: Seq<u8>)
    requires
        s.len() <= usize::MAX,
    ensures
        forall|k: int| 0 <= k < scan(s, 0, 0).0.len() ==> {
            let t = #[trigger] scan(s, 0, 0).0[k];
            &&& t.index + t.length <= s.len()
            &&& ranges_within(t.values, t.length as int)
        },
{
    lemma_scan_fits(s, 0, 0);
    assert forall|k: int| 0 <= k < scan(s, 0, 0).0.len() implies {
        let t = #[trigger] scan(s, 0, 0).0[k];
        &&& t.index + t.length <= s.len()
        &&& ranges_within(t.values, t.length as int)
    } by {
        let t = scan(s, 0, 0).0[k];
        assert(fits(s, t));
        lemma_values_within(t.values, t.length as int);
    }
}

/// The bytes of the line of instruction `t`.
pub open spec fn slice_of(s: Seq<u8>, t: Instruction) -> Seq<u8> {
    s.subrange(t.index as int, t.index + t.length)
}

/// The lines of `ts`, joined with newlines.
pub open spec fn joined(s: Seq<u8>, ts: Seq<Instruction>) -> Seq<u8>
    decreases ts.len(),
{
    if ts.len() == 0 {
        seq![]
    } else if ts.len() == 1 {
        slice_of(s, ts[0])
    } else {
        slice_of(s, ts[0]) + seq![NEWLINE] + joined(s, ts.subrange(1, ts.len() as int))
    }
}

/// Each instruction of `ts` starts on the byte after the newline that ends
/// the one before it.
pub open spec fn chained(ts: Seq<Instruction>) -> bool {
    forall|k: int| 0 <= k < ts.len() - 1 ==> #[trigger] ts[k + 1].index == ts[k].index + ts[k].length + 1
}

proof fn lemma_joined_concat(s: Seq<u8>, a: Seq<Instruction>, b: Seq<Instruction>)
    requires
        a.len() > 0,
        b.len() > 0,
    ensures
        joined(s, a + b) == joined(s, a) + seq![NEWLINE] + joined(s, b),
    decreases a.len(),
{
    let ab = a + b;
    if a.len() == 1 {
        assert(ab.subrange(1, ab.len() as int) =~= b);
    } else {
        let a1 = a.subrange(1, a.len() as int);
        lemma_joined_concat(s, a1, b);
        assert(ab.subrange(1, ab.len() as int) =~= a1 + b);
        assert(joined(s, ab) =~= joined(s, a) + seq![NEWLINE] + joined(s, b));
    }
}

proof fn lemma_chained_concat(a: Seq<Instruction>, b: Seq<Instruction>)
    requires
        chained(a),
        chained(b),
        a.len() > 0,
        b.len() > 0,
        b[0].index == a[a.len() - 1].index + a[a.len() - 1].length + 1,
    ensures
        chained(a + b),
{
    let ab = a + b;
    assert forall|k: int| 0 <= k < ab.len() - 1 implies #[trigger] ab[k + 1].index == ab[k].index + ab[k].length + 1 by {
        if k < a.len() - 1 {
            assert(ab[k + 1] == a[k + 1] && ab[k] == a[k]);
        } else if k == a.len() - 1 {
            assert(ab[k + 1] == b[0] && ab[k] == a[k]);
        } else {
            let m = k - a.len();
            assert(ab[k + 1] == b[m + 1] && ab[k] == b[m]);
            assert(b[m + 1].index == b[m].index + b[m].length + 1);
        }
    }
}

/// Joins the lines of `head`, which run from `i` to `m`, with those of
/// `rest`, which run from the next line to the input's end.
proof fn lemma_join_step(s: Seq<u8>, i: int, m: int, head: Seq<Instruction>, rest: Seq<Instruction>)
    requires
        0 <= i <= m <= s.len(),
        head.len() > 0,
        joined(s, head) == s.subrange(i, m),
        chained(head),
        head[head.len() - 1].index + head[head.len() - 1].length == m,
        m == s.len() ==> rest.len() == 0,
        m < s.len() ==> {
            &&& s[m] == NEWLINE
            &&& rest.len() > 0
            &&& rest[0].index == m + 1
            &&& joined(s, rest) == s.subrange(m + 1, s.len() as int)
            &&& chained(rest)
        },
    ensures
        joined(s, head + rest) == s.subrange(i, s.len() as int),
        chained(head + rest),
{
    if m == s.len() {
        assert(head + rest =~= head);
    } else {
        lemma_joined_concat(s, head, rest);
        lemma_chained_concat(head, rest);
        assert(s.subrange(i, m) + seq![NEWLINE] + s.subrange(m + 1, s.len() as int) =~= s.subrange(i, s.len() as int));
    }
}

proof fn lemma_scan_at_end(s: Seq<u8>, line: int)
    requires
        s.len() > 0 ==> s[s.len() - 1] != NEWLINE,
    ensures
        scan(s, s.len() as int, line).0.len() == 0,
{
    reveal(scan);
}

proof fn lemma_block_lines(s: Seq<u8>, j: int, line: int, dashes: Seq<u8>, name: Seq<u8>)
    requires
        s.len() <= usize::MAX,
        0 <= j < s.len(),
        s[j] == NEWLINE,
    ensures
        scan_block(s, j, line, dashes, name) matches Some((c, u)) ==> {
            &&& j + 1 <= u <= s.len()
            &&& s[u - 1] == NEWLINE
            &&& c.len() == 0 ==> u == j + 1
            &&& c.len() > 0 ==> {
                &&& j + 2 <= u
                &&& joined(s, c) == s.subrange(j + 1, u - 1)
                &&& c[0].index == j + 1
                &&& chained(c)
                &&& c[c.len() - 1].index + c[c.len() - 1].length + 1 == u
            }
        },
    decreases s.len() - j,
{
    let t = j + 1;
    lemma_line_end(s, t);
    let te = line_end(s, t);
    if !is_terminator(s.subrange(t, te), dashes, name) && te < s.len() {
        lemma_block_lines(s, te, line + 1, dashes, name);
        if let Some((c2, u)) = scan_block(s, te, line + 1, dashes, name) {
            let ci = content_instruction(t, line, te - t);
            let c = seq![ci] + c2;
            assert(slice_of(s, ci) == s.subrange(t, te));
            if c2.len() == 0 {
                assert(c =~= seq![ci]);
            } else {
                lemma_joined_concat(s, seq![ci], c2);
                assert(c =~= seq![ci] + c2);
                assert(s.subrange(t, te) + seq![NEWLINE] + s.subrange(te + 1, u - 1) =~= s.subrange(j + 1, u - 1));
                lemma_chained_concat(seq![ci], c2);
                assert(c[c.len() - 1] == c2[c2.len() - 1]);
            }
        }
    }
}

/// The line before a block's terminator ends with a newline.
pub proof fn lemma_block_lines_newline(s: Seq<u8>, j: int, line: int, dashes: Seq<u8>, name: Seq<u8>)
    requires
        s.len() <= usize::MAX,
        0 <= j < s.len(),
        s[j] == NEWLINE,
    ensures
        scan_block(s, j, line, dashes, name) matches Some((c, u)) ==> s[u - 1] == NEWLINE,
{
    lemma_block_lines(s, j, line, dashes, name);
}

proof fn lemma_scan_nonempty(s: Seq<u8>, i: int, line: int)
    requires
        0 <= i <= s.len() <= usize::MAX,
        i < s.len() || s[s.len() - 1] == NEWLINE,
        s.len() > 0,
        scan(s, i, line).1.len() == 0,
    ensures
        scan(s, i, line).0.len() > 0,
        scan(s, i, line).0[0].index == i,
{
    if i == s.len() {
        reveal(scan);
    } else {
        lemma_line_end(s, i);
        let e = line_end(s, i);
        let l = s.subrange(i, e);
        match parse_line(l) {
            None => {
                lemma_scan_invalid(s, i, line);
            },
            Some(v) => {
                if v is Block {
                    lemma_scan_block_line(s, i, line);
                } else {
                    lemma_scan_plain(s, i, line);
                }
            },
        }
    }
}

proof fn lemma_join_rest(s: Seq<u8>, n: int, line: int)
    requires
        0 <= n <= s.len() <= usize::MAX,
        scan(s, n, line).1.len() == 0,
        joined(s, scan(s, n, line).0) == s.subrange(n, s.len() as int),
        chained(scan(s, n, line).0),
        n > 0,
        n < s.len() || s[s.len() - 1] == NEWLINE,
    ensures
        scan(s, n, line).0.len() > 0,
        scan(s, n, line).0[0].index == n,
{
    lemma_scan_nonempty(s, n, line);
}

proof fn lemma_block_joined(s: Seq<u8>, i: int, line: int)
    requires
        0 <= i < s.len() <= usize::MAX,
        scan(s, i, line).1.len() == 0,
        parse_line(s.subrange(i, line_end(s, i))) matches Some(v) && v is Block,
    ensures
        ({
            let e = line_end(s, i);
            let l = s.subrange(i, e);
            let v = parse_line(l)->Some_0;
            let dashes = l.subrange(v->Block_block_operator.start as int, v->Block_block_operator.end as int);
            let nm = l.subrange(v->Block_name.start as int, v->Block_name.end as int);
            scan_block(s, e, line + 1, dashes, nm) matches Some((c, t)) && ({
                let te = line_end(s, t);
                let lt = line + 1 + c.len();
                let rest = scan(s, after_line(s, te), lt + 1);
                &&& rest.1.len() == 0
                &&& i < t <= te <= s.len()
                &&& (te == s.len() ==> s[s.len() - 1] != NEWLINE)
                &&& (te < s.len() ==> s[te] == NEWLINE)
                &&& exists|head: Seq<Instruction>| {
                    &&& scan(s, i, line).0 == head + rest.0
                    &&& head.len() > 0
                    &&& joined(s, head) == s.subrange(i, te)
                    &&& chained(head)
                    &&& head[0].index == i
                    &&& #[trigger] head[head.len() - 1].index + head[head.len() - 1].length == te
                }
            })
        }),
{
    lemma_line_end(s, i);
    let e = line_end(s, i);
    let l = s.subrange(i, e);
    let v = parse_line(l)->Some_0;
    lemma_parse_line_within(l);
    lemma_scan_block_line(s, i, line);
    let block_operator = v->Block_block_operator;
    let name = v->Block_name;
    let dashes = l.subrange(block_operator.start as int, block_operator.end as int);
    let nm = l.subrange(name.start as int, name.end as int);
    lemma_scan_block(s, e, line + 1, dashes, nm);
    let ins = crate::tokenizer::instruction(i, line, e - i, v);
    assert(slice_of(s, ins) =~= s.subrange(i, e));
    if let Some((c, t)) = scan_block(s, e, line + 1, dashes, nm) {
        lemma_block_lines(s, e, line + 1, dashes, nm);
        lemma_line_end(s, t);
        let te = line_end(s, t);
        let lt = line + 1 + c.len();
        let tl = s.subrange(t, te);
        lemma_line_bounds(tl);
        assert(te > t);
        if te == s.len() {
            assert(s[s.len() - 1] != NEWLINE);
        }
        let term = crate::tokenizer::instruction(
            t,
            lt,
            te - t,
            terminator_values(tl, dashes.len() as int, nm.len() as int),
        );
        assert(slice_of(s, term) =~= s.subrange(t, te));
        let head = seq![ins] + c + seq![term];
        if c.len() == 0 {
            lemma_joined_concat(s, seq![ins], seq![term]);
            assert(head =~= seq![ins] + seq![term]);
            lemma_chained_concat(seq![ins], seq![term]);
            assert(s.subrange(i, e) + seq![NEWLINE] + s.subrange(t, te) =~= s.subrange(i, te));
        } else {
            lemma_joined_concat(s, seq![ins], c);
            lemma_joined_concat(s, seq![ins] + c, seq![term]);
            lemma_chained_concat(seq![ins], c);
            let ic = seq![ins] + c;
            assert(ic[ic.len() - 1] == c[c.len() - 1]);
            lemma_chained_concat(ic, seq![term]);
            assert(s.subrange(i, e) + seq![NEWLINE] + s.subrange(e + 1, t - 1) + seq![NEWLINE]
                + s.subrange(t, te) =~= s.subrange(i, te));
        }
        assert(joined(s, head) == s.subrange(i, te));
        assert(head[head.len() - 1] == term);
    }
}

/// With no diagnostics, the instructions from line start `i` on join to the
/// rest of the input, and each starts right after the newline of the last.
proof fn lemma_scan_joined(s: Seq<u8>, i: int, line: int)
    requires
        0 <= i <= s.len() <= usize::MAX,
        scan(s, i, line).1.len() == 0,
    ensures
        joined(s, scan(s, i, line).0) == s.subrange(i, s.len() as int),
        chained(scan(s, i, line).0),
    decreases s.len() - i,
{
    let ts = scan(s, i, line).0;
    if i == s.len() {
        reveal(scan);
        if ts.len() > 0 {
            assert(slice_of(s, ts[0]) =~= s.subrange(i, s.len() as int));
        } else {
            assert(s.subrange(i, s.len() as int) =~= Seq::<u8>::empty());
        }
    } else {
        lemma_line_end(s, i);
        let e = line_end(s, i);
        let l = s.subrange(i, e);
        match parse_line(l) {
            None => {
                lemma_scan_invalid(s, i, line);
            },
            Some(v) => {
                if v is Block {
                    lemma_block_joined(s, i, line);
                    lemma_parse_line_within(l);
                    let block_operator = v->Block_block_operator;
                    let name = v->Block_name;
                    let dashes = l.subrange(block_operator.start as int, block_operator.end as int);
                    let nm = l.subrange(name.start as int, name.end as int);
                    lemma_scan_block(s, e, line + 1, dashes, nm);
                    let (c, t) = scan_block(s, e, line + 1, dashes, nm)->Some_0;
                    let te = line_end(s, t);
                    let lt = line + 1 + c.len();
                    let n = after_line(s, te);
                    lemma_line_end(s, t);
                    lemma_scan_joined(s, n, lt + 1);
                    let rest = scan(s, n, lt + 1).0;
                    let head = choose|head: Seq<Instruction>| {
                        &&& ts == head + rest
                        &&& head.len() > 0
                        &&& joined(s, head) == s.subrange(i, te)
                        &&& chained(head)
                        &&& head[0].index == i
                        &&& #[trigger] head[head.len() - 1].index + head[head.len() - 1].length == te
                    };
                    if te < s.len() {
                        lemma_join_rest(s, n, lt + 1);
                    } else {
                        lemma_scan_at_end(s, lt + 1);
                    }
                    lemma_join_step(s, i, te, head, rest);
                } else {
                    lemma_scan_plain(s, i, line);
                    let ins = crate::tokenizer::instruction(i, line, e - i, v);
                    assert(slice_of(s, ins) =~= s.subrange(i, e));
                    let n = after_line(s, e);
                    lemma_scan_joined(s, n, line + 1);
                    let rest = scan(s, n, line + 1).0;
                    if e < s.len() {
                        lemma_join_rest(s, n, line + 1);
                    } else {
                        assert(s[s.len() - 1] != NEWLINE);
                        lemma_scan_at_end(s, line + 1);
                    }
                    assert(ts == seq![ins] + rest);
                    lemma_join_step(s, i, e, seq![ins], rest);
                }
            },
        }
    }
}

/// An input that gives no diagnostics is its instructions' lines joined
/// with newlines; the empty line at the end of an input that ends with a
/// newline gives the last newline back. Each instruction starts right after
/// the newline that ends the one before it.
pub proof fn lemma_round_trip(s: Seq<u8>)
    requires
        s.len() <= usize::MAX,
        scan(s, 0, 0).1.len() == 0,
    ensures
        joined(s, scan(s, 0, 0).0) == s,
        chained(scan(s, 0, 0).0),
{
    lemma_scan_joined(s, 0, 0);
    assert(s.subrange(0, s.len() as int) =~= s);
}

/// Tokenizing again what the instructions of an input join to gives the
/// same instructions and diagnostics, when there were no diagnostics.
pub proof fn lemma_idempotent(s: Seq<u8>)
    requires
        s.len() <= usize::MAX,
        scan(s, 0, 0).1.len() == 0,
    ensures
        scan(joined(s, scan(s, 0, 0).0), 0, 0) == scan(s, 0, 0),
{
    lemma_round_trip(s);
}

/// The bytes of span `x` on the line that starts at `index`.
pub open spec fn span_bytes(s: Seq<u8>, index: usize, x: Span) -> Seq<u8> {
    s.subrange(index + x.start, index + x.end)
}

/// Instruction `c` closes block opener `b`: the same dashes and the same name.
pub open spec fn closes(s: Seq<u8>, b: Instruction, c: Instruction) -> bool {
    match (b.values, c.values) {
        (
            InstructionValues::Block { block_operator: bo, name: bn },
            InstructionValues::BlockTerminator { block_operator: co, name: cn },
        ) => span_bytes(s, b.index, bo) == span_bytes(s, c.index, co) && span_bytes(s, b.index, bn)
            == span_bytes(s, c.index, cn),
        _ => false,
    }
}

/// Every block opener in `ts` is closed by a later instruction, unless `ds`
/// reports an unterminated block.
pub open spec fn blocks_closed(s: Seq<u8>, ts: Seq<Instruction>, ds: Seq<Diagnostic>) -> bool {
    forall|k: int|
        0 <= k < ts.len() && (#[trigger] ts[k]).values is Block ==> (exists|m: int|
            k < m < ts.len() && closes(s, ts[k], #[trigger] ts[m])) || (exists|j: int|
            0 <= j < ds.len() && (#[trigger] ds[j]).key == ErrorKey::UnterminatedBlock)
}

proof fn lemma_contents_not_blocks(s: Seq<u8>, j: int, line: int, dashes: Seq<u8>, name: Seq<u8>)
    ensures
        scan_block(s, j, line, dashes, name) matches Some((c, u)) ==> forall|k: int|
            0 <= k < c.len() ==> (#[trigger] c[k]).values is BlockContent,
    decreases s.len() - j,
{
    if 0 <= j < s.len() {
        let t = j + 1;
        lemma_line_end(s, t);
        let te = line_end(s, t);
        if !is_terminator(s.subrange(t, te), dashes, name) {
            lemma_contents_not_blocks(s, te, line + 1, dashes, name);
            if let Some((c2, u)) = scan_block(s, te, line + 1, dashes, name) {
                let c = seq![content_instruction(t, line, te - t)] + c2;
                assert forall|k: int| 0 <= k < c.len() implies (#[trigger] c[k]).values is BlockContent by {
                    if k > 0 {
                        assert(c[k] == c2[k - 1]);
                    }
                }
            }
        }
    }
}

proof fn lemma_shift_closed(
    s: Seq<u8>,
    head: Seq<Instruction>,
    rest: Seq<Instruction>,
    hd: Seq<Diagnostic>,
    ds: Seq<Diagnostic>,
)
    requires
        blocks_closed(s, rest, ds),
        blocks_closed(s, head, hd),
    ensures
        blocks_closed(s, head + rest, hd + ds),
{
    let ts = head + rest;
    let all = hd + ds;
    assert forall|k: int| 0 <= k < ts.len() && (#[trigger] ts[k]).values is Block implies (exists|m: int|
        k < m < ts.len() && closes(s, ts[k], #[trigger] ts[m])) || (exists|j: int|
        0 <= j < all.len() && (#[trigger] all[j]).key == ErrorKey::UnterminatedBlock) by {
        if k < head.len() {
            assert(ts[k] == head[k]);
            if exists|m: int| k < m < head.len() && closes(s, head[k], #[trigger] head[m]) {
                let m = choose|m: int| k < m < head.len() && closes(s, head[k], #[trigger] head[m]);
                assert(ts[m] == head[m]);
            } else {
                let j = choose|j: int| 0 <= j < hd.len() && (#[trigger] hd[j]).key == ErrorKey::UnterminatedBlock;
                assert(all[j] == hd[j]);
            }
        } else {
            let k2 = k - head.len();
            assert(ts[k] == rest[k2]);
            if exists|m: int| k2 < m < rest.len() && closes(s, rest[k2], #[trigger] rest[m]) {
                let m = choose|m: int| k2 < m < rest.len() && closes(s, rest[k2], #[trigger] rest[m]);
                assert(ts[m + head.len()] == rest[m]);
            } else {
                let j = choose|j: int| 0 <= j < ds.len() && (#[trigger] ds[j]).key == ErrorKey::UnterminatedBlock;
                assert(all[j + hd.len()] == ds[j]);
            }
        }
    }
}

proof fn lemma_scan_blocks_closed(s: Seq<u8>, i: int, line: int)
    requires
        0 <= i,
        s.len() <= usize::MAX,
    ensures
        blocks_closed(s, scan(s, i, line).0, scan(s, i, line).1),
    decreases s.len() - i,
{
    if i >= s.len() {
        reveal(scan);
    } else {
        lemma_line_end(s, i);
        let e = line_end(s, i);
        let l = s.subrange(i, e);
        lemma_parse_line_within(l);
        match parse_line(l) {
            None => {
                lemma_scan_invalid(s, i, line);
                let n = after_line(s, e);
                lemma_scan_blocks_closed(s, n, line + 1);
                let d = scan(s, i, line).1[0];
                lemma_shift_closed(s, seq![], scan(s, n, line + 1).0, seq![d], scan(s, n, line + 1).1);
                assert(seq![] + scan(s, n, line + 1).0 =~= scan(s, i, line).0);
            },
            Some(v) => {
                let ins = crate::tokenizer::instruction(i, line, e - i, v);
                if let InstructionValues::Block { block_operator, name } = v {
                    lemma_scan_block_line(s, i, line);
                    let dashes = l.subrange(block_operator.start as int, block_operator.end as int);
                    let nm = l.subrange(name.start as int, name.end as int);
                    lemma_scan_block(s, e, line + 1, dashes, nm);
                    match scan_block(s, e, line + 1, dashes, nm) {
                        None => {
                            let ds = scan(s, i, line).1;
                            assert(ds[0].key == ErrorKey::UnterminatedBlock);
                        },
                        Some((c, t)) => {
                            lemma_contents_not_blocks(s, e, line + 1, dashes, nm);
                            lemma_line_end(s, t);
                            let te = line_end(s, t);
                            let lt = line + 1 + c.len();
                            let tl = s.subrange(t, te);
                            let tv = terminator_values(tl, dashes.len() as int, nm.len() as int);
                            let term = crate::tokenizer::instruction(t, lt, te - t, tv);
                            let head = seq![ins] + c + seq![term];
                            lemma_line_bounds(tl);
                            let a = skip_blanks(tl, 0);
                            let q = skip_blanks(tl, a + dashes.len());
                            assert(span_bytes(s, ins.index, block_operator) =~= dashes);
                            assert(span_bytes(s, ins.index, name) =~= nm);
                            let to = tv->BlockTerminator_block_operator;
                            let tn = tv->BlockTerminator_name;
                            assert(span_bytes(s, term.index, to) =~= tl.subrange(a, a + dashes.len()));
                            assert(span_bytes(s, term.index, tn) =~= tl.subrange(q, q + nm.len()));
                            assert(closes(s, head[0], head[head.len() - 1]));
                            assert(blocks_closed(s, head, seq![])) by {
                                assert forall|k: int| 0 <= k < head.len() && (#[trigger] head[k]).values is Block implies (exists|m: int|
                                    k < m < head.len() && closes(s, head[k], #[trigger] head[m])) by {
                                    if k == 0 {
                                        assert(closes(s, head[0], head[head.len() - 1]));
                                    } else if k <= c.len() {
                                        assert(head[k] == c[k - 1]);
                                    }
                                }
                            }
                            let n = after_line(s, te);
                            lemma_scan_blocks_closed(s, n, lt + 1);
                            lemma_shift_closed(s, head, scan(s, n, lt + 1).0, seq![], scan(s, n, lt + 1).1);
                            assert(seq![] + scan(s, n, lt + 1).1 =~= scan(s, i, line).1);
                        },
                    }
                } else {
                    lemma_scan_plain(s, i, line);
                    let n = after_line(s, e);
                    lemma_scan_blocks_closed(s, n, line + 1);
                    lemma_shift_closed(s, seq![ins], scan(s, n, line + 1).0, seq![], scan(s, n, line + 1).1);
                    assert(seq![] + scan(s, n, line + 1).1 =~= scan(s, i, line).1);
                }
            },
        }
    }
}

/// Every block opener is followed by a terminator with the same dashes and
/// the same name, unless an unterminated block is reported.
pub proof fn lemma_blocks_closed(s: Seq<u8>)
    requires
        s.len() <= usize::MAX,
    ensures
        blocks_closed(s, scan(s, 0, 0).0, scan(s, 0, 0).1),
{
    lemma_scan_blocks_closed(s, 0, 0);
}

} // verus!
