//! The grammar of a single line.
//!
//! A line is read as bytes, without its terminating newline. Blanks are the
//! ASCII whitespace bytes other than the newline. Leading and trailing blanks
//! never belong to a part of the line.
use vstd::prelude::*;
use crate::tokenizer::{
    copy_within, name_within, opt_within, span, values_within, CopyRanges, EscapeRanges,
    InstructionValues, NameOperator, NameRanges, Span,
};

verus! {

pub const NEWLINE: u8 = 0x0A;

pub const PIPE: u8 = 0x7C;

pub const BACKSLASH: u8 = 0x5C;

pub const GREATER: u8 = 0x3E;

pub const DASH: u8 = 0x2D;

pub const HASH: u8 = 0x23;

pub const BACKTICK: u8 = 0x60;

pub const COLON: u8 = 0x3A;

pub const EQUALS: u8 = 0x3D;

pub const LESS: u8 = 0x3C;

/// Space, tab, vertical tab, form feed and carriage return.
pub open spec fn is_blank(b: u8) -> bool {
    b == 0x20 || b == 0x09 || b == 0x0B || b == 0x0C || b == 0x0D
}

/// The bytes that end an unescaped name: `:`, `=` and `<`.
pub open spec fn is_name_operator(b: u8) -> bool {
    b == COLON || b == EQUALS || b == LESS
}

/// The first position at or after `p` that holds no blank (or the line's end).
pub open spec fn skip_blanks(l: Seq<u8>, p: int) -> int
    decreases l.len() - p,
{
    if p < 0 || p >= l.len() || !is_blank(l[p]) {
        p
    } else {
        skip_blanks(l, p + 1)
    }
}

/// The end of the run of byte `c` that starts at `p`.
pub open spec fn run_end(l: Seq<u8>, p: int, c: u8) -> int
    decreases l.len() - p,
{
    if p < 0 || p >= l.len() || l[p] != c {
        p
    } else {
        run_end(l, p + 1, c)
    }
}

/// `e` moved back over the blanks that precede it, but not before `p`.
pub open spec fn trim_end(l: Seq<u8>, p: int, e: int) -> int
    decreases e - p,
{
    if e <= p || e > l.len() || !is_blank(l[e - 1]) {
        e
    } else {
        trim_end(l, p, e - 1)
    }
}

/// The first position at or after `p` that holds byte `c` (or the line's end).
pub open spec fn next_byte(l: Seq<u8>, p: int, c: u8) -> int
    decreases l.len() - p,
{
    if p < 0 || p >= l.len() || l[p] == c {
        p
    } else {
        next_byte(l, p + 1, c)
    }
}

/// The first position at or after `p` that holds a name operator (or the line's end).
pub open spec fn next_name_operator(l: Seq<u8>, p: int) -> int
    decreases l.len() - p,
{
    if p < 0 || p >= l.len() || is_name_operator(l[p]) {
        p
    } else {
        next_name_operator(l, p + 1)
    }
}

/// `n` backticks stand at `c`.
pub open spec fn ticks_at(l: Seq<u8>, c: int, n: int) -> bool {
    0 <= c && c + n <= l.len() && forall|k: int| c <= k < c + n ==> l[k] == BACKTICK
}

/// The first position at or after `p` where `n` backticks stand; a position
/// where they do not fit when there is none.
pub open spec fn next_ticks(l: Seq<u8>, p: int, n: int) -> int
    decreases l.len() - p,
{
    if p < 0 || n <= 0 || p + n > l.len() || ticks_at(l, p, n) {
        p
    } else {
        next_ticks(l, p + 1, n)
    }
}

/// An optional value that starts after the blanks at `p` and runs to the
/// last non-blank byte of the line.
pub open spec fn opt_value(l: Seq<u8>, p: int) -> Option<Span> {
    let q = skip_blanks(l, p);
    if q < l.len() {
        Some(span(q, trim_end(l, q, l.len() as int)))
    } else {
        None
    }
}

/// A copy directive whose operator starts at `k` (where `<` stands). The
/// template is required.
pub open spec fn copy_at(l: Seq<u8>, k: int) -> Option<CopyRanges> {
    let deep = k + 1 < l.len() && l[k + 1] == LESS;
    let oe = if deep {
        k + 2
    } else {
        k + 1
    };
    let t = skip_blanks(l, oe);
    if t < l.len() {
        Some(
            CopyRanges {
                deep,
                operator: span(k, oe),
                template: span(t, trim_end(l, t, l.len() as int)),
            },
        )
    } else {
        None
    }
}

/// An escaped name opened by the run of backticks at `p`: after optional
/// blanks the name starts with a non-blank byte and is closed by the first
/// later run of as many backticks. Gives the name and the position after
/// the closing run.
pub open spec fn escaped_name(l: Seq<u8>, p: int) -> Option<(NameRanges, int)> {
    let r = run_end(l, p, BACKTICK);
    let n = r - p;
    let t = skip_blanks(l, r);
    if t >= l.len() {
        None
    } else {
        let c = next_ticks(l, t + 1, n);
        if ticks_at(l, c, n) {
            Some(
                (
                    NameRanges {
                        name: span(t, trim_end(l, t, c)),
                        escape: Some(EscapeRanges { begin: span(p, r), end: span(c, c + n) }),
                    },
                    c + n,
                ),
            )
        } else {
            None
        }
    }
}

/// What may follow a section name at `k`: the end of the line, or a copy
/// directive. `None` when neither stands there.
pub open spec fn section_tail(l: Seq<u8>, k: int) -> Option<Option<CopyRanges>> {
    if k >= l.len() {
        Some(None)
    } else if l[k] == LESS {
        match copy_at(l, k) {
            Some(cp) => Some(Some(cp)),
            None => None,
        }
    } else {
        None
    }
}

/// A section line whose hashes start at `a`.
pub open spec fn section_line(l: Seq<u8>, a: int) -> Option<InstructionValues> {
    let h = run_end(l, a, HASH);
    let q = skip_blanks(l, h);
    if q >= l.len() || l[q] == LESS {
        None
    } else {
        let parts: Option<(NameRanges, int)> = if l[q] == BACKTICK {
            match escaped_name(l, q) {
                Some((nm, u)) => Some((nm, skip_blanks(l, u))),
                None => None,
            }
        } else {
            let k = next_byte(l, q, LESS);
            Some((NameRanges { name: span(q, trim_end(l, q, k)), escape: None }, k))
        };
        match parts {
            Some((nm, k)) => match section_tail(l, k) {
                Some(copy) => Some(
                    InstructionValues::Section { section_operator: span(a, h), name: nm, copy },
                ),
                None => None,
            },
            None => None,
        }
    }
}

/// A block opener whose dashes (at least two) start at `a`. When only
/// dashes stand on the line, the last of three or more is the name.
pub open spec fn block_line(l: Seq<u8>, a: int) -> Option<InstructionValues> {
    let d = run_end(l, a, DASH);
    let q = skip_blanks(l, d);
    if q < l.len() {
        Some(
            InstructionValues::Block {
                block_operator: span(a, d),
                name: span(q, trim_end(l, q, l.len() as int)),
            },
        )
    } else if d - a >= 3 {
        Some(InstructionValues::Block { block_operator: span(a, d - 1), name: span(d - 1, d) })
    } else {
        None
    }
}

/// What a name becomes through the operator at `k`.
pub open spec fn name_tail(l: Seq<u8>, nm: NameRanges, k: int) -> Option<InstructionValues> {
    if l[k] == COLON {
        match opt_value(l, k + 1) {
            Some(v) => Some(
                InstructionValues::Field { name: nm, name_operator: span(k, k + 1), value: v },
            ),
            None => Some(
                InstructionValues::Name { name: nm, operator: NameOperator::Plain(span(k, k + 1)) },
            ),
        }
    } else if l[k] == EQUALS {
        Some(
            InstructionValues::FieldsetEntry {
                name: nm,
                entry_operator: span(k, k + 1),
                value: opt_value(l, k + 1),
            },
        )
    } else {
        match copy_at(l, k) {
            Some(cp) => Some(InstructionValues::Name { name: nm, operator: NameOperator::Template(cp) }),
            None => None,
        }
    }
}

/// A line that starts with a name at `a`: a field, a bare name, a fieldset
/// entry or a copy.
pub open spec fn name_line(l: Seq<u8>, a: int) -> Option<InstructionValues> {
    if l[a] == BACKTICK {
        match escaped_name(l, a) {
            Some((nm, u)) => {
                let v = skip_blanks(l, u);
                if v < l.len() && is_name_operator(l[v]) {
                    name_tail(l, nm, v)
                } else {
                    None
                }
            },
            None => None,
        }
    } else if is_name_operator(l[a]) {
        None
    } else {
        let k = next_name_operator(l, a);
        if k >= l.len() {
            None
        } else {
            name_tail(l, NameRanges { name: span(a, trim_end(l, a, k)), escape: None }, k)
        }
    }
}

/// The shape of a line (without its newline), or `None` when it follows no
/// shape of the notation. The first non-blank byte decides: `|` and `\`
/// continue a value, `>` comments, `-` lists an item, two or more dashes
/// open a block, `#` starts a section; anything else starts a name.
#[verifier::opaque]
pub open spec fn parse_line(l: Seq<u8>) -> Option<InstructionValues> {
    let a = skip_blanks(l, 0);
    if a >= l.len() {
        Some(InstructionValues::EmptyLine)
    } else if l[a] == PIPE || l[a] == BACKSLASH {
        Some(
            InstructionValues::Continuation {
                newline: l[a] == PIPE,
                operator: span(a, a + 1),
                value: opt_value(l, a + 1),
            },
        )
    } else if l[a] == GREATER {
        Some(
            InstructionValues::Comment {
                comment_operator: span(a, a + 1),
                comment: opt_value(l, a + 1),
            },
        )
    } else if l[a] == DASH {
        if a + 1 < l.len() && l[a + 1] == DASH {
            block_line(l, a)
        } else {
            Some(
                InstructionValues::ListItem { item_operator: span(a, a + 1), value: opt_value(l, a + 1) },
            )
        }
    } else if l[a] == HASH {
        section_line(l, a)
    } else {
        name_line(l, a)
    }
}

/// The line opens an escaped name that is never closed: after blanks a run
/// of backticks, then at least one byte, and nowhere after the run as many
/// backticks again.
pub open spec fn is_unterminated_escape(l: Seq<u8>) -> bool {
    let a = skip_blanks(l, 0);
    let r = run_end(l, a, BACKTICK);
    &&& a < l.len()
    &&& l[a] == BACKTICK
    &&& r < l.len()
    &&& !ticks_at(l, next_ticks(l, r, r - a), r - a)
}

proof fn lemma_skip_blanks(l: Seq<u8>, p: int)
    requires
        0 <= p <= l.len(),
    ensures
        p <= skip_blanks(l, p) <= l.len(),
    decreases l.len() - p,
{
    if p < l.len() && is_blank(l[p]) {
        lemma_skip_blanks(l, p + 1);
    }
}

proof fn lemma_run_end(l: Seq<u8>, p: int, c: u8)
    requires
        0 <= p <= l.len(),
    ensures
        p <= run_end(l, p, c) <= l.len(),
    decreases l.len() - p,
{
    if p < l.len() && l[p] == c {
        lemma_run_end(l, p + 1, c);
    }
}

proof fn lemma_trim_end(l: Seq<u8>, p: int, e: int)
    requires
        0 <= p <= e <= l.len(),
    ensures
        p <= trim_end(l, p, e) <= e,
    decreases e - p,
{
    if e > p && is_blank(l[e - 1]) {
        lemma_trim_end(l, p, e - 1);
    }
}

proof fn lemma_next_byte(l: Seq<u8>, p: int, c: u8)
    requires
        0 <= p <= l.len(),
    ensures
        p <= next_byte(l, p, c) <= l.len(),
    decreases l.len() - p,
{
    if p < l.len() && l[p] != c {
        lemma_next_byte(l, p + 1, c);
    }
}

proof fn lemma_next_name_operator(l: Seq<u8>, p: int)
    requires
        0 <= p <= l.len(),
    ensures
        p <= next_name_operator(l, p) <= l.len(),
    decreases l.len() - p,
{
    if p < l.len() && !is_name_operator(l[p]) {
        lemma_next_name_operator(l, p + 1);
    }
}

proof fn lemma_next_ticks(l: Seq<u8>, p: int, n: int)
    requires
        0 <= p <= l.len(),
    ensures
        p <= next_ticks(l, p, n),
    decreases l.len() - p,
{
    if n > 0 && p + n <= l.len() && !ticks_at(l, p, n) {
        lemma_next_ticks(l, p + 1, n);
    }
}

/// The positions that the scanning functions give stay on the line.
pub proof fn lemma_line_bounds(l: Seq<u8>)
    ensures
        forall|p: int| 0 <= p <= l.len() ==> p <= #[trigger] skip_blanks(l, p) <= l.len(),
        forall|p: int, c: u8| 0 <= p <= l.len() ==> p <= #[trigger] run_end(l, p, c) <= l.len(),
        forall|p: int, e: int| 0 <= p <= e <= l.len() ==> p <= #[trigger] trim_end(l, p, e) <= e,
        forall|p: int, c: u8| 0 <= p <= l.len() ==> p <= #[trigger] next_byte(l, p, c) <= l.len(),
        forall|p: int| 0 <= p <= l.len() ==> p <= #[trigger] next_name_operator(l, p) <= l.len(),
        forall|p: int, n: int| 0 <= p <= l.len() ==> p <= #[trigger] next_ticks(l, p, n),
{
    assert forall|p: int| 0 <= p <= l.len() implies p <= #[trigger] skip_blanks(l, p) <= l.len() by {
        lemma_skip_blanks(l, p);
    }
    assert forall|p: int, c: u8| 0 <= p <= l.len() implies p <= #[trigger] run_end(l, p, c) <= l.len() by {
        lemma_run_end(l, p, c);
    }
    assert forall|p: int, e: int| 0 <= p <= e <= l.len() implies p <= #[trigger] trim_end(l, p, e) <= e by {
        lemma_trim_end(l, p, e);
    }
    assert forall|p: int, c: u8| 0 <= p <= l.len() implies p <= #[trigger] next_byte(l, p, c) <= l.len() by {
        lemma_next_byte(l, p, c);
    }
    assert forall|p: int| 0 <= p <= l.len() implies p <= #[trigger] next_name_operator(l, p) <= l.len() by {
        lemma_next_name_operator(l, p);
    }
    assert forall|p: int, n: int| 0 <= p <= l.len() implies p <= #[trigger] next_ticks(l, p, n) by {
        lemma_next_ticks(l, p, n);
    }
}

proof fn lemma_opt_value_within(l: Seq<u8>, p: int)
    requires
        0 <= p <= l.len() <= usize::MAX,
    ensures
        opt_within(opt_value(l, p), l.len() as int),
{
    lemma_line_bounds(l);
}

proof fn lemma_copy_within(l: Seq<u8>, k: int)
    requires
        0 <= k < l.len() <= usize::MAX,
    ensures
        copy_at(l, k) matches Some(cp) ==> copy_within(cp, l.len() as int),
{
    lemma_line_bounds(l);
}

proof fn lemma_escaped_within(l: Seq<u8>, p: int)
    requires
        0 <= p < l.len() <= usize::MAX,
        l[p] == BACKTICK,
    ensures
        escaped_name(l, p) matches Some((nm, u)) ==> name_within(nm, l.len() as int) && p < u <= l.len(),
{
    lemma_line_bounds(l);
    assert(run_end(l, p, BACKTICK) == run_end(l, p + 1, BACKTICK));
}

proof fn lemma_section_within(l: Seq<u8>, a: int)
    requires
        0 <= a < l.len() <= usize::MAX,
    ensures
        section_line(l, a) matches Some(v) ==> values_within(v, l.len() as int),
{
    lemma_line_bounds(l);
    let h = run_end(l, a, HASH);
    let q = skip_blanks(l, h);
    if q < l.len() {
        if l[q] == BACKTICK {
            lemma_escaped_within(l, q);
        }
        let parts: Option<(NameRanges, int)> = if l[q] == BACKTICK {
            match escaped_name(l, q) {
                Some((nm, u)) => Some((nm, skip_blanks(l, u))),
                None => None,
            }
        } else {
            let k = next_byte(l, q, LESS);
            Some((NameRanges { name: span(q, trim_end(l, q, k)), escape: None }, k))
        };
        if let Some((nm, k)) = parts {
            if k < l.len() {
                lemma_copy_within(l, k);
            }
        }
    }
}

proof fn lemma_name_tail_within(l: Seq<u8>, nm: NameRanges, k: int)
    requires
        0 <= k < l.len() <= usize::MAX,
        name_within(nm, l.len() as int),
    ensures
        name_tail(l, nm, k) matches Some(v) ==> values_within(v, l.len() as int),
{
    lemma_opt_value_within(l, k + 1);
    lemma_copy_within(l, k);
}

proof fn lemma_name_line_within(l: Seq<u8>, a: int)
    requires
        0 <= a < l.len() <= usize::MAX,
    ensures
        name_line(l, a) matches Some(v) ==> values_within(v, l.len() as int),
{
    lemma_line_bounds(l);
    if l[a] == BACKTICK {
        lemma_escaped_within(l, a);
        if let Some((nm, u)) = escaped_name(l, a) {
            let v = skip_blanks(l, u);
            if v < l.len() {
                lemma_name_tail_within(l, nm, v);
            }
        }
    } else {
        let k = next_name_operator(l, a);
        if k < l.len() {
            lemma_name_tail_within(l, NameRanges { name: span(a, trim_end(l, a, k)), escape: None }, k);
        }
    }
}

/// The spans of a line's shape lie within the line.
pub proof fn lemma_parse_line_within(l: Seq<u8>)
    requires
        l.len() <= usize::MAX,
    ensures
        parse_line(l) matches Some(v) ==> values_within(v, l.len() as int),
        l.len() == 0 ==> parse_line(l) == Some(InstructionValues::EmptyLine),
        parse_line(l) matches Some(InstructionValues::Block { block_operator, .. }) ==> block_operator.start
            < block_operator.end,
{
    reveal(parse_line);
    lemma_line_bounds(l);
    let a = skip_blanks(l, 0);
    if a < l.len() {
        lemma_opt_value_within(l, a + 1);
        if l[a] == HASH {
            lemma_section_within(l, a);
        } else if l[a] == DASH {
            assert(run_end(l, a, DASH) == run_end(l, a + 1, DASH));
            if a + 1 < l.len() && l[a + 1] == DASH {
                assert(run_end(l, a + 1, DASH) == run_end(l, a + 2, DASH));
            }
        } else {
            lemma_name_line_within(l, a);
        }
    }
}

pub proof fn lemma_run_end_bytes(l: Seq<u8>, p: int, c: u8)
    requires
        0 <= p <= l.len(),
    ensures
        forall|k: int| p <= k < run_end(l, p, c) ==> l[k] == c,
        run_end(l, p, c) < l.len() ==> l[run_end(l, p, c)] != c,
    decreases l.len() - p,
{
    if p < l.len() && l[p] == c {
        lemma_run_end_bytes(l, p + 1, c);
    }
}

/// A section's operator is the run of `#` that starts the line, so its
/// depth is the number of leading hashes.
pub proof fn lemma_section_depth(l: Seq<u8>)
    requires
        l.len() <= usize::MAX,
    ensures
        parse_line(l) matches Some(InstructionValues::Section { section_operator: so, .. }) ==> {
            &&& so.start == skip_blanks(l, 0)
            &&& so.start < so.end < l.len()
            &&& forall|k: int| so.start <= k < so.end ==> l[k] == HASH
            &&& l[so.end as int] != HASH
        },
{
    reveal(parse_line);
    lemma_line_bounds(l);
    let a = skip_blanks(l, 0);
    if a < l.len() && l[a] == HASH {
        lemma_run_end_bytes(l, a, HASH);
        assert(run_end(l, a, HASH) == run_end(l, a + 1, HASH));
    }
}

fn is_blank_byte(b: u8) -> (r: bool)
    ensures
        r == is_blank(b),
{
    b == 0x20 || b == 0x09 || b == 0x0B || b == 0x0C || b == 0x0D
}

pub(crate) fn skip_blanks_from(l: &[u8], p: usize) -> (r: usize)
    requires
        p <= l@.len(),
    ensures
        r as int == skip_blanks(l@, p as int),
        p <= r <= l@.len(),
{
    let mut q = p;
    while q < l.len() && is_blank_byte(l[q])
        invariant
            p <= q <= l@.len(),
            skip_blanks(l@, p as int) == skip_blanks(l@, q as int),
        decreases l@.len() - q,
    {
        q = q + 1;
    }
    q
}

fn run_end_from(l: &[u8], p: usize, c: u8) -> (r: usize)
    requires
        p <= l@.len(),
    ensures
        r as int == run_end(l@, p as int, c),
        p <= r <= l@.len(),
{
    let mut q = p;
    while q < l.len() && l[q] == c
        invariant
            p <= q <= l@.len(),
            run_end(l@, p as int, c) == run_end(l@, q as int, c),
        decreases l@.len() - q,
    {
        q = q + 1;
    }
    q
}

fn trim_end_to(l: &[u8], p: usize, e: usize) -> (r: usize)
    requires
        p <= e <= l@.len(),
    ensures
        r as int == trim_end(l@, p as int, e as int),
        p <= r <= e,
{
    let mut b = e;
    while b > p && is_blank_byte(l[b - 1])
        invariant
            p <= b <= e <= l@.len(),
            trim_end(l@, p as int, e as int) == trim_end(l@, p as int, b as int),
        decreases b,
    {
        b = b - 1;
    }
    b
}

fn next_byte_from(l: &[u8], p: usize, c: u8) -> (r: usize)
    requires
        p <= l@.len(),
    ensures
        r as int == next_byte(l@, p as int, c),
        p <= r <= l@.len(),
{
    let mut q = p;
    while q < l.len() && l[q] != c
        invariant
            p <= q <= l@.len(),
            next_byte(l@, p as int, c) == next_byte(l@, q as int, c),
        decreases l@.len() - q,
    {
        q = q + 1;
    }
    q
}

fn is_name_operator_byte(b: u8) -> (r: bool)
    ensures
        r == is_name_operator(b),
{
    b == COLON || b == EQUALS || b == LESS
}

fn next_name_operator_from(l: &[u8], p: usize) -> (r: usize)
    requires
        p <= l@.len(),
    ensures
        r as int == next_name_operator(l@, p as int),
        p <= r <= l@.len(),
{
    let mut q = p;
    while q < l.len() && !is_name_operator_byte(l[q])
        invariant
            p <= q <= l@.len(),
            next_name_operator(l@, p as int) == next_name_operator(l@, q as int),
        decreases l@.len() - q,
    {
        q = q + 1;
    }
    q
}

fn ticks_at_pos(l: &[u8], c: usize, n: usize) -> (r: bool)
    requires
        c <= l@.len(),
    ensures
        r == ticks_at(l@, c as int, n as int),
{
    if n > l.len() - c {
        return false;
    }
    let stop = c + n;
    let mut k = c;
    while k < stop
        invariant
            stop == c + n,
            c <= k <= c + n <= l@.len(),
            forall|j: int| c <= j < k ==> l@[j] == BACKTICK,
        decreases stop - k,
    {
        if l[k] != BACKTICK {
            return false;
        }
        k = k + 1;
    }
    true
}

fn next_ticks_from(l: &[u8], p: usize, n: usize) -> (r: usize)
    requires
        p <= l@.len(),
        n > 0,
    ensures
        r as int == next_ticks(l@, p as int, n as int),
        p <= r <= l@.len(),
{
    let mut q = p;
    while n <= l.len() - q && !ticks_at_pos(l, q, n)
        invariant
            p <= q <= l@.len(),
            next_ticks(l@, p as int, n as int) == next_ticks(l@, q as int, n as int),
        decreases l@.len() - q,
    {
        q = q + 1;
    }
    q
}

fn opt_value_from(l: &[u8], p: usize) -> (r: Option<Span>)
    requires
        p <= l@.len(),
    ensures
        r == opt_value(l@, p as int),
{
    let q = skip_blanks_from(l, p);
    if q < l.len() {
        let b = trim_end_to(l, q, l.len());
        Some(Span { start: q, end: b })
    } else {
        None
    }
}

fn copy_from(l: &[u8], k: usize) -> (r: Option<CopyRanges>)
    requires
        k < l@.len(),
    ensures
        r == copy_at(l@, k as int),
{
    let len = l.len();
    let deep = k + 1 < len && l[k + 1] == LESS;
    let oe = if deep {
        k + 2
    } else {
        k + 1
    };
    let t = skip_blanks_from(l, oe);
    if t < l.len() {
        let b = trim_end_to(l, t, l.len());
        Some(CopyRanges { deep, operator: Span { start: k, end: oe }, template: Span { start: t, end: b } })
    } else {
        None
    }
}

fn escaped_name_from(l: &[u8], p: usize) -> (r: Option<(NameRanges, usize)>)
    requires
        p < l@.len(),
        l@[p as int] == BACKTICK,
    ensures
        r matches Some((nm, u)) ==> escaped_name(l@, p as int) == Some((nm, u as int)) && u <= l@.len(),
        r is None ==> escaped_name(l@, p as int) is None,
{
    proof {
        assert(l@.len() == l.len());
    }
    let r = run_end_from(l, p + 1, BACKTICK);
    let n = r - p;
    let t = skip_blanks_from(l, r);
    if t >= l.len() {
        None
    } else {
        let c = next_ticks_from(l, t + 1, n);
        if ticks_at_pos(l, c, n) {
            let b = trim_end_to(l, t, c);
            let nm = NameRanges {
                name: Span { start: t, end: b },
                escape: Some(
                    EscapeRanges { begin: Span { start: p, end: r }, end: Span { start: c, end: c + n } },
                ),
            };
            Some((nm, c + n))
        } else {
            None
        }
    }
}

fn section_tail_at(l: &[u8], k: usize) -> (r: Option<Option<CopyRanges>>)
    requires
        k <= l@.len(),
    ensures
        r == section_tail(l@, k as int),
{
    if k >= l.len() {
        Some(None)
    } else if l[k] == LESS {
        match copy_from(l, k) {
            Some(cp) => Some(Some(cp)),
            None => None,
        }
    } else {
        None
    }
}

fn section_from(l: &[u8], a: usize) -> (r: Option<InstructionValues>)
    requires
        a < l@.len(),
    ensures
        r == section_line(l@, a as int),
{
    let h = run_end_from(l, a, HASH);
    let q = skip_blanks_from(l, h);
    if q >= l.len() || l[q] == LESS {
        return None;
    }
    let parts: Option<(NameRanges, usize)> = if l[q] == BACKTICK {
        match escaped_name_from(l, q) {
            Some((nm, u)) => Some((nm, skip_blanks_from(l, u))),
            None => None,
        }
    } else {
        let k = next_byte_from(l, q, LESS);
        let b = trim_end_to(l, q, k);
        Some((NameRanges { name: Span { start: q, end: b }, escape: None }, k))
    };
    match parts {
        Some((nm, k)) => match section_tail_at(l, k) {
            Some(copy) => Some(
                InstructionValues::Section { section_operator: Span { start: a, end: h }, name: nm, copy },
            ),
            None => None,
        },
        None => None,
    }
}

fn block_from(l: &[u8], a: usize) -> (r: Option<InstructionValues>)
    requires
        a < l@.len(),
    ensures
        r == block_line(l@, a as int),
{
    let d = run_end_from(l, a, DASH);
    let q = skip_blanks_from(l, d);
    if q < l.len() {
        let b = trim_end_to(l, q, l.len());
        Some(
            InstructionValues::Block {
                block_operator: Span { start: a, end: d },
                name: Span { start: q, end: b },
            },
        )
    } else if d - a >= 3 {
        Some(
            InstructionValues::Block {
                block_operator: Span { start: a, end: d - 1 },
                name: Span { start: d - 1, end: d },
            },
        )
    } else {
        None
    }
}

fn name_tail_at(l: &[u8], nm: NameRanges, k: usize) -> (r: Option<InstructionValues>)
    requires
        k < l@.len(),
    ensures
        r == name_tail(l@, nm, k as int),
{
    proof {
        assert(l@.len() == l.len());
    }
    let op = Span { start: k, end: k + 1 };
    if l[k] == COLON {
        match opt_value_from(l, k + 1) {
            Some(v) => Some(InstructionValues::Field { name: nm, name_operator: op, value: v }),
            None => Some(InstructionValues::Name { name: nm, operator: NameOperator::Plain(op) }),
        }
    } else if l[k] == EQUALS {
        Some(InstructionValues::FieldsetEntry { name: nm, entry_operator: op, value: opt_value_from(l, k + 1) })
    } else {
        match copy_from(l, k) {
            Some(cp) => Some(InstructionValues::Name { name: nm, operator: NameOperator::Template(cp) }),
            None => None,
        }
    }
}

fn name_from(l: &[u8], a: usize) -> (r: Option<InstructionValues>)
    requires
        a < l@.len(),
    ensures
        r == name_line(l@, a as int),
{
    if l[a] == BACKTICK {
        match escaped_name_from(l, a) {
            Some((nm, u)) => {
                let v = skip_blanks_from(l, u);
                if v < l.len() && is_name_operator_byte(l[v]) {
                    name_tail_at(l, nm, v)
                } else {
                    None
                }
            },
            None => None,
        }
    } else if is_name_operator_byte(l[a]) {
        None
    } else {
        let k = next_name_operator_from(l, a);
        if k >= l.len() {
            None
        } else {
            let b = trim_end_to(l, a, k);
            name_tail_at(l, NameRanges { name: Span { start: a, end: b }, escape: None }, k)
        }
    }
}

/// The grammar of the notation's lines. It holds no state: every line is
/// read on its own.
pub struct GrammarRegex {}

impl GrammarRegex {
    /// The grammar, ready to read lines.
    pub fn initialize() -> (r: GrammarRegex) {
        GrammarRegex {  }
    }

    /// The shape of line `l` (given without its newline), or `None` when the
    /// line follows no shape of the notation.
    pub fn match_line(&self, l: &[u8]) -> (r: Option<InstructionValues>)
        ensures
            r == parse_line(l@),
    {
        reveal(parse_line);
        let a = skip_blanks_from(l, 0);
        let len = l.len();
        if a >= len {
            return Some(InstructionValues::EmptyLine);
        }
        let c = l[a];
        let value_start = a + 1;
        let op = Span { start: a, end: a + 1 };
        if c == PIPE || c == BACKSLASH {
            let value = opt_value_from(l, value_start);
            Some(InstructionValues::Continuation { newline: c == PIPE, operator: op, value })
        } else if c == GREATER {
            let comment = opt_value_from(l, value_start);
            Some(InstructionValues::Comment { comment_operator: op, comment })
        } else if c == DASH {
            if a + 1 < len && l[a + 1] == DASH {
                block_from(l, a)
            } else {
                Some(InstructionValues::ListItem { item_operator: op, value: opt_value_from(l, value_start) })
            }
        } else if c == HASH {
            section_from(l, a)
        } else {
            name_from(l, a)
        }
    }

    /// Whether line `l` opens an escaped name that it never closes.
    pub fn unterminated_escape(&self, l: &[u8]) -> (r: bool)
        ensures
            r == is_unterminated_escape(l@),
    {
        let a = skip_blanks_from(l, 0);
        if a >= l.len() || l[a] != BACKTICK {
            return false;
        }
        let r = run_end_from(l, a + 1, BACKTICK);
        if r >= l.len() {
            return false;
        }
        let c = next_ticks_from(l, r, r - a);
        !ticks_at_pos(l, c, r - a)
    }
}

} // verus!
