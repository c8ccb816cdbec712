//! Instruction records and the scanner that produces them.
use vstd::prelude::*;
use vstd::string::StringSliceAdditionalSpecFns;
use vstd::utf8::{decode_utf8, encode_utf8_decode_utf8, encode_utf8_valid_utf8, is_char_boundary};
use crate::boundaries::lemma_boundary_in_suffix;
use crate::messages::{error_message, Messages, Tokenization};
use crate::grammar_regex::{
    is_unterminated_escape, lemma_parse_line_within, parse_line,
    skip_blanks, skip_blanks_from, GrammarRegex, NEWLINE,
};

verus! {

/// A half-open byte interval `[start, end)`, measured from the start of a line.
#[derive(Clone, Copy, Debug, PartialEq, Eq)]
pub struct Span {
    pub start: usize,
    pub end: usize,
}

/// The backtick runs that open and close an escaped name.
#[derive(Clone, Copy, Debug, PartialEq, Eq)]
pub struct EscapeRanges {
    pub begin: Span,
    pub end: Span,
}

/// Where a name stands on its line, and its escape delimiters if it is escaped.
#[derive(Clone, Copy, Debug, PartialEq, Eq)]
pub struct NameRanges {
    pub name: Span,
    pub escape: Option<EscapeRanges>,
}

/// A copy directive: `<` (shallow) or `<<` (deep), followed by a template name.
#[derive(Clone, Copy, Debug, PartialEq, Eq)]
pub struct CopyRanges {
    pub deep: bool,
    pub operator: Span,
    pub template: Span,
}

/// What follows a name that carries no value: a bare `:` or a copy directive.
#[derive(Clone, Copy, Debug, PartialEq, Eq)]
pub enum NameOperator {
    Plain(Span),
    Template(CopyRanges),
}

/// The shape of one line and the spans of its parts.
#[derive(Clone, Copy, Debug, PartialEq, Eq)]
#[allow(inconsistent_fields)]
pub enum InstructionValues {
    EmptyLine,
    Field { name: NameRanges, name_operator: Span, value: Span },
    Name { name: NameRanges, operator: NameOperator },
    ListItem { item_operator: Span, value: Option<Span> },
    FieldsetEntry { name: NameRanges, entry_operator: Span, value: Option<Span> },
    Continuation { newline: bool, operator: Span, value: Option<Span> },
    Section { section_operator: Span, name: NameRanges, copy: Option<CopyRanges> },
    Block { block_operator: Span, name: Span },
    BlockContent { content: Span },
    BlockTerminator { block_operator: Span, name: Span },
    Comment { comment_operator: Span, comment: Option<Span> },
}

/// One role of a line's part and its span. The roles are stable names for
/// tools that work with the instruction stream.
#[derive(Clone, Copy, Debug, PartialEq, Eq)]
pub enum RangesValues {
    Name(Span),
    NameOperator(Span),
    EscapeBeginOperator(Span),
    EscapeEndOperator(Span),
    BlockOperator(Span),
    ItemOperator(Span),
    Value(Span),
    EntryOperator(Span),
    ContinuationOperator(Span),
    Template(Span),
    SectionOperator(Span),
    CopyOperator(Span),
    DeepCopyOperator(Span),
    Comment(Span),
    Content(Span),
    CommentOperator(Span),
}

impl RangesValues {
    pub open spec fn span_of(self) -> Span {
        match self {
            RangesValues::Name(x) => x,
            RangesValues::NameOperator(x) => x,
            RangesValues::EscapeBeginOperator(x) => x,
            RangesValues::EscapeEndOperator(x) => x,
            RangesValues::BlockOperator(x) => x,
            RangesValues::ItemOperator(x) => x,
            RangesValues::Value(x) => x,
            RangesValues::EntryOperator(x) => x,
            RangesValues::ContinuationOperator(x) => x,
            RangesValues::Template(x) => x,
            RangesValues::SectionOperator(x) => x,
            RangesValues::CopyOperator(x) => x,
            RangesValues::DeepCopyOperator(x) => x,
            RangesValues::Comment(x) => x,
            RangesValues::Content(x) => x,
            RangesValues::CommentOperator(x) => x,
        }
    }

    /// The span, whatever the role.
    pub fn span(&self) -> (r: Span)
        ensures
            r == self.span_of(),
    {
        match *self {
            RangesValues::Name(x) => x,
            RangesValues::NameOperator(x) => x,
            RangesValues::EscapeBeginOperator(x) => x,
            RangesValues::EscapeEndOperator(x) => x,
            RangesValues::BlockOperator(x) => x,
            RangesValues::ItemOperator(x) => x,
            RangesValues::Value(x) => x,
            RangesValues::EntryOperator(x) => x,
            RangesValues::ContinuationOperator(x) => x,
            RangesValues::Template(x) => x,
            RangesValues::SectionOperator(x) => x,
            RangesValues::CopyOperator(x) => x,
            RangesValues::DeepCopyOperator(x) => x,
            RangesValues::Comment(x) => x,
            RangesValues::Content(x) => x,
            RangesValues::CommentOperator(x) => x,
        }
    }
}

pub open spec fn opt_ranges(v: Option<Span>, role: spec_fn(Span) -> RangesValues) -> Seq<RangesValues> {
    match v {
        Some(x) => seq![role(x)],
        None => seq![],
    }
}

pub open spec fn name_ranges(nm: NameRanges) -> Seq<RangesValues> {
    seq![RangesValues::Name(nm.name)] + match nm.escape {
        Some(e) => seq![RangesValues::EscapeBeginOperator(e.begin), RangesValues::EscapeEndOperator(e.end)],
        None => seq![],
    }
}

pub open spec fn copy_ranges(cp: CopyRanges) -> Seq<RangesValues> {
    seq![
        if cp.deep {
            RangesValues::DeepCopyOperator(cp.operator)
        } else {
            RangesValues::CopyOperator(cp.operator)
        },
        RangesValues::Template(cp.template),
    ]
}

/// The role-tagged spans of a line's parts: exactly those that the shape has.
pub open spec fn ranges_of(v: InstructionValues) -> Seq<RangesValues> {
    match v {
        InstructionValues::EmptyLine => seq![],
        InstructionValues::Field { name, name_operator, value } => name_ranges(name) + seq![
            RangesValues::NameOperator(name_operator),
            RangesValues::Value(value),
        ],
        InstructionValues::Name { name, operator } => name_ranges(name) + match operator {
            NameOperator::Plain(op) => seq![RangesValues::NameOperator(op)],
            NameOperator::Template(cp) => copy_ranges(cp),
        },
        InstructionValues::ListItem { item_operator, value } => seq![RangesValues::ItemOperator(item_operator)]
            + opt_ranges(value, |x| RangesValues::Value(x)),
        InstructionValues::FieldsetEntry { name, entry_operator, value } => seq![
            RangesValues::EntryOperator(entry_operator),
        ] + name_ranges(name) + opt_ranges(value, |x| RangesValues::Value(x)),
        InstructionValues::Continuation { newline, operator, value } => seq![
            RangesValues::ContinuationOperator(operator),
        ] + opt_ranges(value, |x| RangesValues::Value(x)),
        InstructionValues::Section { section_operator, name, copy } => seq![
            RangesValues::SectionOperator(section_operator),
        ] + name_ranges(name) + match copy {
            Some(cp) => copy_ranges(cp),
            None => seq![],
        },
        InstructionValues::Block { block_operator, name } => seq![
            RangesValues::BlockOperator(block_operator),
            RangesValues::Name(name),
        ],
        InstructionValues::BlockContent { content } => seq![RangesValues::Content(content)],
        InstructionValues::BlockTerminator { block_operator, name } => seq![
            RangesValues::BlockOperator(block_operator),
            RangesValues::Name(name),
        ],
        InstructionValues::Comment { comment_operator, comment } => seq![
            RangesValues::CommentOperator(comment_operator),
        ] + opt_ranges(comment, |x| RangesValues::Comment(x)),
    }
}

pub open spec fn span_within(x: Span, len: int) -> bool {
    x.start <= x.end <= len
}

/// Every range of `v` lies within a line of `len` bytes.
pub open spec fn ranges_within(v: InstructionValues, len: int) -> bool {
    forall|k: int| 0 <= k < ranges_of(v).len() ==> span_within(#[trigger] ranges_of(v)[k].span_of(), len)
}

pub open spec fn name_within(nm: NameRanges, len: int) -> bool {
    &&& span_within(nm.name, len)
    &&& nm.escape matches Some(e) ==> span_within(e.begin, len) && span_within(e.end, len)
}

pub open spec fn copy_within(cp: CopyRanges, len: int) -> bool {
    span_within(cp.operator, len) && span_within(cp.template, len)
}

pub open spec fn opt_within(v: Option<Span>, len: int) -> bool {
    v matches Some(x) ==> span_within(x, len)
}

/// Every span field of `v` lies within a line of `len` bytes.
pub open spec fn values_within(v: InstructionValues, len: int) -> bool {
    match v {
        InstructionValues::EmptyLine => true,
        InstructionValues::Field { name, name_operator, value } => name_within(name, len)
            && span_within(name_operator, len) && span_within(value, len),
        InstructionValues::Name { name, operator } => name_within(name, len) && match operator {
            NameOperator::Plain(op) => span_within(op, len),
            NameOperator::Template(cp) => copy_within(cp, len),
        },
        InstructionValues::ListItem { item_operator, value } => span_within(item_operator, len)
            && opt_within(value, len),
        InstructionValues::FieldsetEntry { name, entry_operator, value } => name_within(name, len)
            && span_within(entry_operator, len) && opt_within(value, len),
        InstructionValues::Continuation { newline, operator, value } => span_within(operator, len)
            && opt_within(value, len),
        InstructionValues::Section { section_operator, name, copy } => span_within(section_operator, len)
            && name_within(name, len) && (copy matches Some(cp) ==> copy_within(cp, len)),
        InstructionValues::Block { block_operator, name } => span_within(block_operator, len)
            && span_within(name, len),
        InstructionValues::BlockContent { content } => span_within(content, len),
        InstructionValues::BlockTerminator { block_operator, name } => span_within(block_operator, len)
            && span_within(name, len),
        InstructionValues::Comment { comment_operator, comment } => span_within(comment_operator, len)
            && opt_within(comment, len),
    }
}

pub proof fn lemma_values_within(v: InstructionValues, len: int)
    requires
        values_within(v, len),
    ensures
        ranges_within(v, len),
{
    let r = ranges_of(v);
    assert forall|k: int| 0 <= k < r.len() implies span_within(#[trigger] r[k].span_of(), len) by {
        match v {
            InstructionValues::Field { name, name_operator, value } => {
                assert(r == name_ranges(name) + seq![
                    RangesValues::NameOperator(name_operator),
                    RangesValues::Value(value),
                ]);
            },
            _ => {},
        }
    }
}

pub open spec fn kind_name_of(v: InstructionValues) -> &'static str {
    match v {
        InstructionValues::EmptyLine => "EMPTY_LINE",
        InstructionValues::Field { .. } => "FIELD",
        InstructionValues::Name { .. } => "NAME",
        InstructionValues::ListItem { .. } => "LIST_ITEM",
        InstructionValues::FieldsetEntry { .. } => "FIELDSET_ENTRY",
        InstructionValues::Continuation { .. } => "CONTINUATION",
        InstructionValues::Section { .. } => "SECTION",
        InstructionValues::Block { .. } => "BLOCK",
        InstructionValues::BlockContent { .. } => "BLOCK_CONTENT",
        InstructionValues::BlockTerminator { .. } => "BLOCK_TERMINATOR",
        InstructionValues::Comment { .. } => "COMMENT",
    }
}

fn push_name_ranges(r: &mut Vec<RangesValues>, nm: NameRanges)
    ensures
        final(r)@ == old(r)@ + name_ranges(nm),
{
    r.push(RangesValues::Name(nm.name));
    match nm.escape {
        Some(e) => {
            r.push(RangesValues::EscapeBeginOperator(e.begin));
            r.push(RangesValues::EscapeEndOperator(e.end));
        },
        None => {},
    }
    proof {
        assert(final(r)@ =~= old(r)@ + name_ranges(nm));
    }
}

fn push_copy_ranges(r: &mut Vec<RangesValues>, cp: CopyRanges)
    ensures
        final(r)@ == old(r)@ + copy_ranges(cp),
{
    if cp.deep {
        r.push(RangesValues::DeepCopyOperator(cp.operator));
    } else {
        r.push(RangesValues::CopyOperator(cp.operator));
    }
    r.push(RangesValues::Template(cp.template));
    proof {
        assert(final(r)@ =~= old(r)@ + copy_ranges(cp));
    }
}

fn push_value(r: &mut Vec<RangesValues>, v: Option<Span>)
    ensures
        final(r)@ == old(r)@ + opt_ranges(v, |x| RangesValues::Value(x)),
{
    if let Some(x) = v {
        r.push(RangesValues::Value(x));
    }
    proof {
        assert(final(r)@ =~= old(r)@ + opt_ranges(v, |x| RangesValues::Value(x)));
    }
}

impl InstructionValues {
    /// The stable name of the instruction's type, such as `FIELD`.
    pub fn kind_name(&self) -> (r: &'static str)
        ensures
            r == kind_name_of(*self),
    {
        match *self {
            InstructionValues::EmptyLine => "EMPTY_LINE",
            InstructionValues::Field { .. } => "FIELD",
            InstructionValues::Name { .. } => "NAME",
            InstructionValues::ListItem { .. } => "LIST_ITEM",
            InstructionValues::FieldsetEntry { .. } => "FIELDSET_ENTRY",
            InstructionValues::Continuation { .. } => "CONTINUATION",
            InstructionValues::Section { .. } => "SECTION",
            InstructionValues::Block { .. } => "BLOCK",
            InstructionValues::BlockContent { .. } => "BLOCK_CONTENT",
            InstructionValues::BlockTerminator { .. } => "BLOCK_TERMINATOR",
            InstructionValues::Comment { .. } => "COMMENT",
        }
    }

    /// The number of hashes of a section.
    pub fn depth(&self) -> (r: Option<usize>)
        ensures
            r == match *self {
                InstructionValues::Section { section_operator, .. } => Some(
                    if section_operator.start <= section_operator.end {
                        (section_operator.end - section_operator.start) as usize
                    } else {
                        0
                    },
                ),
                _ => None,
            },
    {
        match *self {
            InstructionValues::Section { section_operator, .. } => {
                if section_operator.start <= section_operator.end {
                    Some(section_operator.end - section_operator.start)
                } else {
                    Some(0)
                }
            },
            _ => None,
        }
    }

    /// What a continuation puts between the value it continues and its own:
    /// a newline after `|`, a space after `\\`.
    pub fn separator(&self) -> (r: Option<u8>)
        ensures
            r == match *self {
                InstructionValues::Continuation { newline, .. } => Some(
                    if newline {
                        0x0Au8
                    } else {
                        0x20u8
                    },
                ),
                _ => None,
            },
    {
        match *self {
            InstructionValues::Continuation { newline, .. } => Some(
                if newline {
                    0x0A
                } else {
                    0x20
                },
            ),
            _ => None,
        }
    }

    /// The role-tagged spans of the line's parts.
    pub fn ranges(&self) -> (r: Vec<RangesValues>)
        ensures
            r@ == ranges_of(*self),
    {
        let mut r: Vec<RangesValues> = Vec::new();
        match *self {
            InstructionValues::EmptyLine => {},
            InstructionValues::Field { name, name_operator, value } => {
                push_name_ranges(&mut r, name);
                r.push(RangesValues::NameOperator(name_operator));
                r.push(RangesValues::Value(value));
            },
            InstructionValues::Name { name, operator } => {
                push_name_ranges(&mut r, name);
                match operator {
                    NameOperator::Plain(op) => r.push(RangesValues::NameOperator(op)),
                    NameOperator::Template(cp) => push_copy_ranges(&mut r, cp),
                }
            },
            InstructionValues::ListItem { item_operator, value } => {
                r.push(RangesValues::ItemOperator(item_operator));
                push_value(&mut r, value);
            },
            InstructionValues::FieldsetEntry { name, entry_operator, value } => {
                r.push(RangesValues::EntryOperator(entry_operator));
                push_name_ranges(&mut r, name);
                push_value(&mut r, value);
            },
            InstructionValues::Continuation { operator, value, .. } => {
                r.push(RangesValues::ContinuationOperator(operator));
                push_value(&mut r, value);
            },
            InstructionValues::Section { section_operator, name, copy } => {
                r.push(RangesValues::SectionOperator(section_operator));
                push_name_ranges(&mut r, name);
                if let Some(cp) = copy {
                    push_copy_ranges(&mut r, cp);
                }
            },
            InstructionValues::Block { block_operator, name } => {
                r.push(RangesValues::BlockOperator(block_operator));
                r.push(RangesValues::Name(name));
            },
            InstructionValues::BlockContent { content } => {
                r.push(RangesValues::Content(content));
            },
            InstructionValues::BlockTerminator { block_operator, name } => {
                r.push(RangesValues::BlockOperator(block_operator));
                r.push(RangesValues::Name(name));
            },
            InstructionValues::Comment { comment_operator, comment } => {
                r.push(RangesValues::CommentOperator(comment_operator));
                if let Some(x) = comment {
                    r.push(RangesValues::Comment(x));
                }
            },
        }
        proof {
            assert(r@ =~= ranges_of(*self));
        }
        r
    }
}

pub open spec fn span(start: int, end: int) -> Span {
    Span { start: start as usize, end: end as usize }
}

/// One tokenized line: where it starts in the input (`index`, a byte offset),
/// its 0-based line number, its byte length without the newline, and its shape.
#[derive(Clone, Copy, Debug, PartialEq, Eq)]
pub struct Instruction {
    pub index: usize,
    pub line: usize,
    pub length: usize,
    pub values: InstructionValues,
}

/// The kinds of trouble the tokenizer reports.
#[derive(Clone, Copy, Debug, PartialEq, Eq)]
pub enum ErrorKey {
    InvalidLine,
    UnterminatedBlock,
    UnterminatedEscapedName,
}

/// A reported problem: the line it concerns (start, 0-based number, byte
/// length) and, for an unterminated block, the span of the block's name.
#[derive(Clone, Copy, Debug, PartialEq, Eq)]
pub struct Diagnostic {
    pub key: ErrorKey,
    pub index: usize,
    pub line: usize,
    pub length: usize,
    pub name: Option<Span>,
}

/// The diagnostic for a block opened on line `line` (which starts at `index`
/// and has `length` bytes) that no line closes.
pub open spec fn unterminated_block(index: int, line: int, length: int, name: Span) -> Diagnostic {
    Diagnostic {
        key: ErrorKey::UnterminatedBlock,
        index: index as usize,
        line: line as usize,
        length: length as usize,
        name: Some(name),
    }
}

/// The end of the line that starts at `i`: the position of the next newline,
/// or the input's end.
pub open spec fn line_end(s: Seq<u8>, i: int) -> int
    decreases s.len() - i,
{
    if i < 0 || i >= s.len() || s[i] == NEWLINE {
        i
    } else {
        line_end(s, i + 1)
    }
}

/// Where the line after the one that ends at `e` starts.
pub open spec fn after_line(s: Seq<u8>, e: int) -> int {
    if e < s.len() {
        e + 1
    } else {
        e
    }
}

pub open spec fn instruction(index: int, line: int, length: int, values: InstructionValues) -> Instruction {
    Instruction { index: index as usize, line: line as usize, length: length as usize, values }
}

pub open spec fn content_instruction(index: int, line: int, length: int) -> Instruction {
    instruction(index, line, length, InstructionValues::BlockContent { content: span(0, length) })
}

/// Line `l` closes a block opened with `dashes` and `name`: after blanks the
/// same dashes, blanks, the same name, and nothing but blanks.
pub open spec fn is_terminator(l: Seq<u8>, dashes: Seq<u8>, name: Seq<u8>) -> bool {
    let a = skip_blanks(l, 0);
    let q = skip_blanks(l, a + dashes.len());
    &&& a + dashes.len() <= l.len()
    &&& l.subrange(a, a + dashes.len()) == dashes
    &&& q + name.len() <= l.len()
    &&& l.subrange(q, q + name.len()) == name
    &&& skip_blanks(l, q + name.len()) == l.len()
}

/// The spans of a terminator line `l` for dashes of length `dl` and a name of length `nl`.
pub open spec fn terminator_values(l: Seq<u8>, dl: int, nl: int) -> InstructionValues {
    let a = skip_blanks(l, 0);
    let q = skip_blanks(l, a + dl);
    InstructionValues::BlockTerminator { block_operator: span(a, a + dl), name: span(q, q + nl) }
}

pub proof fn lemma_line_end(s: Seq<u8>, i: int)
    requires
        0 <= i <= s.len(),
    ensures
        i <= line_end(s, i) <= s.len(),
        line_end(s, i) < s.len() ==> s[line_end(s, i)] == NEWLINE,
        forall|k: int| i <= k < line_end(s, i) ==> s[k] != NEWLINE,
    decreases s.len() - i,
{
    if i < s.len() && s[i] != NEWLINE {
        lemma_line_end(s, i + 1);
    }
}

/// The content lines of a block, searched from the newline at `j` on; the
/// next line has number `line`. Gives the content instructions and where
/// the terminator line starts, or `None` when no line closes the block.
pub open spec fn scan_block(
    s: Seq<u8>,
    j: int,
    line: int,
    dashes: Seq<u8>,
    name: Seq<u8>,
) -> Option<(Seq<Instruction>, int)>
    decreases s.len() - j,
{
    if j < 0 || j >= s.len() {
        None
    } else {
        let t = j + 1;
        let te = line_end(s, t);
        if is_terminator(s.subrange(t, te), dashes, name) {
            Some((seq![], t))
        } else {
            proof {
                lemma_line_end(s, t);
            }
            match scan_block(s, te, line + 1, dashes, name) {
                Some((c, u)) => Some((seq![content_instruction(t, line, te - t)] + c, u)),
                None => None,
            }
        }
    }
}

pub proof fn lemma_scan_block(s: Seq<u8>, j: int, line: int, dashes: Seq<u8>, name: Seq<u8>)
    ensures
        scan_block(s, j, line, dashes, name) matches Some((c, u)) ==> {
            &&& 0 <= j < u <= s.len()
            &&& is_terminator(s.subrange(u, line_end(s, u)), dashes, name)
        },
    decreases s.len() - j,
{
    if 0 <= j < s.len() {
        let t = j + 1;
        lemma_line_end(s, t);
        let te = line_end(s, t);
        if !is_terminator(s.subrange(t, te), dashes, name) {
            lemma_scan_block(s, te, line + 1, dashes, name);
        }
    }
}

/// The instructions and diagnostics for the input `s` from the line that
/// starts at `i`, numbered `line`, to the end.
///
/// Each line becomes one instruction, except a line that follows no shape:
/// that one becomes a diagnostic. A block opener is followed by its content
/// lines and its terminator; when no line closes it, a diagnostic ends the
/// scan. When the input ends with a newline, an empty line of length 0
/// stands at its end.
#[verifier::opaque]
pub open spec fn scan(s: Seq<u8>, i: int, line: int) -> (Seq<Instruction>, Seq<Diagnostic>)
    decreases s.len() - i,
{
    if i < 0 {
        (seq![], seq![])
    } else if i >= s.len() {
        if s.len() > 0 && s[s.len() - 1] == NEWLINE {
            (seq![instruction(s.len() as int, line, 0, InstructionValues::EmptyLine)], seq![])
        } else {
            (seq![], seq![])
        }
    } else {
        proof {
            lemma_line_end(s, i);
        }
        let e = line_end(s, i);
        let l = s.subrange(i, e);
        match parse_line(l) {
            None => {
                let key = if is_unterminated_escape(l) {
                    ErrorKey::UnterminatedEscapedName
                } else {
                    ErrorKey::InvalidLine
                };
                let d = Diagnostic { key, index: i as usize, line: line as usize, length: (e - i) as usize, name: None };
                let rest = scan(s, after_line(s, e), line + 1);
                (rest.0, seq![d] + rest.1)
            },
            Some(v) => {
                let ins = instruction(i, line, e - i, v);
                match v {
                    InstructionValues::Block { block_operator, name } => {
                        let dashes = l.subrange(block_operator.start as int, block_operator.end as int);
                        let nm = l.subrange(name.start as int, name.end as int);
                        proof {
                            lemma_scan_block(s, e, line + 1, dashes, nm);
                        }
                        match scan_block(s, e, line + 1, dashes, nm) {
                            None => (
                                seq![ins],
                                seq![unterminated_block(i, line, e - i, name)],
                            ),
                            Some((contents, t)) => {
                                proof {
                                    lemma_line_end(s, t);
                                }
                                let te = line_end(s, t);
                                let lt = line + 1 + contents.len();
                                let tv = terminator_values(s.subrange(t, te), dashes.len() as int, nm.len() as int);
                                let term = instruction(t, lt, te - t, tv);
                                let rest = scan(s, after_line(s, te), lt + 1);
                                (seq![ins] + contents + seq![term] + rest.0, rest.1)
                            },
                        }
                    },
                    _ => {
                        let rest = scan(s, after_line(s, e), line + 1);
                        (seq![ins] + rest.0, rest.1)
                    },
                }
            },
        }
    }
}

pub proof fn lemma_scan_invalid(s: Seq<u8>, i: int, line: int)
    requires
        0 <= i < s.len(),
        parse_line(s.subrange(i, line_end(s, i))) is None,
    ensures
        ({
            let e = line_end(s, i);
            let l = s.subrange(i, e);
            let d = Diagnostic {
                key: if is_unterminated_escape(l) {
                    ErrorKey::UnterminatedEscapedName
                } else {
                    ErrorKey::InvalidLine
                },
                index: i as usize,
                line: line as usize,
                length: (e - i) as usize,
                name: None,
            };
            let rest = scan(s, after_line(s, e), line + 1);
            scan(s, i, line) == (rest.0, seq![d] + rest.1)
        }),
{
    reveal(scan);
}

pub proof fn lemma_scan_plain(s: Seq<u8>, i: int, line: int)
    requires
        0 <= i < s.len(),
        parse_line(s.subrange(i, line_end(s, i))) matches Some(v) && !(v is Block),
    ensures
        ({
            let e = line_end(s, i);
            let v = parse_line(s.subrange(i, e))->Some_0;
            let rest = scan(s, after_line(s, e), line + 1);
            scan(s, i, line) == (seq![instruction(i, line, e - i, v)] + rest.0, rest.1)
        }),
{
    reveal(scan);
}

pub proof fn lemma_scan_block_line(s: Seq<u8>, i: int, line: int)
    requires
        0 <= i < s.len(),
        parse_line(s.subrange(i, line_end(s, i))) matches Some(v) && v is Block,
    ensures
        ({
            let e = line_end(s, i);
            let l = s.subrange(i, e);
            let v = parse_line(l)->Some_0;
            let ins = instruction(i, line, e - i, v);
            let bo = v->Block_block_operator;
            let name = v->Block_name;
            let dashes = l.subrange(bo.start as int, bo.end as int);
            let nm = l.subrange(name.start as int, name.end as int);
            scan(s, i, line) == match scan_block(s, e, line + 1, dashes, nm) {
                None => (
                    seq![ins],
                    seq![unterminated_block(i, line, e - i, name)],
                ),
                Some((contents, t)) => {
                    let te = line_end(s, t);
                    let lt = line + 1 + contents.len();
                    let tv = terminator_values(s.subrange(t, te), dashes.len() as int, nm.len() as int);
                                let term = instruction(t, lt, te - t, tv);
                    let rest = scan(s, after_line(s, te), lt + 1);
                    (seq![ins] + contents + seq![term] + rest.0, rest.1)
                },
            }
        }),
{
    reveal(scan);
}

/// The instructions and diagnostics for the whole input `s`.
pub open spec fn tokenize_spec(s: Seq<u8>) -> (Seq<Instruction>, Seq<Diagnostic>) {
    scan(s, 0, 0)
}

fn line_end_from(s: &[u8], i: usize) -> (r: usize)
    requires
        i <= s@.len(),
    ensures
        r as int == line_end(s@, i as int),
        i <= r <= s@.len(),
{
    let mut q = i;
    while q < s.len() && s[q] != NEWLINE
        invariant
            i <= q <= s@.len(),
            line_end(s@, i as int) == line_end(s@, q as int),
        decreases s@.len() - q,
    {
        q = q + 1;
    }
    q
}

fn after_line_from(s: &[u8], e: usize) -> (r: usize)
    requires
        e <= s@.len(),
    ensures
        r as int == after_line(s@, e as int),
{
    if e < s.len() {
        e + 1
    } else {
        e
    }
}

/// Whether `x` holds at `xs` the `n` bytes that `y` holds at `ys`.
fn bytes_match(x: &[u8], xs: usize, y: &[u8], ys: usize, n: usize) -> (r: bool)
    requires
        xs <= x@.len(),
        ys + n <= y@.len(),
    ensures
        r == (xs + n <= x@.len() && x@.subrange(xs as int, xs + n) == y@.subrange(ys as int, ys + n)),
{
    let xl = x.len();
    let yl = y.len();
    if n > xl - xs {
        return false;
    }
    let ghost xa = x@.subrange(xs as int, xs + n);
    let ghost ya = y@.subrange(ys as int, ys + n);
    let mut k: usize = 0;
    while k < n
        invariant
            xs + n <= x@.len() <= usize::MAX,
            ys + n <= y@.len() <= usize::MAX,
            k <= n,
            xa == x@.subrange(xs as int, xs + n),
            ya == y@.subrange(ys as int, ys + n),
            forall|j: int| 0 <= j < k ==> #[trigger] xa[j] == ya[j],
        decreases n - k,
    {
        if x[xs + k] != y[ys + k] {
            assert(xa[k as int] != ya[k as int]);
            return false;
        }
        k = k + 1;
    }
    assert(xa =~= ya);
    true
}

/// The terminator spans of line `l` when it closes the block whose opener
/// line `opener` has its dashes at `dashes` and its name at `name`.
fn terminator_in(l: &[u8], opener: &[u8], dashes: Span, name: Span) -> (r: Option<InstructionValues>)
    requires
        span_within(dashes, opener@.len() as int),
        span_within(name, opener@.len() as int),
    ensures
        ({
            let d = opener@.subrange(dashes.start as int, dashes.end as int);
            let nm = opener@.subrange(name.start as int, name.end as int);
            if is_terminator(l@, d, nm) {
                r == Some(terminator_values(l@, d.len() as int, nm.len() as int))
            } else {
                r is None
            }
        }),
{
    proof {
        assert(l@.len() == l.len());
    }
    let dl = dashes.end - dashes.start;
    let nl = name.end - name.start;
    let a = skip_blanks_from(l, 0);
    if !bytes_match(l, a, opener, dashes.start, dl) {
        return None;
    }
    let q = skip_blanks_from(l, a + dl);
    if !bytes_match(l, q, opener, name.start, nl) {
        return None;
    }
    let z = skip_blanks_from(l, q + nl);
    if z != l.len() {
        return None;
    }
    Some(
        InstructionValues::BlockTerminator {
            block_operator: Span { start: a, end: a + dl },
            name: Span { start: q, end: q + nl },
        },
    )
}

/// The scanner: a cursor over the input that appends one instruction per
/// line, and a diagnostic per line that follows no shape.
pub struct Tokenizer<'a> {
    pub input: &'a str,
    pub line: usize,
    pub index: usize,
    pub instructions: Vec<Instruction>,
    pub errors: Vec<Diagnostic>,
    pub grammar: GrammarRegex,
    /// What user-facing messages add to a 0-based line number: 0 or 1.
    pub indexing: usize,
}

impl<'a> Tokenizer<'a> {
    /// The input as UTF-8 bytes.
    pub open spec fn bytes(&self) -> Seq<u8> {
        self.input.spec_bytes()
    }

    /// A tokenizer at the start of `input`, with nothing tokenized yet,
    /// whose messages count lines from `indexing`.
    pub fn new(input: &'a str, indexing: usize) -> (r: Tokenizer<'a>)
        ensures
            r.input == input,
            r.indexing == indexing,
            r.line == 0,
            r.index == 0,
            r.instructions@ == Seq::<Instruction>::empty(),
            r.errors@ == Seq::<Diagnostic>::empty(),
    {
        Tokenizer {
            input,
            line: 0,
            index: 0,
            instructions: Vec::new(),
            errors: Vec::new(),
            grammar: GrammarRegex::initialize(),
            indexing,
        }
    }

    /// Tokenizes the rest of the input, from the cursor on.
    pub fn tokenize(&mut self)
        requires
            old(self).index <= old(self).bytes().len(),
            old(self).line <= old(self).index,
        ensures
            final(self).input == old(self).input,
            final(self).indexing == old(self).indexing,
            final(self).instructions@ == old(self).instructions@ + scan(
                old(self).bytes(),
                old(self).index as int,
                old(self).line as int,
            ).0,
            final(self).errors@ == old(self).errors@ + scan(
                old(self).bytes(),
                old(self).index as int,
                old(self).line as int,
            ).1,
    {
        let input: &'a str = self.input;
        let s = input.as_bytes();
        let ghost full = scan(s@, self.index as int, self.line as int);
        let ghost ins0 = self.instructions@;
        let ghost errs0 = self.errors@;
        let ghost indexing = self.indexing;
        let mut finished = false;
        while !finished && self.index < s.len()
            invariant
                self.input == input,
                self.indexing == indexing,
                s@ == self.bytes(),
                !finished ==> self.index <= s@.len() && self.line <= self.index,
                finished ==> self.instructions@ == ins0 + full.0 && self.errors@ == errs0 + full.1,
                !finished ==> self.instructions@ + scan(s@, self.index as int, self.line as int).0
                    == ins0 + full.0 && self.errors@ + scan(s@, self.index as int, self.line as int).1
                    == errs0 + full.1,
            decreases s@.len() - self.index + if finished {
                0int
            } else {
                1int
            },
        {
            finished = self.tokenize_line(s);
        }
        if !finished {
            let len = s.len();
            if len > 0 && s[len - 1] == NEWLINE {
                let sentinel = Instruction {
                    index: len,
                    line: self.line,
                    length: 0,
                    values: InstructionValues::EmptyLine,
                };
                self.instructions.push(sentinel);
            }
            proof {
                reveal(scan);
                assert(self.instructions@ =~= ins0 + full.0);
                assert(self.errors@ =~= errs0 + full.1);
            }
        }
    }

    /// Tokenizes the line at the cursor (with the rest of its block, when it
    /// opens one). `finished` tells that the scan has come to its end.
    fn tokenize_line(&mut self, s: &[u8]) -> (finished: bool)
        requires
            s@ == old(self).bytes(),
            old(self).index < s@.len(),
            old(self).line <= old(self).index,
        ensures
            final(self).input == old(self).input,
            final(self).indexing == old(self).indexing,
            ({
                let full = scan(s@, old(self).index as int, old(self).line as int);
                let rest = scan(s@, final(self).index as int, final(self).line as int);
                if finished {
                    &&& final(self).instructions@ == old(self).instructions@ + full.0
                    &&& final(self).errors@ == old(self).errors@ + full.1
                    &&& final(self).index == old(self).index
                } else {
                    &&& final(self).instructions@ + rest.0 == old(self).instructions@ + full.0
                    &&& final(self).errors@ + rest.1 == old(self).errors@ + full.1
                    &&& old(self).index < final(self).index <= s@.len()
                    &&& final(self).line <= final(self).index
                }
            }),
    {
        let i = self.index;
        let line = self.line;
        let e = line_end_from(s, i);
        proof {
            lemma_line_end(s@, i as int);
        }
        let l = &s[i..e];
        let ghost full = scan(s@, i as int, line as int);
        match self.grammar.match_line(l) {
            None => {
                let d = self.tokenize_error_context();
                self.errors.push(d);
                proof {
                    lemma_scan_invalid(s@, i as int, line as int);
                    let rest = scan(s@, self.index as int, self.line as int);
                    assert(full.1 == seq![d] + rest.1);
                    assert(self.errors@ + rest.1 =~= old(self).errors@ + full.1);
                }
                false
            },
            Some(v) => {
                let ins = Instruction { index: i, line, length: e - i, values: v };
                self.instructions.push(ins);
                match v {
                    InstructionValues::Block { block_operator, name } => {
                        proof {
                            lemma_parse_line_within(l@);
                            lemma_scan_block_line(s@, i as int, line as int);
                        }
                        let finished = self.tokenize_block(s, l, e, block_operator, name);
                        proof {
                            let d = l@.subrange(block_operator.start as int, block_operator.end as int);
                            let nm = l@.subrange(name.start as int, name.end as int);
                            lemma_scan_block(s@, e as int, line + 1, d, nm);
                            if let Some((contents, t)) = scan_block(s@, e as int, line + 1, d, nm) {
                                lemma_line_end(s@, t);
                            }
                            let rest = scan(s@, self.index as int, self.line as int);
                            if finished {
                                assert(self.instructions@ =~= old(self).instructions@ + full.0);
                            } else {
                                assert(self.instructions@ + rest.0 =~= old(self).instructions@ + full.0);
                            }
                        }
                        finished
                    },
                    _ => {
                        self.index = after_line_from(s, e);
                        self.line = line + 1;
                        proof {
                            lemma_scan_plain(s@, i as int, line as int);
                            let rest = scan(s@, self.index as int, self.line as int);
                            assert(self.instructions@ + rest.0 =~= old(self).instructions@ + full.0);
                        }
                        false
                    },
                }
            },
        }
    }

    /// Collects the content lines of the block opened by line `opener`
    /// (ending at `e`), up to its terminator. The opener's instruction is
    /// already appended; the cursor still stands on the opener.
    fn tokenize_block(&mut self, s: &[u8], opener: &[u8], e: usize, dashes: Span, name: Span) -> (finished: bool)
        requires
            s@ == old(self).bytes(),
            old(self).index < e <= s@.len(),
            e == line_end(s@, old(self).index as int),
            opener@ == s@.subrange(old(self).index as int, e as int),
            old(self).line <= old(self).index,
            span_within(dashes, opener@.len() as int),
            span_within(name, opener@.len() as int),
        ensures
            final(self).input == old(self).input,
            final(self).indexing == old(self).indexing,
            ({
                let d = opener@.subrange(dashes.start as int, dashes.end as int);
                let nm = opener@.subrange(name.start as int, name.end as int);
                let i = old(self).index as int;
                let line = old(self).line as int;
                match scan_block(s@, e as int, line + 1, d, nm) {
                    None => {
                        &&& finished
                        &&& final(self).index == old(self).index
                        &&& final(self).instructions == old(self).instructions
                        &&& final(self).errors@ == old(self).errors@ + seq![
                            unterminated_block(i, line, e - i, name),
                        ]
                    },
                    Some((contents, t)) => {
                        let te = line_end(s@, t);
                        let lt = line + 1 + contents.len();
                        let term = instruction(
                            t,
                            lt,
                            te - t,
                            terminator_values(s@.subrange(t, te), d.len() as int, nm.len() as int),
                        );
                        &&& !finished
                        &&& final(self).instructions@ == old(self).instructions@ + contents + seq![term]
                        &&& final(self).errors == old(self).errors
                        &&& final(self).index == after_line(s@, te)
                        &&& final(self).line == lt + 1
                        &&& final(self).line <= final(self).index <= s@.len()
                    },
                }
            }),
    {
        let i = self.index;
        let line = self.line;
        let ghost d = opener@.subrange(dashes.start as int, dashes.end as int);
        let ghost nm = opener@.subrange(name.start as int, name.end as int);
        let ghost whole = scan_block(s@, e as int, line + 1, d, nm);
        let mut contents: Vec<Instruction> = Vec::new();
        let mut j = e;
        let mut ln = line + 1;
        let mut found: Option<(usize, usize, InstructionValues)> = None;
        while found.is_none() && j < s.len()
            invariant
                e <= j <= s@.len(),
                span_within(dashes, opener@.len() as int),
                span_within(name, opener@.len() as int),
                ln == line + 1 + contents@.len(),
                ln <= j,
                whole == scan_block(s@, e as int, line + 1, d, nm),
                d == opener@.subrange(dashes.start as int, dashes.end as int),
                nm == opener@.subrange(name.start as int, name.end as int),
                found matches Some((t, te, tv)) ==> {
                    &&& whole == Some((contents@, t as int))
                    &&& t == j + 1
                    &&& te == line_end(s@, t as int)
                    &&& t <= te <= s@.len()
                    &&& tv == terminator_values(s@.subrange(t as int, te as int), d.len() as int, nm.len() as int)
                },
                found is None ==> whole == match scan_block(s@, j as int, ln as int, d, nm) {
                    Some((c, u)) => Some((contents@ + c, u)),
                    None => None,
                },
            decreases s@.len() - j + if found is None {
                1int
            } else {
                0int
            },
        {
            let t = j + 1;
            let te = line_end_from(s, t);
            let lt = &s[t..te];
            match terminator_in(lt, opener, dashes, name) {
                Some(tv) => {
                    found = Some((t, te, tv));
                    proof {
                        assert(contents@ + seq![] =~= contents@);
                    }
                },
                None => {
                    let c = Instruction {
                        index: t,
                        line: ln,
                        length: te - t,
                        values: InstructionValues::BlockContent { content: Span { start: 0, end: te - t } },
                    };
                    proof {
                        lemma_line_end(s@, t as int);
                        let next = scan_block(s@, te as int, ln + 1, d, nm);
                        if let Some((cc, u)) = next {
                            assert(contents@.push(c) + cc =~= contents@ + (seq![c] + cc));
                        }
                    }
                    contents.push(c);
                    j = te;
                    ln = ln + 1;
                },
            }
        }
        match found {
            None => {
                let d = Diagnostic {
                    key: ErrorKey::UnterminatedBlock,
                    index: i,
                    line,
                    length: e - i,
                    name: Some(name),
                };
                self.errors.push(d);
                true
            },
            Some((t, te, tv)) => {
                self.instructions.append(&mut contents);
                self.instructions.push(Instruction { index: t, line: ln, length: te - t, values: tv });
                self.index = after_line_from(s, te);
                self.line = ln + 1;
                false
            },
        }
    }

    /// The text of the input between byte positions `a` and `b`, when both
    /// are character boundaries.
    fn slice_text(&self, a: usize, b: usize) -> (r: Option<String>)
        requires
            a <= b <= self.bytes().len(),
        ensures
            r is Some <==> is_char_boundary(self.bytes(), a as int) && is_char_boundary(
                self.bytes(),
                b as int,
            ),
            r matches Some(t) ==> t@ == decode_utf8(self.bytes().subrange(a as int, b as int)),
    {
        let input: &'a str = self.input;
        if !input.is_char_boundary(a) || !input.is_char_boundary(b) {
            return None;
        }
        proof {
            encode_utf8_valid_utf8(input@);
            lemma_boundary_in_suffix(input.spec_bytes(), a as int, b as int);
        }
        let (_, rest) = input.split_at(a);
        let (mid, _) = rest.split_at(b - a);
        let t = mid.to_owned();
        proof {
            encode_utf8_decode_utf8(mid@);
            assert(mid.spec_bytes() =~= input.spec_bytes().subrange(a as int, b as int));
        }
        Some(t)
    }

    /// The text of `span` on the line of `instruction`, when the span starts
    /// and ends on character boundaries (as every range of an instruction of
    /// this input does).
    pub fn text(&self, instruction: &Instruction, span: Span) -> (r: Option<String>)
        requires
            span_within(span, instruction.length as int),
            instruction.index + instruction.length <= self.bytes().len(),
        ensures
            ({
                let a = instruction.index + span.start;
                let b = instruction.index + span.end;
                &&& r is Some <==> is_char_boundary(self.bytes(), a) && is_char_boundary(self.bytes(), b)
                &&& r matches Some(t) ==> t@ == decode_utf8(self.bytes().subrange(a, b))
            }),
    {
        let bytes = self.input.as_bytes();
        proof {
            assert(bytes@.len() == bytes.len());
        }
        self.slice_text(instruction.index + span.start, instruction.index + span.end)
    }

    /// The name that diagnostic `d` reports: the text of the block name of
    /// an unterminated block, else nothing.
    pub open spec fn reported_name(&self, d: Diagnostic) -> Seq<char> {
        match d.name {
            Some(x) => {
                let a = d.index + x.start;
                let b = d.index + x.end;
                if b <= self.bytes().len() && x.start <= x.end && is_char_boundary(self.bytes(), a)
                    && is_char_boundary(self.bytes(), b) {
                    decode_utf8(self.bytes().subrange(a, b))
                } else {
                    Seq::<char>::empty()
                }
            },
            None => Seq::<char>::empty(),
        }
    }

    /// The user-facing message of each diagnostic, in order, from the
    /// templates of `messages`.
    pub fn error_messages(&self, messages: &Messages) -> (r: Vec<String>)
        ensures
            r@.len() == self.errors@.len(),
            forall|k: int| 0 <= k < r@.len() ==> #[trigger] r@[k]@ == error_message(
                messages.tokenization,
                self.indexing as int,
                self.errors@[k],
                self.reported_name(self.errors@[k]),
            ),
    {
        let input: &'a str = self.input;
        let s = input.as_bytes();
        let len = s.len();
        let mut r: Vec<String> = Vec::new();
        let mut k: usize = 0;
        while k < self.errors.len()
            invariant
                s@ == self.bytes(),
                len == s@.len(),
                k <= self.errors@.len(),
                r@.len() == k,
                forall|j: int| 0 <= j < k ==> #[trigger] r@[j]@ == error_message(
                    messages.tokenization,
                    self.indexing as int,
                    self.errors@[j],
                    self.reported_name(self.errors@[j]),
                ),
            decreases self.errors@.len() - k,
        {
            let d = self.errors[k];
            let name = match d.name {
                Some(x) => if x.end <= len && d.index <= len - x.end && x.start <= x.end {
                    match self.slice_text(d.index + x.start, d.index + x.end) {
                        Some(t) => t,
                        None => String::new(),
                    }
                } else {
                    String::new()
                },
                None => String::new(),
            };
            let m = Tokenization::error_msg(&messages.tokenization, self.indexing, &d, name.as_str());
            r.push(m);
            k = k + 1;
        }
        r
    }

    /// Gives up on the line at the cursor, which follows no shape: reports it
    /// as an unterminated escaped name when it opens one, else as an invalid
    /// line, and moves the cursor to the next line.
    pub fn tokenize_error_context(&mut self) -> (d: Diagnostic)
        requires
            old(self).index < old(self).bytes().len(),
            old(self).line <= old(self).index,
        ensures
            ({
                let s = old(self).bytes();
                let i = old(self).index as int;
                let e = line_end(s, i);
                let l = s.subrange(i, e);
                &&& d == Diagnostic {
                    key: if is_unterminated_escape(l) {
                        ErrorKey::UnterminatedEscapedName
                    } else {
                        ErrorKey::InvalidLine
                    },
                    index: i as usize,
                    line: old(self).line,
                    length: (e - i) as usize,
                    name: None,
                }
                &&& final(self).index == after_line(s, e)
                &&& final(self).line == old(self).line + 1
            }),
            final(self).input == old(self).input,
            final(self).indexing == old(self).indexing,
            final(self).instructions == old(self).instructions,
            final(self).errors == old(self).errors,
    {
        let input: &'a str = self.input;
        let s = input.as_bytes();
        let i = self.index;
        let e = line_end_from(s, i);
        let l = &s[i..e];
        let key = if self.grammar.unterminated_escape(l) {
            ErrorKey::UnterminatedEscapedName
        } else {
            ErrorKey::InvalidLine
        };
        self.index = after_line_from(s, e);
        self.line = self.line + 1;
        Diagnostic { key, index: i, line: self.line - 1, length: e - i, name: None }
    }
}

} // verus!
