use eno_rust::parser::parse;
use eno_rust::tokenizer::{
    CopyRanges, ErrorKey, InstructionValues, NameOperator, RangesValues, Span, Tokenizer,
};

fn sp(start: usize, end: usize) -> Span {
    Span { start, end }
}

fn text(t: &Tokenizer, k: usize, x: Span) -> String {
    t.text(&t.instructions[k], x).expect("whole characters")
}

fn kinds(t: &Tokenizer) -> Vec<&'static str> {
    t.instructions.iter().map(|i| i.values.kind_name()).collect()
}

#[test]
fn field_with_value() {
    let t = parse("name: Jane", false);
    assert_eq!(t.instructions.len(), 1);
    assert!(t.errors.is_empty());
    let ins = t.instructions[0];
    assert_eq!((ins.index, ins.line, ins.length), (0, 0, 10));
    assert_eq!(ins.values.kind_name(), "FIELD");
    match ins.values {
        InstructionValues::Field { name, name_operator, value } => {
            assert_eq!(name.name, sp(0, 4));
            assert!(name.escape.is_none());
            assert_eq!(name_operator, sp(4, 5));
            assert_eq!(value, sp(6, 10));
            assert_eq!(text(&t, 0, name.name), "name");
            assert_eq!(text(&t, 0, value), "Jane");
        }
        other => panic!("unexpected {:?}", other),
    }
    assert_eq!(
        ins.values.ranges(),
        vec![
            RangesValues::Name(sp(0, 4)),
            RangesValues::NameOperator(sp(4, 5)),
            RangesValues::Value(sp(6, 10)),
        ]
    );
}

#[test]
fn section_with_template() {
    let t = parse("# cities expanded < cities", false);
    assert_eq!(t.instructions.len(), 1);
    let ins = t.instructions[0];
    assert_eq!(ins.values.kind_name(), "SECTION");
    assert_eq!(ins.values.depth(), Some(1));
    match ins.values {
        InstructionValues::Section { section_operator, name, copy } => {
            assert_eq!(section_operator, sp(0, 1));
            assert_eq!(name.name, sp(2, 17));
            assert_eq!(text(&t, 0, name.name), "cities expanded");
            let cp = copy.expect("template");
            assert_eq!(cp, CopyRanges { deep: false, operator: sp(18, 19), template: sp(20, 26) });
            assert_eq!(text(&t, 0, cp.template), "cities");
        }
        other => panic!("unexpected {:?}", other),
    }
}

#[test]
fn block_with_two_content_lines() {
    let t = parse("-- body\nhello\nworld\n-- body", false);
    assert!(t.errors.is_empty());
    assert_eq!(kinds(&t), vec!["BLOCK", "BLOCK_CONTENT", "BLOCK_CONTENT", "BLOCK_TERMINATOR"]);
    let open = t.instructions[0];
    assert_eq!(open.length, 7);
    match open.values {
        InstructionValues::Block { block_operator, name } => {
            assert_eq!(block_operator, sp(0, 2));
            assert_eq!(text(&t, 0, name), "body");
        }
        other => panic!("unexpected {:?}", other),
    }
    assert_eq!((t.instructions[1].index, t.instructions[1].length, t.instructions[1].line), (8, 5, 1));
    assert_eq!((t.instructions[2].index, t.instructions[2].length, t.instructions[2].line), (14, 5, 2));
    assert_eq!(t.instructions[1].values, InstructionValues::BlockContent { content: sp(0, 5) });
    let close = t.instructions[3];
    assert_eq!((close.index, close.line, close.length), (20, 3, 7));
    match close.values {
        InstructionValues::BlockTerminator { block_operator, name } => {
            assert_eq!(block_operator, sp(0, 2));
            assert_eq!(name, sp(3, 7));
            assert_eq!(text(&t, 3, name), "body");
        }
        other => panic!("unexpected {:?}", other),
    }
}

#[test]
fn field_with_continuation() {
    let t = parse("key: first\n| second", false);
    assert_eq!(kinds(&t), vec!["FIELD", "CONTINUATION"]);
    match t.instructions[0].values {
        InstructionValues::Field { name, value, .. } => {
            assert_eq!(text(&t, 0, name.name), "key");
            assert_eq!(text(&t, 0, value), "first");
        }
        other => panic!("unexpected {:?}", other),
    }
    let c = t.instructions[1];
    assert_eq!(c.index, 11);
    assert_eq!(c.values.separator(), Some(b'\n'));
    match c.values {
        InstructionValues::Continuation { newline, operator, value } => {
            assert!(newline);
            assert_eq!(operator, sp(0, 1));
            assert_eq!(text(&t, 1, value.expect("value")), "second");
        }
        other => panic!("unexpected {:?}", other),
    }
}

#[test]
fn escaped_fieldset_entry() {
    let t = parse("values:\n`a:b` = x", false);
    assert!(t.errors.is_empty());
    assert_eq!(kinds(&t), vec!["NAME", "FIELDSET_ENTRY"]);
    match t.instructions[0].values {
        InstructionValues::Name { name, operator } => {
            assert_eq!(text(&t, 0, name.name), "values");
            assert_eq!(operator, NameOperator::Plain(sp(6, 7)));
        }
        other => panic!("unexpected {:?}", other),
    }
    match t.instructions[1].values {
        InstructionValues::FieldsetEntry { name, entry_operator, value } => {
            assert_eq!(text(&t, 1, name.name), "a:b");
            let esc = name.escape.expect("escape spans");
            assert_eq!(esc.begin, sp(0, 1));
            assert_eq!(esc.end, sp(4, 5));
            assert_eq!(entry_operator, sp(6, 7));
            assert_eq!(text(&t, 1, value.expect("value")), "x");
        }
        other => panic!("unexpected {:?}", other),
    }
}

#[test]
fn invalid_line_is_reported() {
    let t = parse("$$$", false);
    assert!(t.instructions.is_empty());
    assert_eq!(t.errors.len(), 1);
    assert_eq!(t.errors[0].key, ErrorKey::InvalidLine);
    assert_eq!(t.errors[0].line, 0);
}

#[test]
fn empty_input_gives_nothing() {
    let t = parse("", false);
    assert!(t.instructions.is_empty());
    assert!(t.errors.is_empty());
}

#[test]
fn trailing_newline_adds_an_empty_line() {
    let t = parse("a: b\n", false);
    assert_eq!(kinds(&t), vec!["FIELD", "EMPTY_LINE"]);
    let last = t.instructions[1];
    assert_eq!((last.index, last.length, last.line), (5, 0, 1));
}

#[test]
fn lone_newline() {
    let t = parse("\n", false);
    assert_eq!(kinds(&t), vec!["EMPTY_LINE", "EMPTY_LINE"]);
    assert_eq!(t.instructions[0].index, 0);
    assert_eq!(t.instructions[1].index, 1);
}

#[test]
fn lone_hash_is_invalid() {
    let t = parse("#", false);
    assert!(t.instructions.is_empty());
    assert_eq!(t.errors[0].key, ErrorKey::InvalidLine);
}

#[test]
fn unmatched_backticks_are_reported() {
    let t = parse("`name: x", false);
    assert_eq!(t.errors.len(), 1);
    assert_eq!(t.errors[0].key, ErrorKey::UnterminatedEscapedName);
    assert_eq!(t.errors[0].line, 0);
}

#[test]
fn block_with_other_name_is_unterminated() {
    let t = parse("-- a\nx\n-- b\ny: z", false);
    assert_eq!(kinds(&t), vec!["BLOCK"]);
    assert_eq!(t.errors.len(), 1);
    let d = t.errors[0];
    assert_eq!(d.key, ErrorKey::UnterminatedBlock);
    assert_eq!(d.line, 0);
    assert_eq!(d.name, Some(sp(3, 4)));
}

#[test]
fn block_terminator_needs_same_dashes() {
    let t = parse("--- a\n-- a\n--- a", false);
    assert_eq!(kinds(&t), vec!["BLOCK", "BLOCK_CONTENT", "BLOCK_TERMINATOR"]);
}

#[test]
fn block_content_is_not_tokenized() {
    let t = parse("-- x\n# not a section\nkey: v\n-- x\nafter: 1", false);
    assert_eq!(
        kinds(&t),
        vec!["BLOCK", "BLOCK_CONTENT", "BLOCK_CONTENT", "BLOCK_TERMINATOR", "FIELD"]
    );
    assert_eq!(t.instructions[4].line, 4);
}

#[test]
fn empty_block() {
    let t = parse("-- x\n-- x", false);
    assert_eq!(kinds(&t), vec!["BLOCK", "BLOCK_TERMINATOR"]);
    assert_eq!(t.instructions[1].index, 5);
}

#[test]
fn invalid_lines_do_not_stop_the_scan() {
    let t = parse("a: 1\n:\nb: 2", false);
    assert_eq!(kinds(&t), vec!["FIELD", "FIELD"]);
    assert_eq!(t.instructions[1].line, 2);
    assert_eq!(t.errors.len(), 1);
    assert_eq!(t.errors[0].line, 1);
}

#[test]
fn list_items_and_comments() {
    let t = parse("list:\n- one\n-\n> note\n>", false);
    assert_eq!(kinds(&t), vec!["NAME", "LIST_ITEM", "LIST_ITEM", "COMMENT", "COMMENT"]);
    match t.instructions[1].values {
        InstructionValues::ListItem { item_operator, value } => {
            assert_eq!(item_operator, sp(0, 1));
            assert_eq!(value, Some(sp(2, 5)));
        }
        other => panic!("unexpected {:?}", other),
    }
    assert_eq!(t.instructions[2].values, InstructionValues::ListItem { item_operator: sp(0, 1), value: None });
    assert_eq!(t.instructions[4].values, InstructionValues::Comment { comment_operator: sp(0, 1), comment: None });
    assert_eq!(
        t.instructions[3].values.ranges(),
        vec![RangesValues::CommentOperator(sp(0, 1)), RangesValues::Comment(sp(2, 6))]
    );
}

#[test]
fn line_continuation_uses_a_space() {
    let t = parse("\\ more", false);
    assert_eq!(t.instructions[0].values.separator(), Some(b' '));
}

#[test]
fn deep_copy_of_a_name() {
    let t = parse("copy << base", false);
    match t.instructions[0].values {
        InstructionValues::Name { name, operator: NameOperator::Template(cp) } => {
            assert_eq!(name.name, sp(0, 4));
            assert!(cp.deep);
            assert_eq!(cp.operator, sp(5, 7));
            assert_eq!(text(&t, 0, cp.template), "base");
        }
        other => panic!("unexpected {:?}", other),
    }
}

#[test]
fn deep_section_and_escaped_section_name() {
    let t = parse("### `a < b` << c", false);
    assert!(t.errors.is_empty());
    let v = t.instructions[0].values;
    assert_eq!(v.depth(), Some(3));
    match v {
        InstructionValues::Section { name, copy, .. } => {
            assert_eq!(text(&t, 0, name.name), "a < b");
            assert_eq!(name.escape.expect("escape").begin, sp(4, 5));
            let cp = copy.expect("copy");
            assert!(cp.deep);
            assert_eq!(text(&t, 0, cp.template), "c");
        }
        other => panic!("unexpected {:?}", other),
    }
}

#[test]
fn blanks_around_lines_and_values() {
    let t = parse("  key  :  spaced value  ", false);
    match t.instructions[0].values {
        InstructionValues::Field { name, name_operator, value } => {
            assert_eq!(name.name, sp(2, 5));
            assert_eq!(name_operator, sp(7, 8));
            assert_eq!(value, sp(10, 22));
        }
        other => panic!("unexpected {:?}", other),
    }
    assert_eq!(t.instructions[0].length, 24);
}

#[test]
fn multibyte_names_keep_byte_spans() {
    let t = parse("서울특별시: 37.5", false);
    match t.instructions[0].values {
        InstructionValues::Field { name, value, .. } => {
            assert_eq!(name.name, sp(0, 15));
            assert_eq!(text(&t, 0, name.name), "서울특별시");
            assert_eq!(text(&t, 0, value), "37.5");
        }
        other => panic!("unexpected {:?}", other),
    }
}

#[test]
fn sample_document() {
    let input = "author: Jane Doe\nemail: jane@eno-lang.org\n\n-- my_content\nMulti-line embedded content (e.g. markdown) here ...\n-- my_content\n\nstates:\nactive = #fff\nhover = #b6b6b6\n\n# cities\nDen Haag: 52.069961, 4.302315\n\n# cities expanded < cities\nSpringfield: 38.790312, -77.186418";
    let t = parse(input, false);
    assert!(t.errors.is_empty());
    assert_eq!(
        kinds(&t),
        vec![
            "FIELD", "FIELD", "EMPTY_LINE", "BLOCK", "BLOCK_CONTENT", "BLOCK_TERMINATOR",
            "EMPTY_LINE", "NAME", "FIELDSET_ENTRY", "FIELDSET_ENTRY", "EMPTY_LINE", "SECTION",
            "FIELD", "EMPTY_LINE", "SECTION", "FIELD",
        ]
    );
    let joined: Vec<&str> = t
        .instructions
        .iter()
        .map(|i| &input[i.index..i.index + i.length])
        .collect();
    assert_eq!(joined.join("\n"), input);
}

#[test]
fn text_inside_a_character_is_refused() {
    let t = parse("서울: x", false);
    let ins = t.instructions[0];
    assert_eq!(t.text(&ins, sp(0, 3)), Some("서".to_string()));
    assert_eq!(t.text(&ins, sp(1, 3)), None);
    assert_eq!(t.text(&ins, sp(0, 2)), None);
}
