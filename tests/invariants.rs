use eno_rust::parser::parse;
use eno_rust::tokenizer::{ErrorKey, InstructionValues};

const SAMPLES: [&str; 6] = [
    "name: Jane",
    "# cities expanded < cities\nx: 1\n",
    "-- body\nhello\nworld\n-- body",
    "key: first\n| second\n\\ third\n\n",
    "values:\n`a:b` = x\n``c`` << d\n- item\n> note",
    "  ### `a < b`  <  c  \n   \n--- raw\n-- raw\n--- raw",
];

fn joined(input: &str) -> String {
    let t = parse(input, false);
    let lines: Vec<&str> = t.instructions.iter().map(|i| &input[i.index..i.index + i.length]).collect();
    lines.join("\n")
}

#[test]
fn ranges_lie_within_their_lines() {
    for input in SAMPLES {
        let t = parse(input, false);
        assert!(t.errors.is_empty(), "{input:?}");
        for ins in &t.instructions {
            assert!(ins.index + ins.length <= input.len());
            for r in ins.values.ranges() {
                let x = r.span();
                assert!(x.start <= x.end && x.end <= ins.length, "{input:?} {ins:?}");
            }
        }
    }
}

#[test]
fn each_line_starts_after_the_previous_newline() {
    for input in SAMPLES {
        let t = parse(input, false);
        for pair in t.instructions.windows(2) {
            assert_eq!(pair[1].index, pair[0].index + pair[0].length + 1, "{input:?}");
        }
    }
}

#[test]
fn lines_join_back_to_the_input() {
    for input in SAMPLES {
        assert_eq!(joined(input), input);
    }
}

#[test]
fn tokenizing_the_joined_lines_again_changes_nothing() {
    for input in SAMPLES {
        let again = joined(input);
        let a = parse(input, false);
        let b = parse(&again, false);
        assert_eq!(a.instructions, b.instructions);
        assert_eq!(a.errors, b.errors);
    }
}

#[test]
fn every_block_is_closed_by_the_same_dashes_and_name() {
    let input = "--- raw\n-- raw\n--- raw\n-- other\n-- other";
    let t = parse(input, false);
    assert!(t.errors.is_empty());
    let bytes = input.as_bytes();
    for (k, ins) in t.instructions.iter().enumerate() {
        if let InstructionValues::Block { block_operator, name } = ins.values {
            let closer = t.instructions[k + 1..]
                .iter()
                .find(|c| matches!(c.values, InstructionValues::BlockTerminator { .. }))
                .expect("terminator");
            if let InstructionValues::BlockTerminator { block_operator: co, name: cn } = closer.values {
                let at = |i: usize, s: eno_rust::tokenizer::Span| &bytes[i + s.start..i + s.end];
                assert_eq!(at(ins.index, block_operator), at(closer.index, co));
                assert_eq!(at(ins.index, name), at(closer.index, cn));
            }
        }
    }
    let open = parse("-- raw\nno end", false);
    assert_eq!(open.errors[0].key, ErrorKey::UnterminatedBlock);
}

#[test]
fn section_depth_counts_the_hashes() {
    let t = parse("#### deep", false);
    assert_eq!(t.instructions[0].values.depth(), Some(4));
    let t = parse("  ## two", false);
    assert_eq!(t.instructions[0].values.depth(), Some(2));
}

#[test]
fn only_dashes_name_the_block_with_the_last_dash() {
    let t = parse("---\nx\n---", false);
    match t.instructions[0].values {
        InstructionValues::Block { block_operator, name } => {
            assert_eq!((block_operator.start, block_operator.end), (0, 2));
            assert_eq!((name.start, name.end), (2, 3));
        }
        other => panic!("unexpected {:?}", other),
    }
    assert_eq!(t.instructions.len(), 3);
    assert!(parse("--", false).errors[0].key == ErrorKey::InvalidLine);
}

#[test]
fn every_range_is_whole_characters() {
    let input = "서울특별시: 37.5\n# Málaga < ciudad\n`ü:ä` = ö\n-- 名前\n内容\n-- 名前";
    let t = parse(input, false);
    assert!(t.errors.is_empty());
    for ins in &t.instructions {
        for r in ins.values.ranges() {
            assert!(t.text(ins, r.span()).is_some(), "{ins:?} {r:?}");
        }
    }
}
