use eno_rust::messages::{
    format_str, int_text, nat_text, unterminated_escaped_name, AnalysisKey, ElementKey, Elements,
    LoadersKey, Loaders, Messages, ResolutionKey, Resolution, Tokenization, ValidationKey,
    Validation, Analysis,
};
use eno_rust::parser::parse;
use eno_rust::tokenizer::{Diagnostic, ErrorKey};

fn en() -> Messages {
    Messages::get_messages("en").expect("english")
}

#[test]
fn only_english_is_known() {
    assert!(Messages::get_messages("en").is_some());
    assert!(Messages::get_messages("de").is_none());
    assert!(Messages::get_messages("").is_none());
}

#[test]
fn element_names() {
    assert_eq!(Elements::msg(en().elements, ElementKey::FieldsetEntry), "Fieldset Entry");
    assert_eq!(Elements::msg(en().elements, ElementKey::Document), "Document");
}

#[test]
fn formats_placeholders_in_order() {
    let args = vec!["a".to_string(), "b".to_string()];
    assert_eq!(format_str("x {} y {} z", &args), "x a y b z");
    assert_eq!(format_str("{} {} {}", &args), "a b {}");
    assert_eq!(format_str("open { only", &args), "open { only");
    assert_eq!(format_str("{name} {}", &args), "{name} a");
}

#[test]
fn numbers_in_decimal() {
    assert_eq!(int_text(0), "0");
    assert_eq!(int_text(-21), "-21");
    assert_eq!(int_text(i32::MIN), "-2147483648");
    assert_eq!(nat_text(1234567890123), "1234567890123");
}

#[test]
fn analysis_messages() {
    let a: Analysis = en().analysis;
    assert_eq!(
        Analysis::msg_with_one_value(a, AnalysisKey::ListItemInField, 4),
        "Line 4 contains a list item inside a field."
    );
    assert_eq!(
        Analysis::msg_with_two_values(a, AnalysisKey::DuplicateFieldsetEntryName, "set", "key"),
        "The fieldset 'set' contains two entries named 'key'."
    );
    assert_eq!(Analysis::msg_with_one_value(a, AnalysisKey::DuplicateFieldsetEntryName, 4), "Error");
}

#[test]
fn resolution_messages() {
    let r: Resolution = en().resolution;
    assert_eq!(
        Resolution::msg_with_one_value(r, ResolutionKey::CopyingFieldsetIntoList, 7),
        "In line 7 a fieldset is copied into a list."
    );
    assert_eq!(
        Resolution::msg_with_two_values(r, ResolutionKey::TemplateNotFound, 2, "base"),
        "In line 2 the element 'base' should be copied, but it was not found."
    );
}

#[test]
fn validation_messages() {
    let v: Validation = en().validation;
    assert_eq!(
        Validation::msg_with_one_value(v, ValidationKey::MissingField, "title"),
        "The field 'title' is missing - in case it has been specified look for typos and also check for correct capitalization."
    );
    assert_eq!(
        Validation::msg_with_three_values(v, ValidationKey::ExactCountNotMet, "tags", 2, 3),
        "The list 'tags' contains 2 items, but must contain exactly 3 items."
    );
    assert_eq!(
        Validation::msg_with_three_values(v, ValidationKey::MaxCountNotMet, "tags", 5, 4),
        "The list 'tags' contains 5 items, but may only contain a maximum of 4 items."
    );
    assert_eq!(
        Validation::msg_with_three_values(v, ValidationKey::MinCountNotMet, "tags", 1, 2),
        "The list 'tags' contains 1 items, but must contain at least 2 items."
    );
    assert_eq!(Validation::msg_with_three_values(v, ValidationKey::MissingField, "t", 1, 2), "Error");
}

#[test]
fn loader_messages() {
    let l: Loaders = en().loaders;
    assert_eq!(
        Loaders::msg_with_one_value(l, LoadersKey::InvalidInteger, "n"),
        "'n' must contain an integer, for instance '42' or '-21'."
    );
    assert_eq!(
        Loaders::masg_with_two_values(l, LoadersKey::InvalidJson, "j", "eof"),
        "'j' must contain valid JSON - the parser returned: 'eof'."
    );
}

#[test]
fn tokenizer_messages_count_lines_from_the_chosen_base() {
    let t = parse("ok: 1\n$$$", false);
    assert_eq!(t.error_messages(&en()), vec!["Line 2 does not follow any specified pattern.".to_string()]);
    let t = parse("ok: 1\n$$$", true);
    assert_eq!(t.error_messages(&en()), vec!["Line 1 does not follow any specified pattern.".to_string()]);
}

#[test]
fn unterminated_block_message_names_the_block() {
    let t = parse("a: 1\n-- notes\ntext", false);
    assert_eq!(
        t.error_messages(&en()),
        vec!["The block 'notes' starting in line 2 is not terminated until the end of the document.".to_string()]
    );
}

#[test]
fn unterminated_escape_message() {
    let tok: Tokenization = en().tokenization;
    let d = Diagnostic { key: ErrorKey::UnterminatedEscapedName, index: 0, line: 3, length: 2, name: None };
    assert_eq!(
        unterminated_escaped_name(&tok, 1, &d),
        "In line 4 the name of an element is escaped, but the escape sequence is not terminated until the end of the line."
    );
    assert_eq!(Tokenization::error_msg(&tok, 1, &d, ""), unterminated_escaped_name(&tok, 1, &d));
}
