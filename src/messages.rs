//! Message templates and the formatting of user-facing messages.
//!
//! A template holds placeholders `{}`. Each placeholder takes the next
//! value, in order.
use vstd::prelude::*;
use crate::tokenizer::{Diagnostic, ErrorKey};

verus! {

/// Template `t` from position `k` on, with its placeholders filled from
/// `args`, starting with argument `ai`. A placeholder with no argument left
/// stays as written.
pub open spec fn fill_from(t: Seq<char>, k: int, args: Seq<Seq<char>>, ai: int) -> Seq<char>
    decreases t.len() - k,
{
    if k < 0 || k >= t.len() {
        seq![]
    } else if t[k] == '{' && k + 1 < t.len() && t[k + 1] == '}' && 0 <= ai < args.len() {
        args[ai] + fill_from(t, k + 2, args, ai + 1)
    } else {
        seq![t[k]] + fill_from(t, k + 1, args, ai)
    }
}

/// Template `t` with each placeholder replaced by the next of `args`.
pub open spec fn format_template(t: Seq<char>, args: Seq<Seq<char>>) -> Seq<char> {
    fill_from(t, 0, args, 0)
}

/// The characters of a list of strings.
pub open spec fn views(v: Seq<String>) -> Seq<Seq<char>> {
    v.map_values(|a: String| a@)
}

pub open spec fn digit_char(d: u8) -> char {
    match d {
        0 => '0',
        1 => '1',
        2 => '2',
        3 => '3',
        4 => '4',
        5 => '5',
        6 => '6',
        7 => '7',
        8 => '8',
        _ => '9',
    }
}

/// The decimal digits of `n`, without leading zeros.
pub open spec fn digits(n: nat) -> Seq<char>
    decreases n,
{
    if n < 10 {
        seq![digit_char(n as u8)]
    } else {
        digits(n / 10) + seq![digit_char((n % 10) as u8)]
    }
}

/// `n` written in decimal, with a `-` when it is negative.
pub open spec fn int_chars(n: int) -> Seq<char> {
    if n < 0 {
        seq!['-'] + digits((-n) as nat)
    } else {
        digits(n as nat)
    }
}

fn digit_str(d: u128) -> (r: &'static str)
    requires
        d < 10,
    ensures
        r@ == seq![digit_char(d as u8)],
{
    proof {
        reveal_strlit("0");
        reveal_strlit("1");
        reveal_strlit("2");
        reveal_strlit("3");
        reveal_strlit("4");
        reveal_strlit("5");
        reveal_strlit("6");
        reveal_strlit("7");
        reveal_strlit("8");
        reveal_strlit("9");
    }
    let r = match d {
        0 => "0",
        1 => "1",
        2 => "2",
        3 => "3",
        4 => "4",
        5 => "5",
        6 => "6",
        7 => "7",
        8 => "8",
        _ => "9",
    };
    assert(r@ =~= seq![digit_char(d as u8)]);
    r
}

fn push_digits(out: &mut String, n: u128)
    ensures
        final(out)@ == old(out)@ + digits(n as nat),
    decreases n,
{
    if n >= 10 {
        push_digits(out, n / 10);
        out.append(digit_str(n % 10));
        proof {
            assert(final(out)@ =~= old(out)@ + digits(n as nat));
        }
    } else {
        out.append(digit_str(n));
    }
}

/// `n` written in decimal.
pub fn nat_text(n: u128) -> (r: String)
    ensures
        r@ == digits(n as nat),
{
    let mut out = String::new();
    push_digits(&mut out, n);
    proof {
        assert(out@ =~= digits(n as nat));
    }
    out
}

/// `n` written in decimal, with a `-` when it is negative.
pub fn int_text(n: i32) -> (r: String)
    ensures
        r@ == int_chars(n as int),
{
    let mut out = String::new();
    if n < 0 {
        proof {
            reveal_strlit("-");
        }
        out.append("-");
        let m: i64 = -(n as i64);
        push_digits(&mut out, m as u128);
        proof {
            assert(out@ =~= int_chars(n as int));
        }
    } else {
        push_digits(&mut out, n as u128);
        proof {
            assert(out@ =~= int_chars(n as int));
        }
    }
    out
}

/// Template `t` with each placeholder replaced by the next of `args`.
pub fn format_str(t: &str, args: &Vec<String>) -> (r: String)
    ensures
        r@ == format_template(t@, views(args@)),
{
    let ghost a = views(args@);
    let n = t.unicode_len();
    let mut out = String::new();
    let mut k: usize = 0;
    let mut ai: usize = 0;
    while k < n
        invariant
            n == t@.len(),
            k <= n,
            a == views(args@),
            out@ + fill_from(t@, k as int, a, ai as int) == format_template(t@, a),
        decreases n - k,
    {
        let c = t.get_char(k);
        if c == '{' && k + 1 < n && ai < args.len() && t.get_char(k + 1) == '}' {
            proof {
                assert(a[ai as int] == args@[ai as int]@);
                assert(out@ + a[ai as int] + fill_from(t@, k + 2, a, ai + 1)
                    =~= out@ + fill_from(t@, k as int, a, ai as int));
            }
            out.append(args[ai].as_str());
            k = k + 2;
            ai = ai + 1;
        } else {
            proof {
                assert(out@ + t@.subrange(k as int, k + 1) + fill_from(t@, k + 1, a, ai as int)
                    =~= out@ + fill_from(t@, k as int, a, ai as int));
            }
            out.append(t.substring_char(k, k + 1));
            k = k + 1;
        }
    }
    proof {
        assert(out@ + fill_from(t@, k as int, a, ai as int) =~= out@);
    }
    out
}

fn one_value(v: String) -> (r: Vec<String>)
    ensures
        views(r@) == seq![v@],
{
    let mut r = Vec::new();
    r.push(v);
    proof {
        assert(views(r@) =~= seq![v@]);
    }
    r
}

fn two_values(v: String, x: String) -> (r: Vec<String>)
    ensures
        views(r@) == seq![v@, x@],
{
    let mut r = Vec::new();
    r.push(v);
    r.push(x);
    proof {
        assert(views(r@) =~= seq![v@, x@]);
    }
    r
}

fn three_values(v: String, x: String, y: String) -> (r: Vec<String>)
    ensures
        views(r@) == seq![v@, x@, y@],
{
    let mut r = Vec::new();
    r.push(v);
    r.push(x);
    r.push(y);
    proof {
        assert(views(r@) =~= seq![v@, x@, y@]);
    }
    r
}

fn error_text() -> (r: String)
    ensures
        r@ == "Error"@,
{
    String::from_str("Error")
}

/// The message templates of one locale.
#[derive(Clone, Copy, Debug)]
pub struct Messages {
    pub elements: Elements,
    pub tokenization: Tokenization,
    pub analysis: Analysis,
    pub resolution: Resolution,
    pub validation: Validation,
    pub loaders: Loaders,
}

/// The names of the notation's elements.
#[derive(Clone, Copy, Debug)]
pub struct Elements {
    pub document: &'static str,
    pub empty: &'static str,
    pub field: &'static str,
    pub fieldset: &'static str,
    pub fieldset_entry: &'static str,
    pub list: &'static str,
    pub list_item: &'static str,
    pub section: &'static str,
    pub value: &'static str,
}

/// Names the templates of [`Elements`].
#[derive(Clone, Copy, Debug, PartialEq, Eq)]
pub enum ElementKey {
    Document,
    Empty,
    Field,
    Fieldset,
    FieldsetEntry,
    List,
    ListItem,
    Section,
    Value,
}

impl Elements {
    pub open spec fn template_of(self, key: ElementKey) -> &'static str {
        match key {
            ElementKey::Document => self.document,
            ElementKey::Empty => self.empty,
            ElementKey::Field => self.field,
            ElementKey::Fieldset => self.fieldset,
            ElementKey::FieldsetEntry => self.fieldset_entry,
            ElementKey::List => self.list,
            ElementKey::ListItem => self.list_item,
            ElementKey::Section => self.section,
            ElementKey::Value => self.value,
        }
    }

    /// The template that `key` names.
    pub fn template(&self, key: ElementKey) -> (r: &'static str)
        ensures
            r == self.template_of(key),
    {
        match key {
            ElementKey::Document => self.document,
            ElementKey::Empty => self.empty,
            ElementKey::Field => self.field,
            ElementKey::Fieldset => self.fieldset,
            ElementKey::FieldsetEntry => self.fieldset_entry,
            ElementKey::List => self.list,
            ElementKey::ListItem => self.list_item,
            ElementKey::Section => self.section,
            ElementKey::Value => self.value,
        }
    }

    /// The name of the element that `el_name` names.
    pub fn msg(el: Elements, el_name: ElementKey) -> (r: &'static str)
        ensures
            r == el.template_of(el_name),
    {
        el.template(el_name)
    }
}

/// The templates of the tokenizer's diagnostics.
#[derive(Clone, Copy, Debug)]
pub struct Tokenization {
    pub invalid_line: &'static str,
    pub unterminated_block: &'static str,
    pub unterminated_escaped_name: &'static str,
}

/// The templates of problems found while the document's structure is analysed.
#[derive(Clone, Copy, Debug)]
pub struct Analysis {
    pub duplicate_fieldset_entry_name: &'static str,
    pub fieldset_entry_in_field: &'static str,
    pub fieldset_entry_in_list: &'static str,
    pub list_item_in_field: &'static str,
    pub list_item_in_fieldset: &'static str,
    pub missing_element_for_continuation: &'static str,
    pub missing_name_for_fieldset_entry: &'static str,
    pub missing_name_for_list_item: &'static str,
    pub section_hierarchy_layer_skip: &'static str,
}

/// Names the templates of [`Analysis`].
#[derive(Clone, Copy, Debug, PartialEq, Eq)]
pub enum AnalysisKey {
    DuplicateFieldsetEntryName,
    FieldsetEntryInField,
    FieldsetEntryInList,
    ListItemInField,
    ListItemInFieldset,
    MissingElementForContinuation,
    MissingNameForFieldsetEntry,
    MissingNameForListItem,
    SectionHierarchyLayerSkip,
}

impl AnalysisKey {
    /// The number of values that the template takes.
    pub open spec fn arity(self) -> nat {
        match self {
            AnalysisKey::DuplicateFieldsetEntryName => 2,
            AnalysisKey::FieldsetEntryInField => 1,
            AnalysisKey::FieldsetEntryInList => 1,
            AnalysisKey::ListItemInField => 1,
            AnalysisKey::ListItemInFieldset => 1,
            AnalysisKey::MissingElementForContinuation => 1,
            AnalysisKey::MissingNameForFieldsetEntry => 1,
            AnalysisKey::MissingNameForListItem => 1,
            AnalysisKey::SectionHierarchyLayerSkip => 1,
        }
    }

    /// The number of values that the template takes.
    pub fn value_count(&self) -> (r: usize)
        ensures
            r == self.arity(),
    {
        match *self {
            AnalysisKey::DuplicateFieldsetEntryName => 2,
            AnalysisKey::FieldsetEntryInField => 1,
            AnalysisKey::FieldsetEntryInList => 1,
            AnalysisKey::ListItemInField => 1,
            AnalysisKey::ListItemInFieldset => 1,
            AnalysisKey::MissingElementForContinuation => 1,
            AnalysisKey::MissingNameForFieldsetEntry => 1,
            AnalysisKey::MissingNameForListItem => 1,
            AnalysisKey::SectionHierarchyLayerSkip => 1,
        }
    }
}

impl Analysis {
    pub open spec fn template_of(self, key: AnalysisKey) -> &'static str {
        match key {
            AnalysisKey::DuplicateFieldsetEntryName => self.duplicate_fieldset_entry_name,
            AnalysisKey::FieldsetEntryInField => self.fieldset_entry_in_field,
            AnalysisKey::FieldsetEntryInList => self.fieldset_entry_in_list,
            AnalysisKey::ListItemInField => self.list_item_in_field,
            AnalysisKey::ListItemInFieldset => self.list_item_in_fieldset,
            AnalysisKey::MissingElementForContinuation => self.missing_element_for_continuation,
            AnalysisKey::MissingNameForFieldsetEntry => self.missing_name_for_fieldset_entry,
            AnalysisKey::MissingNameForListItem => self.missing_name_for_list_item,
            AnalysisKey::SectionHierarchyLayerSkip => self.section_hierarchy_layer_skip,
        }
    }

    /// The template that `key` names.
    pub fn template(&self, key: AnalysisKey) -> (r: &'static str)
        ensures
            r == self.template_of(key),
    {
        match key {
            AnalysisKey::DuplicateFieldsetEntryName => self.duplicate_fieldset_entry_name,
            AnalysisKey::FieldsetEntryInField => self.fieldset_entry_in_field,
            AnalysisKey::FieldsetEntryInList => self.fieldset_entry_in_list,
            AnalysisKey::ListItemInField => self.list_item_in_field,
            AnalysisKey::ListItemInFieldset => self.list_item_in_fieldset,
            AnalysisKey::MissingElementForContinuation => self.missing_element_for_continuation,
            AnalysisKey::MissingNameForFieldsetEntry => self.missing_name_for_fieldset_entry,
            AnalysisKey::MissingNameForListItem => self.missing_name_for_list_item,
            AnalysisKey::SectionHierarchyLayerSkip => self.section_hierarchy_layer_skip,
        }
    }

    /// The message for a problem in line `line`. A template that takes another number of values
    /// gives `Error`.
    pub fn msg_with_one_value(el: Analysis, el_name: AnalysisKey, line: i32) -> (r: String)
        ensures
            r@ == (if el_name.arity() == 1 {
                format_template(el.template_of(el_name)@, seq![int_chars(line as int)])
            } else {
                "Error"@
            }),
    {
        if el_name.value_count() == 1 {
            let args = one_value(int_text(line));
            format_str(el.template(el_name), &args)
        } else {
            error_text()
        }
    }

    /// The message for a problem with entry `entry_name` of fieldset `fieldset_name`. A
    /// template that takes another number of values gives `Error`.
    pub fn msg_with_two_values(
        el: Analysis,
        el_name: AnalysisKey,
        fieldset_name: &str,
        entry_name: &str,
    ) -> (r: String)
        ensures
            r@ == (if el_name.arity() == 2 {
                format_template(el.template_of(el_name)@, seq![fieldset_name@, entry_name@])
            } else {
                "Error"@
            }),
    {
        if el_name.value_count() == 2 {
            let args = two_values(String::from_str(fieldset_name), String::from_str(entry_name));
            format_str(el.template(el_name), &args)
        } else {
            error_text()
        }
    }
}

/// The templates of problems found while copies are resolved.
#[derive(Clone, Copy, Debug)]
pub struct Resolution {
    pub copying_block_into_fieldset: &'static str,
    pub copying_block_into_list: &'static str,
    pub copying_block_into_section: &'static str,
    pub copying_field_into_fieldset: &'static str,
    pub copying_field_into_list: &'static str,
    pub copying_field_into_section: &'static str,
    pub copying_fieldset_into_field: &'static str,
    pub copying_fieldset_into_list: &'static str,
    pub copying_fieldset_into_section: &'static str,
    pub copying_list_into_field: &'static str,
    pub copying_list_into_fieldset: &'static str,
    pub copying_list_into_section: &'static str,
    pub copying_section_into_empty: &'static str,
    pub copying_section_into_field: &'static str,
    pub copying_section_into_fieldset: &'static str,
    pub copying_section_into_list: &'static str,
    pub cyclic_dependency: &'static str,
    pub multiple_templates_found: &'static str,
    pub template_not_found: &'static str,
}

/// Names the templates of [`Resolution`].
#[derive(Clone, Copy, Debug, PartialEq, Eq)]
pub enum ResolutionKey {
    CopyingBlockIntoFieldset,
    CopyingBlockIntoList,
    CopyingBlockIntoSection,
    CopyingFieldIntoFieldset,
    CopyingFieldIntoList,
    CopyingFieldIntoSection,
    CopyingFieldsetIntoField,
    CopyingFieldsetIntoList,
    CopyingFieldsetIntoSection,
    CopyingListIntoField,
    CopyingListIntoFieldset,
    CopyingListIntoSection,
    CopyingSectionIntoEmpty,
    CopyingSectionIntoField,
    CopyingSectionIntoFieldset,
    CopyingSectionIntoList,
    CyclicDependency,
    MultipleTemplatesFound,
    TemplateNotFound,
}

impl ResolutionKey {
    /// The number of values that the template takes.
    pub open spec fn arity(self) -> nat {
        match self {
            ResolutionKey::CopyingBlockIntoFieldset => 1,
            ResolutionKey::CopyingBlockIntoList => 1,
            ResolutionKey::CopyingBlockIntoSection => 1,
            ResolutionKey::CopyingFieldIntoFieldset => 1,
            ResolutionKey::CopyingFieldIntoList => 1,
            ResolutionKey::CopyingFieldIntoSection => 1,
            ResolutionKey::CopyingFieldsetIntoField => 1,
            ResolutionKey::CopyingFieldsetIntoList => 1,
            ResolutionKey::CopyingFieldsetIntoSection => 1,
            ResolutionKey::CopyingListIntoField => 1,
            ResolutionKey::CopyingListIntoFieldset => 1,
            ResolutionKey::CopyingListIntoSection => 1,
            ResolutionKey::CopyingSectionIntoEmpty => 1,
            ResolutionKey::CopyingSectionIntoField => 1,
            ResolutionKey::CopyingSectionIntoFieldset => 1,
            ResolutionKey::CopyingSectionIntoList => 1,
            ResolutionKey::CyclicDependency => 2,
            ResolutionKey::MultipleTemplatesFound => 2,
            ResolutionKey::TemplateNotFound => 2,
        }
    }

    /// The number of values that the template takes.
    pub fn value_count(&self) -> (r: usize)
        ensures
            r == self.arity(),
    {
        match *self {
            ResolutionKey::CopyingBlockIntoFieldset => 1,
            ResolutionKey::CopyingBlockIntoList => 1,
            ResolutionKey::CopyingBlockIntoSection => 1,
            ResolutionKey::CopyingFieldIntoFieldset => 1,
            ResolutionKey::CopyingFieldIntoList => 1,
            ResolutionKey::CopyingFieldIntoSection => 1,
            ResolutionKey::CopyingFieldsetIntoField => 1,
            ResolutionKey::CopyingFieldsetIntoList => 1,
            ResolutionKey::CopyingFieldsetIntoSection => 1,
            ResolutionKey::CopyingListIntoField => 1,
            ResolutionKey::CopyingListIntoFieldset => 1,
            ResolutionKey::CopyingListIntoSection => 1,
            ResolutionKey::CopyingSectionIntoEmpty => 1,
            ResolutionKey::CopyingSectionIntoField => 1,
            ResolutionKey::CopyingSectionIntoFieldset => 1,
            ResolutionKey::CopyingSectionIntoList => 1,
            ResolutionKey::CyclicDependency => 2,
            ResolutionKey::MultipleTemplatesFound => 2,
            ResolutionKey::TemplateNotFound => 2,
        }
    }
}

impl Resolution {
    pub open spec fn template_of(self, key: ResolutionKey) -> &'static str {
        match key {
            ResolutionKey::CopyingBlockIntoFieldset => self.copying_block_into_fieldset,
            ResolutionKey::CopyingBlockIntoList => self.copying_block_into_list,
            ResolutionKey::CopyingBlockIntoSection => self.copying_block_into_section,
            ResolutionKey::CopyingFieldIntoFieldset => self.copying_field_into_fieldset,
            ResolutionKey::CopyingFieldIntoList => self.copying_field_into_list,
            ResolutionKey::CopyingFieldIntoSection => self.copying_field_into_section,
            ResolutionKey::CopyingFieldsetIntoField => self.copying_fieldset_into_field,
            ResolutionKey::CopyingFieldsetIntoList => self.copying_fieldset_into_list,
            ResolutionKey::CopyingFieldsetIntoSection => self.copying_fieldset_into_section,
            ResolutionKey::CopyingListIntoField => self.copying_list_into_field,
            ResolutionKey::CopyingListIntoFieldset => self.copying_list_into_fieldset,
            ResolutionKey::CopyingListIntoSection => self.copying_list_into_section,
            ResolutionKey::CopyingSectionIntoEmpty => self.copying_section_into_empty,
            ResolutionKey::CopyingSectionIntoField => self.copying_section_into_field,
            ResolutionKey::CopyingSectionIntoFieldset => self.copying_section_into_fieldset,
            ResolutionKey::CopyingSectionIntoList => self.copying_section_into_list,
            ResolutionKey::CyclicDependency => self.cyclic_dependency,
            ResolutionKey::MultipleTemplatesFound => self.multiple_templates_found,
            ResolutionKey::TemplateNotFound => self.template_not_found,
        }
    }

    /// The template that `key` names.
    pub fn template(&self, key: ResolutionKey) -> (r: &'static str)
        ensures
            r == self.template_of(key),
    {
        match key {
            ResolutionKey::CopyingBlockIntoFieldset => self.copying_block_into_fieldset,
            ResolutionKey::CopyingBlockIntoList => self.copying_block_into_list,
            ResolutionKey::CopyingBlockIntoSection => self.copying_block_into_section,
            ResolutionKey::CopyingFieldIntoFieldset => self.copying_field_into_fieldset,
            ResolutionKey::CopyingFieldIntoList => self.copying_field_into_list,
            ResolutionKey::CopyingFieldIntoSection => self.copying_field_into_section,
            ResolutionKey::CopyingFieldsetIntoField => self.copying_fieldset_into_field,
            ResolutionKey::CopyingFieldsetIntoList => self.copying_fieldset_into_list,
            ResolutionKey::CopyingFieldsetIntoSection => self.copying_fieldset_into_section,
            ResolutionKey::CopyingListIntoField => self.copying_list_into_field,
            ResolutionKey::CopyingListIntoFieldset => self.copying_list_into_fieldset,
            ResolutionKey::CopyingListIntoSection => self.copying_list_into_section,
            ResolutionKey::CopyingSectionIntoEmpty => self.copying_section_into_empty,
            ResolutionKey::CopyingSectionIntoField => self.copying_section_into_field,
            ResolutionKey::CopyingSectionIntoFieldset => self.copying_section_into_fieldset,
            ResolutionKey::CopyingSectionIntoList => self.copying_section_into_list,
            ResolutionKey::CyclicDependency => self.cyclic_dependency,
            ResolutionKey::MultipleTemplatesFound => self.multiple_templates_found,
            ResolutionKey::TemplateNotFound => self.template_not_found,
        }
    }

    /// The message for a copy in line `line`. A template that takes another number of values
    /// gives `Error`.
    pub fn msg_with_one_value(el: Resolution, el_name: ResolutionKey, line: i32) -> (r: String)
        ensures
            r@ == (if el_name.arity() == 1 {
                format_template(el.template_of(el_name)@, seq![int_chars(line as int)])
            } else {
                "Error"@
            }),
    {
        if el_name.value_count() == 1 {
            let args = one_value(int_text(line));
            format_str(el.template(el_name), &args)
        } else {
            error_text()
        }
    }

    /// The message for a copy of element `name` in line `line`. A template that takes another
    /// number of values gives `Error`.
    pub fn msg_with_two_values(
        el: Resolution,
        el_name: ResolutionKey,
        line: i32,
        name: &str,
    ) -> (r: String)
        ensures
            r@ == (if el_name.arity() == 2 {
                format_template(el.template_of(el_name)@, seq![int_chars(line as int), name@])
            } else {
                "Error"@
            }),
    {
        if el_name.value_count() == 2 {
            let args = two_values(int_text(line), String::from_str(name));
            format_str(el.template(el_name), &args)
        } else {
            error_text()
        }
    }
}

/// The templates of problems found while a document is checked against what an application expects.
#[derive(Clone, Copy, Debug)]
pub struct Validation {
    pub exact_count_not_met: &'static str,
    pub excess_name: &'static str,
    pub expected_element_got_elements: &'static str,
    pub expected_field_got_fields: &'static str,
    pub expected_field_got_fieldset: &'static str,
    pub expected_field_got_list: &'static str,
    pub expected_field_got_section: &'static str,
    pub expected_fields_got_fieldset: &'static str,
    pub expected_fields_got_list: &'static str,
    pub expected_fields_got_section: &'static str,
    pub expected_fieldset_got_field: &'static str,
    pub expected_fieldset_got_fieldsets: &'static str,
    pub expected_fieldset_got_list: &'static str,
    pub expected_fieldset_got_section: &'static str,
    pub expected_fieldsets_got_field: &'static str,
    pub expected_fieldsets_got_list: &'static str,
    pub expected_fieldsets_got_section: &'static str,
    pub expected_list_got_field: &'static str,
    pub expected_list_got_fieldset: &'static str,
    pub expected_list_got_lists: &'static str,
    pub expected_list_got_section: &'static str,
    pub expected_lists_got_field: &'static str,
    pub expected_lists_got_fieldset: &'static str,
    pub expected_lists_got_section: &'static str,
    pub expected_section_got_empty: &'static str,
    pub expected_section_got_field: &'static str,
    pub expected_section_got_fieldset: &'static str,
    pub expected_section_got_list: &'static str,
    pub expected_section_got_sections: &'static str,
    pub expected_sections_got_empty: &'static str,
    pub expected_sections_got_field: &'static str,
    pub expected_sections_got_fieldset: &'static str,
    pub expected_sections_got_list: &'static str,
    pub generic_error: &'static str,
    pub max_count_not_met: &'static str,
    pub min_count_not_met: &'static str,
    pub missing_element: &'static str,
    pub missing_field: &'static str,
    pub missing_field_value: &'static str,
    pub missing_fieldset: &'static str,
    pub missing_fieldset_entry: &'static str,
    pub missing_fieldset_entry_value: &'static str,
    pub missing_list: &'static str,
    pub missing_list_item_value: &'static str,
    pub missing_section: &'static str,
}

/// Names the templates of [`Validation`].
#[derive(Clone, Copy, Debug, PartialEq, Eq)]
pub enum ValidationKey {
    ExactCountNotMet,
    ExcessName,
    ExpectedElementGotElements,
    ExpectedFieldGotFields,
    ExpectedFieldGotFieldset,
    ExpectedFieldGotList,
    ExpectedFieldGotSection,
    ExpectedFieldsGotFieldset,
    ExpectedFieldsGotList,
    ExpectedFieldsGotSection,
    ExpectedFieldsetGotField,
    ExpectedFieldsetGotFieldsets,
    ExpectedFieldsetGotList,
    ExpectedFieldsetGotSection,
    ExpectedFieldsetsGotField,
    ExpectedFieldsetsGotList,
    ExpectedFieldsetsGotSection,
    ExpectedListGotField,
    ExpectedListGotFieldset,
    ExpectedListGotLists,
    ExpectedListGotSection,
    ExpectedListsGotField,
    ExpectedListsGotFieldset,
    ExpectedListsGotSection,
    ExpectedSectionGotEmpty,
    ExpectedSectionGotField,
    ExpectedSectionGotFieldset,
    ExpectedSectionGotList,
    ExpectedSectionGotSections,
    ExpectedSectionsGotEmpty,
    ExpectedSectionsGotField,
    ExpectedSectionsGotFieldset,
    ExpectedSectionsGotList,
    GenericError,
    MaxCountNotMet,
    MinCountNotMet,
    MissingElement,
    MissingField,
    MissingFieldValue,
    MissingFieldset,
    MissingFieldsetEntry,
    MissingFieldsetEntryValue,
    MissingList,
    MissingListItemValue,
    MissingSection,
}

impl ValidationKey {
    /// The number of values that the template takes.
    pub open spec fn arity(self) -> nat {
        match self {
            ValidationKey::ExactCountNotMet => 3,
            ValidationKey::ExcessName => 1,
            ValidationKey::ExpectedElementGotElements => 1,
            ValidationKey::ExpectedFieldGotFields => 1,
            ValidationKey::ExpectedFieldGotFieldset => 1,
            ValidationKey::ExpectedFieldGotList => 1,
            ValidationKey::ExpectedFieldGotSection => 1,
            ValidationKey::ExpectedFieldsGotFieldset => 1,
            ValidationKey::ExpectedFieldsGotList => 1,
            ValidationKey::ExpectedFieldsGotSection => 1,
            ValidationKey::ExpectedFieldsetGotField => 1,
            ValidationKey::ExpectedFieldsetGotFieldsets => 1,
            ValidationKey::ExpectedFieldsetGotList => 1,
            ValidationKey::ExpectedFieldsetGotSection => 1,
            ValidationKey::ExpectedFieldsetsGotField => 1,
            ValidationKey::ExpectedFieldsetsGotList => 1,
            ValidationKey::ExpectedFieldsetsGotSection => 1,
            ValidationKey::ExpectedListGotField => 1,
            ValidationKey::ExpectedListGotFieldset => 1,
            ValidationKey::ExpectedListGotLists => 1,
            ValidationKey::ExpectedListGotSection => 1,
            ValidationKey::ExpectedListsGotField => 1,
            ValidationKey::ExpectedListsGotFieldset => 1,
            ValidationKey::ExpectedListsGotSection => 1,
            ValidationKey::ExpectedSectionGotEmpty => 1,
            ValidationKey::ExpectedSectionGotField => 1,
            ValidationKey::ExpectedSectionGotFieldset => 1,
            ValidationKey::ExpectedSectionGotList => 1,
            ValidationKey::ExpectedSectionGotSections => 1,
            ValidationKey::ExpectedSectionsGotEmpty => 1,
            ValidationKey::ExpectedSectionsGotField => 1,
            ValidationKey::ExpectedSectionsGotFieldset => 1,
            ValidationKey::ExpectedSectionsGotList => 1,
            ValidationKey::GenericError => 1,
            ValidationKey::MaxCountNotMet => 3,
            ValidationKey::MinCountNotMet => 3,
            ValidationKey::MissingElement => 1,
            ValidationKey::MissingField => 1,
            ValidationKey::MissingFieldValue => 1,
            ValidationKey::MissingFieldset => 1,
            ValidationKey::MissingFieldsetEntry => 1,
            ValidationKey::MissingFieldsetEntryValue => 1,
            ValidationKey::MissingList => 1,
            ValidationKey::MissingListItemValue => 1,
            ValidationKey::MissingSection => 1,
        }
    }

    /// The number of values that the template takes.
    pub fn value_count(&self) -> (r: usize)
        ensures
            r == self.arity(),
    {
        match *self {
            ValidationKey::ExactCountNotMet => 3,
            ValidationKey::ExcessName => 1,
            ValidationKey::ExpectedElementGotElements => 1,
            ValidationKey::ExpectedFieldGotFields => 1,
            ValidationKey::ExpectedFieldGotFieldset => 1,
            ValidationKey::ExpectedFieldGotList => 1,
            ValidationKey::ExpectedFieldGotSection => 1,
            ValidationKey::ExpectedFieldsGotFieldset => 1,
            ValidationKey::ExpectedFieldsGotList => 1,
            ValidationKey::ExpectedFieldsGotSection => 1,
            ValidationKey::ExpectedFieldsetGotField => 1,
            ValidationKey::ExpectedFieldsetGotFieldsets => 1,
            ValidationKey::ExpectedFieldsetGotList => 1,
            ValidationKey::ExpectedFieldsetGotSection => 1,
            ValidationKey::ExpectedFieldsetsGotField => 1,
            ValidationKey::ExpectedFieldsetsGotList => 1,
            ValidationKey::ExpectedFieldsetsGotSection => 1,
            ValidationKey::ExpectedListGotField => 1,
            ValidationKey::ExpectedListGotFieldset => 1,
            ValidationKey::ExpectedListGotLists => 1,
            ValidationKey::ExpectedListGotSection => 1,
            ValidationKey::ExpectedListsGotField => 1,
            ValidationKey::ExpectedListsGotFieldset => 1,
            ValidationKey::ExpectedListsGotSection => 1,
            ValidationKey::ExpectedSectionGotEmpty => 1,
            ValidationKey::ExpectedSectionGotField => 1,
            ValidationKey::ExpectedSectionGotFieldset => 1,
            ValidationKey::ExpectedSectionGotList => 1,
            ValidationKey::ExpectedSectionGotSections => 1,
            ValidationKey::ExpectedSectionsGotEmpty => 1,
            ValidationKey::ExpectedSectionsGotField => 1,
            ValidationKey::ExpectedSectionsGotFieldset => 1,
            ValidationKey::ExpectedSectionsGotList => 1,
            ValidationKey::GenericError => 1,
            ValidationKey::MaxCountNotMet => 3,
            ValidationKey::MinCountNotMet => 3,
            ValidationKey::MissingElement => 1,
            ValidationKey::MissingField => 1,
            ValidationKey::MissingFieldValue => 1,
            ValidationKey::MissingFieldset => 1,
            ValidationKey::MissingFieldsetEntry => 1,
            ValidationKey::MissingFieldsetEntryValue => 1,
            ValidationKey::MissingList => 1,
            ValidationKey::MissingListItemValue => 1,
            ValidationKey::MissingSection => 1,
        }
    }
}

impl Validation {
    pub open spec fn template_of(self, key: ValidationKey) -> &'static str {
        match key {
            ValidationKey::ExactCountNotMet => self.exact_count_not_met,
            ValidationKey::ExcessName => self.excess_name,
            ValidationKey::ExpectedElementGotElements => self.expected_element_got_elements,
            ValidationKey::ExpectedFieldGotFields => self.expected_field_got_fields,
            ValidationKey::ExpectedFieldGotFieldset => self.expected_field_got_fieldset,
            ValidationKey::ExpectedFieldGotList => self.expected_field_got_list,
            ValidationKey::ExpectedFieldGotSection => self.expected_field_got_section,
            ValidationKey::ExpectedFieldsGotFieldset => self.expected_fields_got_fieldset,
            ValidationKey::ExpectedFieldsGotList => self.expected_fields_got_list,
            ValidationKey::ExpectedFieldsGotSection => self.expected_fields_got_section,
            ValidationKey::ExpectedFieldsetGotField => self.expected_fieldset_got_field,
            ValidationKey::ExpectedFieldsetGotFieldsets => self.expected_fieldset_got_fieldsets,
            ValidationKey::ExpectedFieldsetGotList => self.expected_fieldset_got_list,
            ValidationKey::ExpectedFieldsetGotSection => self.expected_fieldset_got_section,
            ValidationKey::ExpectedFieldsetsGotField => self.expected_fieldsets_got_field,
            ValidationKey::ExpectedFieldsetsGotList => self.expected_fieldsets_got_list,
            ValidationKey::ExpectedFieldsetsGotSection => self.expected_fieldsets_got_section,
            ValidationKey::ExpectedListGotField => self.expected_list_got_field,
            ValidationKey::ExpectedListGotFieldset => self.expected_list_got_fieldset,
            ValidationKey::ExpectedListGotLists => self.expected_list_got_lists,
            ValidationKey::ExpectedListGotSection => self.expected_list_got_section,
            ValidationKey::ExpectedListsGotField => self.expected_lists_got_field,
            ValidationKey::ExpectedListsGotFieldset => self.expected_lists_got_fieldset,
            ValidationKey::ExpectedListsGotSection => self.expected_lists_got_section,
            ValidationKey::ExpectedSectionGotEmpty => self.expected_section_got_empty,
            ValidationKey::ExpectedSectionGotField => self.expected_section_got_field,
            ValidationKey::ExpectedSectionGotFieldset => self.expected_section_got_fieldset,
            ValidationKey::ExpectedSectionGotList => self.expected_section_got_list,
            ValidationKey::ExpectedSectionGotSections => self.expected_section_got_sections,
            ValidationKey::ExpectedSectionsGotEmpty => self.expected_sections_got_empty,
            ValidationKey::ExpectedSectionsGotField => self.expected_sections_got_field,
            ValidationKey::ExpectedSectionsGotFieldset => self.expected_sections_got_fieldset,
            ValidationKey::ExpectedSectionsGotList => self.expected_sections_got_list,
            ValidationKey::GenericError => self.generic_error,
            ValidationKey::MaxCountNotMet => self.max_count_not_met,
            ValidationKey::MinCountNotMet => self.min_count_not_met,
            ValidationKey::MissingElement => self.missing_element,
            ValidationKey::MissingField => self.missing_field,
            ValidationKey::MissingFieldValue => self.missing_field_value,
            ValidationKey::MissingFieldset => self.missing_fieldset,
            ValidationKey::MissingFieldsetEntry => self.missing_fieldset_entry,
            ValidationKey::MissingFieldsetEntryValue => self.missing_fieldset_entry_value,
            ValidationKey::MissingList => self.missing_list,
            ValidationKey::MissingListItemValue => self.missing_list_item_value,
            ValidationKey::MissingSection => self.missing_section,
        }
    }

    /// The template that `key` names.
    pub fn template(&self, key: ValidationKey) -> (r: &'static str)
        ensures
            r == self.template_of(key),
    {
        match key {
            ValidationKey::ExactCountNotMet => self.exact_count_not_met,
            ValidationKey::ExcessName => self.excess_name,
            ValidationKey::ExpectedElementGotElements => self.expected_element_got_elements,
            ValidationKey::ExpectedFieldGotFields => self.expected_field_got_fields,
            ValidationKey::ExpectedFieldGotFieldset => self.expected_field_got_fieldset,
            ValidationKey::ExpectedFieldGotList => self.expected_field_got_list,
            ValidationKey::ExpectedFieldGotSection => self.expected_field_got_section,
            ValidationKey::ExpectedFieldsGotFieldset => self.expected_fields_got_fieldset,
            ValidationKey::ExpectedFieldsGotList => self.expected_fields_got_list,
            ValidationKey::ExpectedFieldsGotSection => self.expected_fields_got_section,
            ValidationKey::ExpectedFieldsetGotField => self.expected_fieldset_got_field,
            ValidationKey::ExpectedFieldsetGotFieldsets => self.expected_fieldset_got_fieldsets,
            ValidationKey::ExpectedFieldsetGotList => self.expected_fieldset_got_list,
            ValidationKey::ExpectedFieldsetGotSection => self.expected_fieldset_got_section,
            ValidationKey::ExpectedFieldsetsGotField => self.expected_fieldsets_got_field,
            ValidationKey::ExpectedFieldsetsGotList => self.expected_fieldsets_got_list,
            ValidationKey::ExpectedFieldsetsGotSection => self.expected_fieldsets_got_section,
            ValidationKey::ExpectedListGotField => self.expected_list_got_field,
            ValidationKey::ExpectedListGotFieldset => self.expected_list_got_fieldset,
            ValidationKey::ExpectedListGotLists => self.expected_list_got_lists,
            ValidationKey::ExpectedListGotSection => self.expected_list_got_section,
            ValidationKey::ExpectedListsGotField => self.expected_lists_got_field,
            ValidationKey::ExpectedListsGotFieldset => self.expected_lists_got_fieldset,
            ValidationKey::ExpectedListsGotSection => self.expected_lists_got_section,
            ValidationKey::ExpectedSectionGotEmpty => self.expected_section_got_empty,
            ValidationKey::ExpectedSectionGotField => self.expected_section_got_field,
            ValidationKey::ExpectedSectionGotFieldset => self.expected_section_got_fieldset,
            ValidationKey::ExpectedSectionGotList => self.expected_section_got_list,
            ValidationKey::ExpectedSectionGotSections => self.expected_section_got_sections,
            ValidationKey::ExpectedSectionsGotEmpty => self.expected_sections_got_empty,
            ValidationKey::ExpectedSectionsGotField => self.expected_sections_got_field,
            ValidationKey::ExpectedSectionsGotFieldset => self.expected_sections_got_fieldset,
            ValidationKey::ExpectedSectionsGotList => self.expected_sections_got_list,
            ValidationKey::GenericError => self.generic_error,
            ValidationKey::MaxCountNotMet => self.max_count_not_met,
            ValidationKey::MinCountNotMet => self.min_count_not_met,
            ValidationKey::MissingElement => self.missing_element,
            ValidationKey::MissingField => self.missing_field,
            ValidationKey::MissingFieldValue => self.missing_field_value,
            ValidationKey::MissingFieldset => self.missing_fieldset,
            ValidationKey::MissingFieldsetEntry => self.missing_fieldset_entry,
            ValidationKey::MissingFieldsetEntryValue => self.missing_fieldset_entry_value,
            ValidationKey::MissingList => self.missing_list,
            ValidationKey::MissingListItemValue => self.missing_list_item_value,
            ValidationKey::MissingSection => self.missing_section,
        }
    }

    /// The message for a problem with element `name`. A template that takes another number of
    /// values gives `Error`.
    pub fn msg_with_one_value(el: Validation, el_name: ValidationKey, name: &str) -> (r: String)
        ensures
            r@ == (if el_name.arity() == 1 {
                format_template(el.template_of(el_name)@, seq![name@])
            } else {
                "Error"@
            }),
    {
        if el_name.value_count() == 1 {
            let args = one_value(String::from_str(name));
            format_str(el.template(el_name), &args)
        } else {
            error_text()
        }
    }

    /// The message for list `name` with `actual` items where `expected` were asked for. A
    /// template that takes another number of values gives `Error`.
    pub fn msg_with_three_values(
        el: Validation,
        el_name: ValidationKey,
        name: &str,
        actual: i32,
        expected: i32,
    ) -> (r: String)
        ensures
            r@ == (if el_name.arity() == 3 {
                format_template(el.template_of(el_name)@, seq![name@, int_chars(actual as int), int_chars(expected as int)])
            } else {
                "Error"@
            }),
    {
        if el_name.value_count() == 3 {
            let args = three_values(String::from_str(name), int_text(actual), int_text(expected));
            format_str(el.template(el_name), &args)
        } else {
            error_text()
        }
    }
}

/// The templates of problems found while values are loaded into types.
#[derive(Clone, Copy, Debug)]
pub struct Loaders {
    pub invalid_boolean: &'static str,
    pub invalid_color: &'static str,
    pub invalid_date: &'static str,
    pub invalid_datetime: &'static str,
    pub invalid_email: &'static str,
    pub invalid_float: &'static str,
    pub invalid_integer: &'static str,
    pub invalid_json: &'static str,
    pub invalid_lat_lng: &'static str,
    pub invalid_url: &'static str,
}

/// Names the templates of [`Loaders`].
#[derive(Clone, Copy, Debug, PartialEq, Eq)]
pub enum LoadersKey {
    InvalidBoolean,
    InvalidColor,
    InvalidDate,
    InvalidDatetime,
    InvalidEmail,
    InvalidFloat,
    InvalidInteger,
    InvalidJson,
    InvalidLatLng,
    InvalidUrl,
}

impl LoadersKey {
    /// The number of values that the template takes.
    pub open spec fn arity(self) -> nat {
        match self {
            LoadersKey::InvalidBoolean => 1,
            LoadersKey::InvalidColor => 1,
            LoadersKey::InvalidDate => 1,
            LoadersKey::InvalidDatetime => 1,
            LoadersKey::InvalidEmail => 1,
            LoadersKey::InvalidFloat => 1,
            LoadersKey::InvalidInteger => 1,
            LoadersKey::InvalidJson => 2,
            LoadersKey::InvalidLatLng => 1,
            LoadersKey::InvalidUrl => 1,
        }
    }

    /// The number of values that the template takes.
    pub fn value_count(&self) -> (r: usize)
        ensures
            r == self.arity(),
    {
        match *self {
            LoadersKey::InvalidBoolean => 1,
            LoadersKey::InvalidColor => 1,
            LoadersKey::InvalidDate => 1,
            LoadersKey::InvalidDatetime => 1,
            LoadersKey::InvalidEmail => 1,
            LoadersKey::InvalidFloat => 1,
            LoadersKey::InvalidInteger => 1,
            LoadersKey::InvalidJson => 2,
            LoadersKey::InvalidLatLng => 1,
            LoadersKey::InvalidUrl => 1,
        }
    }
}

impl Loaders {
    pub open spec fn template_of(self, key: LoadersKey) -> &'static str {
        match key {
            LoadersKey::InvalidBoolean => self.invalid_boolean,
            LoadersKey::InvalidColor => self.invalid_color,
            LoadersKey::InvalidDate => self.invalid_date,
            LoadersKey::InvalidDatetime => self.invalid_datetime,
            LoadersKey::InvalidEmail => self.invalid_email,
            LoadersKey::InvalidFloat => self.invalid_float,
            LoadersKey::InvalidInteger => self.invalid_integer,
            LoadersKey::InvalidJson => self.invalid_json,
            LoadersKey::InvalidLatLng => self.invalid_lat_lng,
            LoadersKey::InvalidUrl => self.invalid_url,
        }
    }

    /// The template that `key` names.
    pub fn template(&self, key: LoadersKey) -> (r: &'static str)
        ensures
            r == self.template_of(key),
    {
        match key {
            LoadersKey::InvalidBoolean => self.invalid_boolean,
            LoadersKey::InvalidColor => self.invalid_color,
            LoadersKey::InvalidDate => self.invalid_date,
            LoadersKey::InvalidDatetime => self.invalid_datetime,
            LoadersKey::InvalidEmail => self.invalid_email,
            LoadersKey::InvalidFloat => self.invalid_float,
            LoadersKey::InvalidInteger => self.invalid_integer,
            LoadersKey::InvalidJson => self.invalid_json,
            LoadersKey::InvalidLatLng => self.invalid_lat_lng,
            LoadersKey::InvalidUrl => self.invalid_url,
        }
    }

    /// The message for a value of element `name` that cannot be loaded. A template that takes
    /// another number of values gives `Error`.
    pub fn msg_with_one_value(el: Loaders, el_name: LoadersKey, name: &str) -> (r: String)
        ensures
            r@ == (if el_name.arity() == 1 {
                format_template(el.template_of(el_name)@, seq![name@])
            } else {
                "Error"@
            }),
    {
        if el_name.value_count() == 1 {
            let args = one_value(String::from_str(name));
            format_str(el.template(el_name), &args)
        } else {
            error_text()
        }
    }

    /// The message for a value of element `name` that cannot be loaded, with the loader's own
    /// `error`. A template that takes another number of values gives `Error`.
    pub fn masg_with_two_values(
        el: Loaders,
        el_name: LoadersKey,
        name: &str,
        error: &str,
    ) -> (r: String)
        ensures
            r@ == (if el_name.arity() == 2 {
                format_template(el.template_of(el_name)@, seq![name@, error@])
            } else {
                "Error"@
            }),
    {
        if el_name.value_count() == 2 {
            let args = two_values(String::from_str(name), String::from_str(error));
            format_str(el.template(el_name), &args)
        } else {
            error_text()
        }
    }
}

impl Tokenization {
    pub open spec fn template_of(self, key: ErrorKey) -> &'static str {
        match key {
            ErrorKey::InvalidLine => self.invalid_line,
            ErrorKey::UnterminatedBlock => self.unterminated_block,
            ErrorKey::UnterminatedEscapedName => self.unterminated_escaped_name,
        }
    }

    /// The message for diagnostic `instruction`: its line is counted from
    /// `indexing`; an unterminated block names the block, `name`, first.
    pub fn error_msg(el: &Tokenization, indexing: usize, instruction: &Diagnostic, name: &str) -> (r: String)
        ensures
            r@ == error_message(*el, indexing as int, *instruction, name@),
    {
        match instruction.key {
            ErrorKey::UnterminatedBlock => {
                let line = nat_text(instruction.line as u128 + indexing as u128);
                let args = two_values(String::from_str(name), line);
                format_str(el.unterminated_block, &args)
            },
            ErrorKey::UnterminatedEscapedName => unterminated_escaped_name(el, indexing, instruction),
            ErrorKey::InvalidLine => {
                let line = nat_text(instruction.line as u128 + indexing as u128);
                let args = one_value(line);
                format_str(el.invalid_line, &args)
            },
        }
    }
}

/// The message for diagnostic `d` with lines counted from `indexing`; `name`
/// is the name of an unterminated block.
pub open spec fn error_message(el: Tokenization, indexing: int, d: Diagnostic, name: Seq<char>) -> Seq<char> {
    let line = digits((d.line + indexing) as nat);
    match d.key {
        ErrorKey::UnterminatedBlock => format_template(el.unterminated_block@, seq![name, line]),
        _ => format_template(el.template_of(d.key)@, seq![line]),
    }
}

/// The message for an escaped name that line `instruction.line` (counted
/// from `indexing`) leaves open.
pub fn unterminated_escaped_name(el: &Tokenization, indexing: usize, instruction: &Diagnostic) -> (r: String)
    ensures
        r@ == format_template(el.unterminated_escaped_name@, seq![digits((instruction.line + indexing) as nat)]),
{
    let line = nat_text(instruction.line as u128 + indexing as u128);
    let args = one_value(line);
    format_str(el.unterminated_escaped_name, &args)
}

impl Messages {
    /// The templates of `locale`; only `en` is known.
    pub fn get_messages(locale: &str) -> (r: Option<Messages>)
        ensures
            r is Some <==> locale@ == "en"@,
            r matches Some(m) ==> m == en_messages(),
    {
        proof {
            reveal_strlit("en");
        }
        if locale.unicode_len() == 2 && locale.get_char(0) == 'e' && locale.get_char(1) == 'n' {
            assert(locale@ =~= "en"@);
            Some(get_en_messages())
        } else {
            assert(locale@ != "en"@) by {
                if locale@ == "en"@ {
                    assert(locale@[0] == 'e' && locale@[1] == 'n');
                }
            }
            None
        }
    }
}

/// The English templates.
pub open spec fn en_messages() -> Messages {
    Messages {
        elements: Elements {
            document: "Document",
            empty: "Empty Element",
            field: "Field",
            fieldset: "Fieldset",
            fieldset_entry: "Fieldset Entry",
            list: "List",
            list_item: "List Item",
            section: "Section",
            value: "Value",
        },
        tokenization: Tokenization {
            invalid_line: "Line {} does not follow any specified pattern.",
            unterminated_block: "The block '{}' starting in line {} is not terminated until the end of the document.",
            unterminated_escaped_name: "In line {} the name of an element is escaped, but the escape sequence is not terminated until the end of the line.",
        },
        analysis: Analysis {
            duplicate_fieldset_entry_name: "The fieldset '{}' contains two entries named '{}'.",
            fieldset_entry_in_field: "Line {} contains a fieldset entry inside a field.",
            fieldset_entry_in_list: "Line {} contains a fieldset entry inside a list.",
            list_item_in_field: "Line {} contains a list item inside a field.",
            list_item_in_fieldset: "Line {} contains a list item inside a fieldset.",
            missing_element_for_continuation: "Line {} contains a continuation without any continuable element being specified before.",
            missing_name_for_fieldset_entry: "Line {} contains a fieldset entry without a name for a fieldset being specified before.",
            missing_name_for_list_item: "Line {} contains a list item without a name for a list being specified before.",
            section_hierarchy_layer_skip: "Line {} starts a section that is more than one level deeper than the current one.",
        },
        resolution: Resolution {
            copying_block_into_fieldset: "In line {} a block is copied into a fieldset.",
            copying_block_into_list: "In line {} a block is copied into a list.",
            copying_block_into_section: "In line {} a block is copied into a section.",
            copying_field_into_fieldset: "In line {} a field is copied into a fieldset.",
            copying_field_into_list: "In line {} a field is copied into a list.",
            copying_field_into_section: "In line {} a field is copied into a section.",
            copying_fieldset_into_field: "In line {} a fieldset is copied into a field.",
            copying_fieldset_into_list: "In line {} a fieldset is copied into a list.",
            copying_fieldset_into_section: "In line {} a fieldset is copied into a section.",
            copying_list_into_field: "In line {} a list is copied into a field.",
            copying_list_into_fieldset: "In line {} a list is copied into a fieldset.",
            copying_list_into_section: "In line {} a list is copied into a section.",
            copying_section_into_empty: "In line {} a section is copied into an empty element.",
            copying_section_into_field: "In line {} a section is copied into a field.",
            copying_section_into_fieldset: "In line {} a section is copied into a fieldset.",
            copying_section_into_list: "In line {} a section is copied into a list.",
            cyclic_dependency: "In line {} '{}' is copied into itself.",
            multiple_templates_found: "In line {} it is not clear which of the elements named '{}' should be copied.",
            template_not_found: "In line {} the element '{}' should be copied, but it was not found.",
        },
        validation: Validation {
            exact_count_not_met: "The list '{}' contains {} items, but must contain exactly {} items.",
            excess_name: "An excess element named '{}' was found, is it possibly a typo?",
            expected_element_got_elements: "Instead of the expected single element '{}' several elements with this name were found.",
            expected_field_got_fields: "Instead of the expected single field '{}' several fields with this name were found.",
            expected_field_got_fieldset: "Instead of the expected field '{}' a fieldset with this name was found.",
            expected_field_got_list: "Instead of the expected field '{}' a list with this name was found.",
            expected_field_got_section: "Instead of the expected field '{}' a section with this name was found.",
            expected_fields_got_fieldset: "Only fields with the name '{}' were expected, but a fieldset with this name was found.",
            expected_fields_got_list: "Only fields with the name '{}' were expected, but a list with this name was found.",
            expected_fields_got_section: "Only fields with the name '{}' were expected, but a section with this name was found.",
            expected_fieldset_got_field: "Instead of the expected fieldset '{}' a field with this name was found.",
            expected_fieldset_got_fieldsets: "Instead of the expected single fieldset '{}' several fieldsets with this name were found.",
            expected_fieldset_got_list: "Instead of the expected fieldset '{}' a list with this name was found.",
            expected_fieldset_got_section: "Instead of the expected fieldset '{}' a section with this name was found.",
            expected_fieldsets_got_field: "Only fieldsets with the name '{}' were expected, but a field with this name was found.",
            expected_fieldsets_got_list: "Only fieldsets with the name '{}' were expected, but a list with this name was found.",
            expected_fieldsets_got_section: "Only fieldsets with the name '{}' were expected, but a section with this name was found.",
            expected_list_got_field: "Instead of the expected list '{}' a field with this name was found.",
            expected_list_got_fieldset: "Instead of the expected list '{}' a fieldset with this name was found.",
            expected_list_got_lists: "Instead of the expected single list '{}' several lists with this name were found.",
            expected_list_got_section: "Instead of the expected list '{}' a section with this name was found.",
            expected_lists_got_field: "Only lists with the name '{}' were expected, but a field with this name was found.",
            expected_lists_got_fieldset: "Only lists with the name '{}' were expected, but a fieldset with this name was found.",
            expected_lists_got_section: "Only lists with the name '{}' were expected, but a section with this name was found.",
            expected_section_got_empty: "Instead of the expected section '{}' an empty element with this name was found.",
            expected_section_got_field: "Instead of the expected section '{}' a field with this name was found.",
            expected_section_got_fieldset: "Instead of the expected section '{}' a fieldset with this name was found.",
            expected_section_got_list: "Instead of the expected section '{}' a list with this name was found.",
            expected_section_got_sections: "Instead of the expected single section '{}' several sections with this name were found.",
            expected_sections_got_empty: "Only sections with the name '{}' were expected, but an empty element with this name was found.",
            expected_sections_got_field: "Only sections with the name '{}' were expected, but a field with this name was found.",
            expected_sections_got_fieldset: "Only sections with the name '{}' were expected, but a fieldset with this name was found.",
            expected_sections_got_list: "Only sections with the name '{}' were expected, but a list with this name was found.",
            generic_error: "There is a problem with the value of the element '{}'.",
            max_count_not_met: "The list '{}' contains {} items, but may only contain a maximum of {} items.",
            min_count_not_met: "The list '{}' contains {} items, but must contain at least {} items.",
            missing_element: "The element '{}' is missing - in case it has been specified look for typos and also check for correct capitalization.",
            missing_field: "The field '{}' is missing - in case it has been specified look for typos and also check for correct capitalization.",
            missing_field_value: "The field '{}' must contain a value.",
            missing_fieldset: "The fieldset '{}' is missing - in case it has been specified look for typos and also check for correct capitalization.",
            missing_fieldset_entry: "The fieldset entry '{}' is missing - in case it has been specified look for typos and also check for correct capitalization.",
            missing_fieldset_entry_value: "The fieldset entry '{}' must contain a value.",
            missing_list: "The list '{}' is missing - in case it has been specified look for typos and also check for correct capitalization.",
            missing_list_item_value: "The list '{}' may not contain empty items.",
            missing_section: "The section '{}' is missing - in case it has been specified look for typos and also check for correct capitalization.",
        },
        loaders: Loaders {
            invalid_boolean: "'{}' must contain a boolean - allowed values are 'true', 'false', 'yes' and 'no'.",
            invalid_color: "'{}' must contain a color, for instance '#B6D918', '#fff' or '#01b'.",
            invalid_date: "'{}' must contain a valid date, for instance '1993-11-18'.",
            invalid_datetime: "'{}' must contain a valid date or date and time, for instance '1961-01-22' or '1989-11-09T19:17Z' (see https://www.w3.org/TR/NOTE-datetime).",
            invalid_email: "'{}' must contain a valid email address, for instance 'jane.doe@eno-lang.org'.",
            invalid_float: "'{}' must contain a decimal number, for instance '13.0', '-9.159' or '42'.",
            invalid_integer: "'{}' must contain an integer, for instance '42' or '-21'.",
            invalid_json: "'{}' must contain valid JSON - the parser returned: '{}'.",
            invalid_lat_lng: "'{}' must contain a valid latitude/longitude coordinate pair, for instance '48.2093723, 16.356099'.",
            invalid_url: "'{}' must contain a valid URL, for instance 'https://eno-lang.org'.",
        },
    }
}

fn get_en_messages() -> (r: Messages)
    ensures
        r == en_messages(),
{
    Messages {
        elements: Elements {
            document: "Document",
            empty: "Empty Element",
            field: "Field",
            fieldset: "Fieldset",
            fieldset_entry: "Fieldset Entry",
            list: "List",
            list_item: "List Item",
            section: "Section",
            value: "Value",
        },
        tokenization: Tokenization {
            invalid_line: "Line {} does not follow any specified pattern.",
            unterminated_block: "The block '{}' starting in line {} is not terminated until the end of the document.",
            unterminated_escaped_name: "In line {} the name of an element is escaped, but the escape sequence is not terminated until the end of the line.",
        },
        analysis: Analysis {
            duplicate_fieldset_entry_name: "The fieldset '{}' contains two entries named '{}'.",
            fieldset_entry_in_field: "Line {} contains a fieldset entry inside a field.",
            fieldset_entry_in_list: "Line {} contains a fieldset entry inside a list.",
            list_item_in_field: "Line {} contains a list item inside a field.",
            list_item_in_fieldset: "Line {} contains a list item inside a fieldset.",
            missing_element_for_continuation: "Line {} contains a continuation without any continuable element being specified before.",
            missing_name_for_fieldset_entry: "Line {} contains a fieldset entry without a name for a fieldset being specified before.",
            missing_name_for_list_item: "Line {} contains a list item without a name for a list being specified before.",
            section_hierarchy_layer_skip: "Line {} starts a section that is more than one level deeper than the current one.",
        },
        resolution: Resolution {
            copying_block_into_fieldset: "In line {} a block is copied into a fieldset.",
            copying_block_into_list: "In line {} a block is copied into a list.",
            copying_block_into_section: "In line {} a block is copied into a section.",
            copying_field_into_fieldset: "In line {} a field is copied into a fieldset.",
            copying_field_into_list: "In line {} a field is copied into a list.",
            copying_field_into_section: "In line {} a field is copied into a section.",
            copying_fieldset_into_field: "In line {} a fieldset is copied into a field.",
            copying_fieldset_into_list: "In line {} a fieldset is copied into a list.",
            copying_fieldset_into_section: "In line {} a fieldset is copied into a section.",
            copying_list_into_field: "In line {} a list is copied into a field.",
            copying_list_into_fieldset: "In line {} a list is copied into a fieldset.",
            copying_list_into_section: "In line {} a list is copied into a section.",
            copying_section_into_empty: "In line {} a section is copied into an empty element.",
            copying_section_into_field: "In line {} a section is copied into a field.",
            copying_section_into_fieldset: "In line {} a section is copied into a fieldset.",
            copying_section_into_list: "In line {} a section is copied into a list.",
            cyclic_dependency: "In line {} '{}' is copied into itself.",
            multiple_templates_found: "In line {} it is not clear which of the elements named '{}' should be copied.",
            template_not_found: "In line {} the element '{}' should be copied, but it was not found.",
        },
        validation: Validation {
            exact_count_not_met: "The list '{}' contains {} items, but must contain exactly {} items.",
            excess_name: "An excess element named '{}' was found, is it possibly a typo?",
            expected_element_got_elements: "Instead of the expected single element '{}' several elements with this name were found.",
            expected_field_got_fields: "Instead of the expected single field '{}' several fields with this name were found.",
            expected_field_got_fieldset: "Instead of the expected field '{}' a fieldset with this name was found.",
            expected_field_got_list: "Instead of the expected field '{}' a list with this name was found.",
            expected_field_got_section: "Instead of the expected field '{}' a section with this name was found.",
            expected_fields_got_fieldset: "Only fields with the name '{}' were expected, but a fieldset with this name was found.",
            expected_fields_got_list: "Only fields with the name '{}' were expected, but a list with this name was found.",
            expected_fields_got_section: "Only fields with the name '{}' were expected, but a section with this name was found.",
            expected_fieldset_got_field: "Instead of the expected fieldset '{}' a field with this name was found.",
            expected_fieldset_got_fieldsets: "Instead of the expected single fieldset '{}' several fieldsets with this name were found.",
            expected_fieldset_got_list: "Instead of the expected fieldset '{}' a list with this name was found.",
            expected_fieldset_got_section: "Instead of the expected fieldset '{}' a section with this name was found.",
            expected_fieldsets_got_field: "Only fieldsets with the name '{}' were expected, but a field with this name was found.",
            expected_fieldsets_got_list: "Only fieldsets with the name '{}' were expected, but a list with this name was found.",
            expected_fieldsets_got_section: "Only fieldsets with the name '{}' were expected, but a section with this name was found.",
            expected_list_got_field: "Instead of the expected list '{}' a field with this name was found.",
            expected_list_got_fieldset: "Instead of the expected list '{}' a fieldset with this name was found.",
            expected_list_got_lists: "Instead of the expected single list '{}' several lists with this name were found.",
            expected_list_got_section: "Instead of the expected list '{}' a section with this name was found.",
            expected_lists_got_field: "Only lists with the name '{}' were expected, but a field with this name was found.",
            expected_lists_got_fieldset: "Only lists with the name '{}' were expected, but a fieldset with this name was found.",
            expected_lists_got_section: "Only lists with the name '{}' were expected, but a section with this name was found.",
            expected_section_got_empty: "Instead of the expected section '{}' an empty element with this name was found.",
            expected_section_got_field: "Instead of the expected section '{}' a field with this name was found.",
            expected_section_got_fieldset: "Instead of the expected section '{}' a fieldset with this name was found.",
            expected_section_got_list: "Instead of the expected section '{}' a list with this name was found.",
            expected_section_got_sections: "Instead of the expected single section '{}' several sections with this name were found.",
            expected_sections_got_empty: "Only sections with the name '{}' were expected, but an empty element with this name was found.",
            expected_sections_got_field: "Only sections with the name '{}' were expected, but a field with this name was found.",
            expected_sections_got_fieldset: "Only sections with the name '{}' were expected, but a fieldset with this name was found.",
            expected_sections_got_list: "Only sections with the name '{}' were expected, but a list with this name was found.",
            generic_error: "There is a problem with the value of the element '{}'.",
            max_count_not_met: "The list '{}' contains {} items, but may only contain a maximum of {} items.",
            min_count_not_met: "The list '{}' contains {} items, but must contain at least {} items.",
            missing_element: "The element '{}' is missing - in case it has been specified look for typos and also check for correct capitalization.",
            missing_field: "The field '{}' is missing - in case it has been specified look for typos and also check for correct capitalization.",
            missing_field_value: "The field '{}' must contain a value.",
            missing_fieldset: "The fieldset '{}' is missing - in case it has been specified look for typos and also check for correct capitalization.",
            missing_fieldset_entry: "The fieldset entry '{}' is missing - in case it has been specified look for typos and also check for correct capitalization.",
            missing_fieldset_entry_value: "The fieldset entry '{}' must contain a value.",
            missing_list: "The list '{}' is missing - in case it has been specified look for typos and also check for correct capitalization.",
            missing_list_item_value: "The list '{}' may not contain empty items.",
            missing_section: "The section '{}' is missing - in case it has been specified look for typos and also check for correct capitalization.",
        },
        loaders: Loaders {
            invalid_boolean: "'{}' must contain a boolean - allowed values are 'true', 'false', 'yes' and 'no'.",
            invalid_color: "'{}' must contain a color, for instance '#B6D918', '#fff' or '#01b'.",
            invalid_date: "'{}' must contain a valid date, for instance '1993-11-18'.",
            invalid_datetime: "'{}' must contain a valid date or date and time, for instance '1961-01-22' or '1989-11-09T19:17Z' (see https://www.w3.org/TR/NOTE-datetime).",
            invalid_email: "'{}' must contain a valid email address, for instance 'jane.doe@eno-lang.org'.",
            invalid_float: "'{}' must contain a decimal number, for instance '13.0', '-9.159' or '42'.",
            invalid_integer: "'{}' must contain an integer, for instance '42' or '-21'.",
            invalid_json: "'{}' must contain valid JSON - the parser returned: '{}'.",
            invalid_lat_lng: "'{}' must contain a valid latitude/longitude coordinate pair, for instance '48.2093723, 16.356099'.",
            invalid_url: "'{}' must contain a valid URL, for instance 'https://eno-lang.org'.",
        },
    }
}

} // verus!
