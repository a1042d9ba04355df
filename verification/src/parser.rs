//! The rule engine: an ordered set of independent inference topics, each fed
//! one line at a time, writing into the settings model the first time its
//! pattern fires.  `check_step` is the spec-level image of one engine pass;
//! the executable engine is proved to follow it exactly.

use crate::clang_format_lib::{
    ClangFormatSettings, ClangFormatSettingsView, Parser, SettingView, ALIGNMENT,
    AlignmentSettingsView, BreakBeforeBracesSettingsView, SpaceBeforeParensSettingsView,
    SpaceBeforeSettingsView, SpacesInParensSettingsView,
};
use crate::text::{contains_seq, first_match_at, lemma_first_match_at, sat_u32, str_contains, str_find};
use vstd::prelude::*;

verus! {

/// One line of reference text as the rules see it, together with the
/// end-of-input flag that lets aggregate rules conclude.
pub struct LineInfo {
    pub line: String,
    pub finished: bool,
}

pub ghost struct LineInfoView {
    pub line: Seq<char>,
    pub finished: bool,
}

impl View for LineInfo {
    type V = LineInfoView;

    open spec fn view(&self) -> LineInfoView {
        LineInfoView { line: self.line@, finished: self.finished }
    }
}

impl LineInfo {
    /// Whether the line contains `search`.
    pub fn find(&self, search: &str) -> (r: bool)
        ensures
            r == contains_seq(self@.line, search@),
    {
        str_contains(self.line.as_str(), search)
    }

    /// Whether the line lacks `search`.
    pub fn without(&self, search: &str) -> (r: bool)
        ensures
            r == !contains_seq(self@.line, search@),
    {
        !self.find(search)
    }
}

/// Running state of the blank-line aggregate rule.
pub struct EmptyLines {
    pub max_consecutive_empty_lines: u32,
    pub consecutive_empty_lines: u32,
}

/// One more blank line: the run grows (saturating) and the maximum follows.
pub open spec fn empty_increment(e: EmptyLines) -> EmptyLines {
    let c: u32 = if e.consecutive_empty_lines < u32::MAX {
        (e.consecutive_empty_lines + 1) as u32
    } else {
        e.consecutive_empty_lines
    };
    EmptyLines {
        consecutive_empty_lines: c,
        max_consecutive_empty_lines: if c > e.max_consecutive_empty_lines {
            c
        } else {
            e.max_consecutive_empty_lines
        },
    }
}

impl EmptyLines {
    /// Extends the current run of blank lines.
    pub fn increment(&mut self)
        ensures
            *final(self) == empty_increment(*old(self)),
    {
        if self.consecutive_empty_lines < u32::MAX {
            self.consecutive_empty_lines = self.consecutive_empty_lines + 1;
        }
        if self.consecutive_empty_lines > self.max_consecutive_empty_lines {
            self.max_consecutive_empty_lines = self.consecutive_empty_lines;
        }
    }

    /// A non-blank line ends the run.
    pub fn reset(&mut self)
        ensures
            *final(self) == (EmptyLines { consecutive_empty_lines: 0, ..*old(self) }),
    {
        self.consecutive_empty_lines = 0;
    }
}

/// Running state of the space-before-parens aggregate rule.
pub struct SpaceAfter {
    pub space_after_if: bool,
    pub space_after_function: bool,
}

/// Substring-presence topic: the first line naming `namespace` (outside a
/// closing comment) fixes brace placement after namespaces.
pub open spec fn topic_namespace(
    s: ClangFormatSettingsView,
    line: Seq<char>,
) -> ClangFormatSettingsView {
    if s.break_before_braces.after_namespace.value is None && contains_seq(line, "namespace"@)
        && !contains_seq(line, "// namespace"@) {
        ClangFormatSettingsView {
            break_before_braces: BreakBeforeBracesSettingsView {
                after_namespace: SettingView {
                    value: Some(!contains_seq(line, "{"@)),
                    ..s.break_before_braces.after_namespace
                },
                ..s.break_before_braces
            },
            ..s
        }
    } else {
        s
    }
}

pub open spec fn topic_class(
    s: ClangFormatSettingsView,
    line: Seq<char>,
) -> ClangFormatSettingsView {
    if s.break_before_braces.after_class.value is None && contains_seq(line, "class"@) {
        ClangFormatSettingsView {
            break_before_braces: BreakBeforeBracesSettingsView {
                after_class: SettingView {
                    value: Some(!contains_seq(line, "{"@)),
                    ..s.break_before_braces.after_class
                },
                ..s.break_before_braces
            },
            ..s
        }
    } else {
        s
    }
}

pub open spec fn topic_struct(
    s: ClangFormatSettingsView,
    line: Seq<char>,
) -> ClangFormatSettingsView {
    if s.break_before_braces.after_struct.value is None && contains_seq(line, "struct"@) {
        ClangFormatSettingsView {
            break_before_braces: BreakBeforeBracesSettingsView {
                after_struct: SettingView {
                    value: Some(!contains_seq(line, "{"@)),
                    ..s.break_before_braces.after_struct
                },
                ..s.break_before_braces
            },
            ..s
        }
    } else {
        s
    }
}

pub open spec fn topic_enum(
    s: ClangFormatSettingsView,
    line: Seq<char>,
) -> ClangFormatSettingsView {
    if s.break_before_braces.after_enum.value is None && contains_seq(line, "enum"@) {
        ClangFormatSettingsView {
            break_before_braces: BreakBeforeBracesSettingsView {
                after_enum: SettingView {
                    value: Some(!contains_seq(line, "{"@)),
                    ..s.break_before_braces.after_enum
                },
                ..s.break_before_braces
            },
            ..s
        }
    } else {
        s
    }
}

/// The reference class's constructor line (not its declaration) fixes brace
/// placement after function definitions.
pub open spec fn topic_function(
    s: ClangFormatSettingsView,
    line: Seq<char>,
) -> ClangFormatSettingsView {
    if s.break_before_braces.after_function.value is None && contains_seq(
        line,
        "ReferenceClass"@,
    ) && !contains_seq(line, "class"@) {
        ClangFormatSettingsView {
            break_before_braces: BreakBeforeBracesSettingsView {
                after_function: SettingView {
                    value: Some(!contains_seq(line, "{"@)),
                    ..s.break_before_braces.after_function
                },
                ..s.break_before_braces
            },
            ..s
        }
    } else {
        s
    }
}

/// Positional topic: the offset of the sentinel enumerator gives the indent
/// width.
pub open spec fn topic_indent(
    s: ClangFormatSettingsView,
    line: Seq<char>,
) -> ClangFormatSettingsView {
    if s.indent_width.value is None && contains_seq(line, "TYPE_A"@) {
        ClangFormatSettingsView {
            indent_width: SettingView {
                value: Some(sat_u32(first_match_at(line, "TYPE_A"@))),
                ..s.indent_width
            },
            ..s
        }
    } else {
        s
    }
}

/// Whole-line-length topic: the max-width marker line's character count gives
/// the column limit.
pub open spec fn topic_max_width(
    s: ClangFormatSettingsView,
    line: Seq<char>,
) -> ClangFormatSettingsView {
    if s.column_limit.value is None && contains_seq(line, "MAX WIDTH"@) {
        ClangFormatSettingsView {
            column_limit: SettingView { value: Some(sat_u32(line.len() as int)), ..s.column_limit },
            ..s
        }
    } else {
        s
    }
}

/// Bracket-spacing topic: the first line with a square bracket fixes both
/// bracket-spacing switches.
pub open spec fn topic_brackets(
    s: ClangFormatSettingsView,
    line: Seq<char>,
) -> ClangFormatSettingsView {
    if s.spaces_in_square_brackets.value is None && contains_seq(line, "["@) {
        ClangFormatSettingsView {
            spaces_in_square_brackets: SettingView {
                value: Some(contains_seq(line, "[ 5 ]"@)),
                ..s.spaces_in_square_brackets
            },
            space_before: SpaceBeforeSettingsView {
                space_before_square_brackets: SettingView {
                    value: Some(contains_seq(line, " ["@)),
                    ..s.space_before.space_before_square_brackets
                },
                ..s.space_before
            },
            ..s
        }
    } else {
        s
    }
}

/// Assignment-spacing topic.
pub open spec fn topic_assignment(
    s: ClangFormatSettingsView,
    line: Seq<char>,
) -> ClangFormatSettingsView {
    if s.space_before.space_before_assignment_operators.value is None && contains_seq(
        line,
        "="@,
    ) {
        ClangFormatSettingsView {
            space_before: SpaceBeforeSettingsView {
                space_before_assignment_operators: SettingView {
                    value: Some(contains_seq(line, " ="@)),
                    ..s.space_before.space_before_assignment_operators
                },
                ..s.space_before
            },
            ..s
        }
    } else {
        s
    }
}

/// Comment-tail topic: fires on a namespace-closing comment; at end of input
/// an absent comment explicitly resolves the switch to `false`.
pub open spec fn topic_namespace_comment(
    s: ClangFormatSettingsView,
    line: Seq<char>,
    finished: bool,
) -> ClangFormatSettingsView {
    if s.fix_namespace_comments.value is None {
        if finished {
            ClangFormatSettingsView {
                fix_namespace_comments: SettingView {
                    value: Some(false),
                    ..s.fix_namespace_comments
                },
                ..s
            }
        } else if contains_seq(line, "// namespace"@) {
            ClangFormatSettingsView {
                fix_namespace_comments: SettingView {
                    value: Some(true),
                    ..s.fix_namespace_comments
                },
                ..s
            }
        } else {
            s
        }
    } else {
        s
    }
}

/// The three pointer patterns in priority order; the first line matching any
/// of them decides, and the decision is never overridden.
pub open spec fn pointer_choice(line: Seq<char>) -> Option<ALIGNMENT> {
    if contains_seq(line, "int* "@) {
        Some(ALIGNMENT::LEFT)
    } else if contains_seq(line, "int * "@) {
        Some(ALIGNMENT::MIDDLE)
    } else if contains_seq(line, "int *"@) {
        Some(ALIGNMENT::RIGHT)
    } else {
        None
    }
}

pub open spec fn topic_pointer(
    s: ClangFormatSettingsView,
    line: Seq<char>,
) -> ClangFormatSettingsView {
    if s.alignment.pointer_alignment.value is None && pointer_choice(line) is Some {
        ClangFormatSettingsView {
            alignment: AlignmentSettingsView {
                pointer_alignment: SettingView {
                    value: pointer_choice(line),
                    ..s.alignment.pointer_alignment
                },
                ..s.alignment
            },
            ..s
        }
    } else {
        s
    }
}

/// The reference patterns mirror the pointer ones.
pub open spec fn reference_choice(line: Seq<char>) -> Option<ALIGNMENT> {
    if contains_seq(line, "float& "@) {
        Some(ALIGNMENT::LEFT)
    } else if contains_seq(line, "float & "@) {
        Some(ALIGNMENT::MIDDLE)
    } else if contains_seq(line, "float &"@) {
        Some(ALIGNMENT::RIGHT)
    } else {
        None
    }
}

pub open spec fn topic_reference(
    s: ClangFormatSettingsView,
    line: Seq<char>,
) -> ClangFormatSettingsView {
    if s.alignment.reference_alignment.value is None && reference_choice(line) is Some {
        ClangFormatSettingsView {
            alignment: AlignmentSettingsView {
                reference_alignment: SettingView {
                    value: reference_choice(line),
                    ..s.alignment.reference_alignment
                },
                ..s.alignment
            },
            ..s
        }
    } else {
        s
    }
}

/// Conditional-statement parenthesis spacing: both the current and the legacy
/// key are assigned together.
pub open spec fn topic_conditional_parens(
    s: ClangFormatSettingsView,
    line: Seq<char>,
) -> ClangFormatSettingsView {
    if s.spaces_in_parens.in_conditional_statements.value is None {
        if contains_seq(line, "( value )"@) {
            ClangFormatSettingsView {
                spaces_in_parens: SpacesInParensSettingsView {
                    in_conditional_statements: SettingView {
                        value: Some(true),
                        ..s.spaces_in_parens.in_conditional_statements
                    },
                    spaces_in_conditional_statement: SettingView {
                        value: Some(true),
                        ..s.spaces_in_parens.spaces_in_conditional_statement
                    },
                    ..s.spaces_in_parens
                },
                ..s
            }
        } else if contains_seq(line, "(value)"@) {
            ClangFormatSettingsView {
                spaces_in_parens: SpacesInParensSettingsView {
                    in_conditional_statements: SettingView {
                        value: Some(false),
                        ..s.spaces_in_parens.in_conditional_statements
                    },
                    spaces_in_conditional_statement: SettingView {
                        value: Some(false),
                        ..s.spaces_in_parens.spaces_in_conditional_statement
                    },
                    ..s.spaces_in_parens
                },
                ..s
            }
        } else {
            s
        }
    } else {
        s
    }
}

/// General parenthesis spacing: the current and the legacy key together.
pub open spec fn topic_general_parens(
    s: ClangFormatSettingsView,
    line: Seq<char>,
) -> ClangFormatSettingsView {
    if s.spaces_in_parens.spaces_in_parentheses.value is None {
        if contains_seq(line, "(int"@) {
            ClangFormatSettingsView {
                spaces_in_parens: SpacesInParensSettingsView {
                    spaces_in_parentheses: SettingView {
                        value: Some(false),
                        ..s.spaces_in_parens.spaces_in_parentheses
                    },
                    other: SettingView { value: Some(false), ..s.spaces_in_parens.other },
                    ..s.spaces_in_parens
                },
                ..s
            }
        } else if contains_seq(line, "( int"@) {
            ClangFormatSettingsView {
                spaces_in_parens: SpacesInParensSettingsView {
                    spaces_in_parentheses: SettingView {
                        value: Some(true),
                        ..s.spaces_in_parens.spaces_in_parentheses
                    },
                    other: SettingView { value: Some(true), ..s.spaces_in_parens.other },
                    ..s.spaces_in_parens
                },
                ..s
            }
        } else {
            s
        }
    } else {
        s
    }
}

pub open spec fn topic_if(s: ClangFormatSettingsView, line: Seq<char>) -> ClangFormatSettingsView {
    if s.break_before_braces.after_control_statement.value is None && contains_seq(
        line,
        "if"@,
    ) {
        ClangFormatSettingsView {
            break_before_braces: BreakBeforeBracesSettingsView {
                after_control_statement: SettingView {
                    value: Some(!contains_seq(line, "{"@)),
                    ..s.break_before_braces.after_control_statement
                },
                ..s.break_before_braces
            },
            ..s
        }
    } else {
        s
    }
}

pub open spec fn topic_else(
    s: ClangFormatSettingsView,
    line: Seq<char>,
) -> ClangFormatSettingsView {
    if s.break_before_braces.before_else.value is None && contains_seq(line, "else"@) {
        ClangFormatSettingsView {
            break_before_braces: BreakBeforeBracesSettingsView {
                before_else: SettingView {
                    value: Some(!contains_seq(line, "}"@)),
                    ..s.break_before_braces.before_else
                },
                ..s.break_before_braces
            },
            ..s
        }
    } else {
        s
    }
}

/// Blank-line aggregate: counts runs of blank lines during the scan and emits
/// the maximum at end of input.
pub open spec fn topic_empty_lines(
    s: ClangFormatSettingsView,
    e: EmptyLines,
    line: Seq<char>,
    finished: bool,
) -> (ClangFormatSettingsView, EmptyLines) {
    if s.max_empty_lines_to_keep.value is None {
        if finished {
            (
                ClangFormatSettingsView {
                    max_empty_lines_to_keep: SettingView {
                        value: Some(e.max_consecutive_empty_lines),
                        ..s.max_empty_lines_to_keep
                    },
                    ..s
                },
                e,
            )
        } else if line.len() == 0 {
            (s, empty_increment(e))
        } else {
            (s, EmptyLines { consecutive_empty_lines: 0, ..e })
        }
    } else {
        (s, e)
    }
}

/// The combined space-before-parens conclusion.  The fourth combination
/// (function spacing seen, control-statement spacing not) assigns no textual
/// value; the two raw switches are always assigned.
pub open spec fn space_parens_conclusion(
    s: ClangFormatSettingsView,
    sp: SpaceAfter,
) -> ClangFormatSettingsView {
    let text: Option<Seq<char>> = if sp.space_after_function && sp.space_after_if {
        Some("Always"@)
    } else if !sp.space_after_function && !sp.space_after_if {
        Some("Never"@)
    } else if !sp.space_after_function && sp.space_after_if {
        Some("ControlStatements"@)
    } else {
        s.space_before_parens.space_before_parens.value
    };
    ClangFormatSettingsView {
        space_before_parens: SpaceBeforeParensSettingsView {
            space_before_parens: SettingView {
                value: text,
                ..s.space_before_parens.space_before_parens
            },
            after_control_statements: SettingView {
                value: Some(sp.space_after_if),
                ..s.space_before_parens.after_control_statements
            },
            after_function_definition_name: SettingView {
                value: Some(sp.space_after_function),
                ..s.space_before_parens.after_function_definition_name
            },
        },
        ..s
    }
}

/// Space-before-parens aggregate: tracks the two sentinels and concludes
/// either when both have been seen or at end of input.
pub open spec fn topic_space_parens(
    s: ClangFormatSettingsView,
    sp: SpaceAfter,
    line: Seq<char>,
    finished: bool,
) -> (ClangFormatSettingsView, SpaceAfter) {
    if s.space_before_parens.after_control_statements.value is None {
        if finished || (sp.space_after_if && sp.space_after_function) {
            (space_parens_conclusion(s, sp), sp)
        } else if contains_seq(line, "if ("@) {
            (s, SpaceAfter { space_after_if: true, ..sp })
        } else if contains_seq(line, "ReferenceClass ("@) {
            (s, SpaceAfter { space_after_function: true, ..sp })
        } else {
            (s, sp)
        }
    } else {
        (s, sp)
    }
}

/// Abstract engine state: the settings model plus the aggregate rules'
/// private state.
pub ghost struct ScanState {
    pub settings: ClangFormatSettingsView,
    pub empty_lines: EmptyLines,
    pub space_after: SpaceAfter,
}

/// One full engine pass over a line (or over the end-of-input signal): every
/// not-yet-done topic observes it, in registration order.
#[verifier::opaque]
pub open spec fn check_step(st: ScanState, info: LineInfoView) -> ScanState {
    let line = info.line;
    let s1 = topic_namespace(st.settings, line);
    let s2 = topic_class(s1, line);
    let s3 = topic_struct(s2, line);
    let s4 = topic_enum(s3, line);
    let s5 = topic_function(s4, line);
    let s6 = topic_indent(s5, line);
    let s7 = topic_max_width(s6, line);
    let s8 = topic_brackets(s7, line);
    let s9 = topic_assignment(s8, line);
    let s10 = topic_namespace_comment(s9, line, info.finished);
    let s11 = topic_pointer(s10, line);
    let s12 = topic_reference(s11, line);
    let s13 = topic_conditional_parens(s12, line);
    let s14 = topic_general_parens(s13, line);
    let s15 = topic_if(s14, line);
    let s16 = topic_else(s15, line);
    let p17 = topic_empty_lines(s16, st.empty_lines, line, info.finished);
    let p18 = topic_space_parens(p17.0, st.space_after, line, info.finished);
    ScanState { settings: p18.0, empty_lines: p17.1, space_after: p18.1 }
}

/// A fresh engine around the given settings model.
pub open spec fn initial_scan_state(settings: ClangFormatSettingsView) -> ScanState {
    ScanState {
        settings,
        empty_lines: EmptyLines { max_consecutive_empty_lines: 0, consecutive_empty_lines: 0 },
        space_after: SpaceAfter { space_after_if: false, space_after_function: false },
    }
}

fn run_topic_namespace(s: &mut ClangFormatSettings, info: &LineInfo)
    ensures
        final(s)@ == topic_namespace(old(s)@, info@.line),
{
    if !s.break_before_braces.after_namespace.is_set() {
        if info.find("namespace") && info.without("// namespace") {
            s.break_before_braces.after_namespace.set(info.without("{"));
        }
    }
}

fn run_topic_class(s: &mut ClangFormatSettings, info: &LineInfo)
    ensures
        final(s)@ == topic_class(old(s)@, info@.line),
{
    if !s.break_before_braces.after_class.is_set() {
        if info.find("class") {
            s.break_before_braces.after_class.set(info.without("{"));
        }
    }
}

fn run_topic_struct(s: &mut ClangFormatSettings, info: &LineInfo)
    ensures
        final(s)@ == topic_struct(old(s)@, info@.line),
{
    if !s.break_before_braces.after_struct.is_set() {
        if info.find("struct") {
            s.break_before_braces.after_struct.set(info.without("{"));
        }
    }
}

fn run_topic_enum(s: &mut ClangFormatSettings, info: &LineInfo)
    ensures
        final(s)@ == topic_enum(old(s)@, info@.line),
{
    if !s.break_before_braces.after_enum.is_set() {
        if info.find("enum") {
            s.break_before_braces.after_enum.set(info.without("{"));
        }
    }
}

fn run_topic_function(s: &mut ClangFormatSettings, info: &LineInfo)
    ensures
        final(s)@ == topic_function(old(s)@, info@.line),
{
    if !s.break_before_braces.after_function.is_set() {
        if info.find("ReferenceClass") && info.without("class") {
            s.break_before_braces.after_function.set(info.without("{"));
        }
    }
}

fn run_topic_indent(s: &mut ClangFormatSettings, info: &LineInfo)
    ensures
        final(s)@ == topic_indent(old(s)@, info@.line),
{
    if !s.indent_width.is_set() {
        if let Some(pos) = str_find(info.line.as_str(), "TYPE_A") {
            proof {
                lemma_first_match_at(info@.line, "TYPE_A"@, pos as int);
            }
            let width: u32 = if pos <= u32::MAX as usize {
                pos as u32
            } else {
                u32::MAX
            };
            s.indent_width.set(width);
        }
    }
}

fn run_topic_max_width(s: &mut ClangFormatSettings, info: &LineInfo)
    ensures
        final(s)@ == topic_max_width(old(s)@, info@.line),
{
    if !s.column_limit.is_set() {
        if info.find("MAX WIDTH") {
            let n = info.line.as_str().unicode_len();
            let width: u32 = if n <= u32::MAX as usize {
                n as u32
            } else {
                u32::MAX
            };
            s.column_limit.set(width);
        }
    }
}

fn run_topic_brackets(s: &mut ClangFormatSettings, info: &LineInfo)
    ensures
        final(s)@ == topic_brackets(old(s)@, info@.line),
{
    if !s.spaces_in_square_brackets.is_set() {
        if info.find("[") {
            s.spaces_in_square_brackets.set(info.find("[ 5 ]"));
            s.space_before.space_before_square_brackets.set(info.find(" ["));
        }
    }
}

fn run_topic_assignment(s: &mut ClangFormatSettings, info: &LineInfo)
    ensures
        final(s)@ == topic_assignment(old(s)@, info@.line),
{
    if !s.space_before.space_before_assignment_operators.is_set() {
        if info.find("=") {
            s.space_before.space_before_assignment_operators.set(info.find(" ="));
        }
    }
}

fn run_topic_namespace_comment(s: &mut ClangFormatSettings, info: &LineInfo)
    ensures
        final(s)@ == topic_namespace_comment(old(s)@, info@.line, info@.finished),
{
    if !s.fix_namespace_comments.is_set() {
        if info.finished {
            s.fix_namespace_comments.set(false);
        } else if info.find("// namespace") {
            s.fix_namespace_comments.set(true);
        }
    }
}

fn run_topic_pointer(s: &mut ClangFormatSettings, info: &LineInfo)
    ensures
        final(s)@ == topic_pointer(old(s)@, info@.line),
{
    if !s.alignment.pointer_alignment.is_set() {
        if info.find("int* ") {
            s.alignment.pointer_alignment.set(ALIGNMENT::LEFT);
        } else if info.find("int * ") {
            s.alignment.pointer_alignment.set(ALIGNMENT::MIDDLE);
        } else if info.find("int *") {
            s.alignment.pointer_alignment.set(ALIGNMENT::RIGHT);
        }
    }
}

fn run_topic_reference(s: &mut ClangFormatSettings, info: &LineInfo)
    ensures
        final(s)@ == topic_reference(old(s)@, info@.line),
{
    if !s.alignment.reference_alignment.is_set() {
        if info.find("float& ") {
            s.alignment.reference_alignment.set(ALIGNMENT::LEFT);
        } else if info.find("float & ") {
            s.alignment.reference_alignment.set(ALIGNMENT::MIDDLE);
        } else if info.find("float &") {
            s.alignment.reference_alignment.set(ALIGNMENT::RIGHT);
        }
    }
}

fn run_topic_conditional_parens(s: &mut ClangFormatSettings, info: &LineInfo)
    ensures
        final(s)@ == topic_conditional_parens(old(s)@, info@.line),
{
    if !s.spaces_in_parens.in_conditional_statements.is_set() {
        if info.find("( value )") {
            s.spaces_in_parens.in_conditional_statements.set(true);
            s.spaces_in_parens.spaces_in_conditional_statement.set(true);
        } else if info.find("(value)") {
            s.spaces_in_parens.in_conditional_statements.set(false);
            s.spaces_in_parens.spaces_in_conditional_statement.set(false);
        }
    }
}

fn run_topic_general_parens(s: &mut ClangFormatSettings, info: &LineInfo)
    ensures
        final(s)@ == topic_general_parens(old(s)@, info@.line),
{
    if !s.spaces_in_parens.spaces_in_parentheses.is_set() {
        if info.find("(int") {
            s.spaces_in_parens.spaces_in_parentheses.set(false);
            s.spaces_in_parens.other.set(false);
        } else if info.find("( int") {
            s.spaces_in_parens.spaces_in_parentheses.set(true);
            s.spaces_in_parens.other.set(true);
        }
    }
}

fn run_topic_if(s: &mut ClangFormatSettings, info: &LineInfo)
    ensures
        final(s)@ == topic_if(old(s)@, info@.line),
{
    if !s.break_before_braces.after_control_statement.is_set() {
        if info.find("if") {
            s.break_before_braces.after_control_statement.set(info.without("{"));
        }
    }
}

fn run_topic_else(s: &mut ClangFormatSettings, info: &LineInfo)
    ensures
        final(s)@ == topic_else(old(s)@, info@.line),
{
    if !s.break_before_braces.before_else.is_set() {
        if info.find("else") {
            s.break_before_braces.before_else.set(info.without("}"));
        }
    }
}

fn run_topic_empty_lines(s: &mut ClangFormatSettings, e: &mut EmptyLines, info: &LineInfo)
    ensures
        final(s)@ == topic_empty_lines(old(s)@, *old(e), info@.line, info@.finished).0,
        *final(e) == topic_empty_lines(old(s)@, *old(e), info@.line, info@.finished).1,
{
    if !s.max_empty_lines_to_keep.is_set() {
        if info.finished {
            s.max_empty_lines_to_keep.set(e.max_consecutive_empty_lines);
        } else if info.line.as_str().is_empty() {
            e.increment();
        } else {
            e.reset();
        }
    }
}

fn run_topic_space_parens(s: &mut ClangFormatSettings, sp: &mut SpaceAfter, info: &LineInfo)
    ensures
        final(s)@ == topic_space_parens(old(s)@, *old(sp), info@.line, info@.finished).0,
        *final(sp) == topic_space_parens(old(s)@, *old(sp), info@.line, info@.finished).1,
{
    if !s.space_before_parens.after_control_statements.is_set() {
        if info.finished || (sp.space_after_if && sp.space_after_function) {
            if sp.space_after_function && sp.space_after_if {
                s.space_before_parens.space_before_parens.set("Always");
            } else if !sp.space_after_function && !sp.space_after_if {
                s.space_before_parens.space_before_parens.set("Never");
            } else if !sp.space_after_function && sp.space_after_if {
                s.space_before_parens.space_before_parens.set("ControlStatements");
            }
            s.space_before_parens.after_control_statements.set(sp.space_after_if);
            s.space_before_parens.after_function_definition_name.set(sp.space_after_function);
        } else if info.find("if (") {
            sp.space_after_if = true;
        } else if info.find("ReferenceClass (") {
            sp.space_after_function = true;
        }
    }
}

/// The engine's trace semantics: feed every line in order, none yet final.
pub open spec fn scan_lines(st: ScanState, lines: Seq<Seq<char>>) -> ScanState
    decreases lines.len(),
{
    if lines.len() == 0 {
        st
    } else {
        scan_lines(
            check_step(st, LineInfoView { line: lines[0], finished: false }),
            lines.drop_first(),
        )
    }
}

/// A whole run: every line in order, then the end-of-input signal.
pub open spec fn scan_and_finish(st: ScanState, lines: Seq<Seq<char>>) -> ScanState {
    check_step(
        scan_lines(st, lines),
        LineInfoView { line: Seq::<char>::empty(), finished: true },
    )
}

/// The rule engine around an owned settings model.
pub struct Impl {
    pub settings: ClangFormatSettings,
    pub empty_lines: EmptyLines,
    pub space_after: SpaceAfter,
}

impl View for Impl {
    type V = ScanState;

    open spec fn view(&self) -> ScanState {
        ScanState {
            settings: self.settings@,
            empty_lines: self.empty_lines,
            space_after: self.space_after,
        }
    }
}

impl Impl {
    /// A fresh engine; it owns the model until `into_settings`.
    pub fn new(settings: ClangFormatSettings) -> (r: Self)
        ensures
            r@ == initial_scan_state(settings@),
    {
        Self {
            settings,
            empty_lines: EmptyLines {
                max_consecutive_empty_lines: 0,
                consecutive_empty_lines: 0,
            },
            space_after: SpaceAfter { space_after_if: false, space_after_function: false },
        }
    }

    /// Hands the populated model back once the scan is over.
    pub fn into_settings(self) -> (r: ClangFormatSettings)
        ensures
            r@ == self@.settings,
    {
        self.settings
    }

    /// Runs every not-yet-done topic against one line, in registration order.
    pub fn run_checks(&mut self, info: &LineInfo)
        ensures
            final(self)@ == check_step(old(self)@, info@),
    {
        proof {
            reveal(check_step);
        }
        run_topic_namespace(&mut self.settings, info);
        run_topic_class(&mut self.settings, info);
        run_topic_struct(&mut self.settings, info);
        run_topic_enum(&mut self.settings, info);
        run_topic_function(&mut self.settings, info);
        run_topic_indent(&mut self.settings, info);
        run_topic_max_width(&mut self.settings, info);
        run_topic_brackets(&mut self.settings, info);
        run_topic_assignment(&mut self.settings, info);
        run_topic_namespace_comment(&mut self.settings, info);
        run_topic_pointer(&mut self.settings, info);
        run_topic_reference(&mut self.settings, info);
        run_topic_conditional_parens(&mut self.settings, info);
        run_topic_general_parens(&mut self.settings, info);
        run_topic_if(&mut self.settings, info);
        run_topic_else(&mut self.settings, info);
        run_topic_empty_lines(&mut self.settings, &mut self.empty_lines, info);
        run_topic_space_parens(&mut self.settings, &mut self.space_after, info);
    }

    /// Feeds one line of reference text through every topic.
    pub fn parse_line(&mut self, line: &str)
        ensures
            final(self)@ == check_step(
                old(self)@,
                LineInfoView { line: line@, finished: false },
            ),
    {
        let info = LineInfo { line: line.to_owned(), finished: false };
        self.run_checks(&info);
    }

    /// Signals end of input, letting the aggregate topics conclude.
    pub fn finish(&mut self)
        ensures
            final(self)@ == check_step(
                old(self)@,
                LineInfoView { line: Seq::<char>::empty(), finished: true },
            ),
    {
        let info = LineInfo { line: String::new(), finished: true };
        self.run_checks(&info);
        proof {
            assert(info@.line =~= Seq::<char>::empty());
        }
    }
}

impl Parser for Impl {
    fn parse_line(&mut self, line: &str) {
        Impl::parse_line(self, line);
    }

    fn finish(&mut self) {
        Impl::finish(self);
    }
}

} // verus!
