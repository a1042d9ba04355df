use clang_format_gen::clang_format_lib::{ClangFormatSettings, ALIGNMENT};
use clang_format_gen::parser::Impl;

fn scan(lines: &[&str]) -> ClangFormatSettings {
    let mut parser = Impl::new(ClangFormatSettings::new());
    for line in lines {
        parser.parse_line(line);
    }
    parser.finish();
    parser.into_settings()
}

#[test]
fn pointer_alignment_right_when_right_pattern_first() {
    let s = scan(&["int *p;", "int* p;", "int * p;"]);
    assert!(s.alignment.pointer_alignment.get_value() == Some(&ALIGNMENT::RIGHT));
}

#[test]
fn pointer_alignment_left_when_left_pattern_first() {
    let s = scan(&["int* p;", "int *p;", "int * p;"]);
    assert!(s.alignment.pointer_alignment.get_value() == Some(&ALIGNMENT::LEFT));
}

#[test]
fn pointer_alignment_middle_pattern() {
    let s = scan(&["int * p;"]);
    assert!(s.alignment.pointer_alignment.get_value() == Some(&ALIGNMENT::MIDDLE));
}

#[test]
fn reference_alignment_mirrors_pointer_patterns() {
    let s = scan(&["float &r;", "float& r;"]);
    assert!(s.alignment.reference_alignment.get_value() == Some(&ALIGNMENT::RIGHT));
}

#[test]
fn empty_line_aggregation_counts_longest_run() {
    let s = scan(&["a", "", "", "", "b"]);
    assert_eq!(s.max_empty_lines_to_keep.get_value(), Some(&3));
}

#[test]
fn empty_line_aggregation_resets_between_runs() {
    let s = scan(&["", "", "x", "", "y"]);
    assert_eq!(s.max_empty_lines_to_keep.get_value(), Some(&2));
}

#[test]
fn space_before_parens_control_statements_combination() {
    let s = scan(&["if (value)"]);
    assert_eq!(
        s.space_before_parens.space_before_parens.get_value(),
        Some(&"ControlStatements")
    );
    assert_eq!(
        s.space_before_parens.after_control_statements.get_value(),
        Some(&true)
    );
    assert_eq!(
        s.space_before_parens
            .after_function_definition_name
            .get_value(),
        Some(&false)
    );
}

#[test]
fn space_before_parens_never_when_no_sentinel_spaced() {
    let s = scan(&["plain line"]);
    assert_eq!(
        s.space_before_parens.space_before_parens.get_value(),
        Some(&"Never")
    );
}

#[test]
fn space_before_parens_always_when_both_sentinels_spaced() {
    let s = scan(&["if (x)", "ReferenceClass (y)"]);
    assert_eq!(
        s.space_before_parens.space_before_parens.get_value(),
        Some(&"Always")
    );
    assert_eq!(
        s.space_before_parens.after_control_statements.get_value(),
        Some(&true)
    );
    assert_eq!(
        s.space_before_parens
            .after_function_definition_name
            .get_value(),
        Some(&true)
    );
}

#[test]
fn namespace_comment_defaults_false_on_absence() {
    let s = scan(&["plain line", "another"]);
    assert_eq!(s.fix_namespace_comments.get_value(), Some(&false));
}

#[test]
fn namespace_comment_true_when_present() {
    let s = scan(&["} // namespace lib"]);
    assert_eq!(s.fix_namespace_comments.get_value(), Some(&true));
}

#[test]
fn column_limit_takes_marker_line_length() {
    let s = scan(&["##### MAX WIDTH ####"]);
    assert_eq!(s.column_limit.get_value(), Some(&20));
}

#[test]
fn indent_width_takes_sentinel_offset() {
    let s = scan(&["    TYPE_A,"]);
    assert_eq!(s.indent_width.get_value(), Some(&4));
}

#[test]
fn brace_placement_from_namespace_line() {
    let s = scan(&["namespace lib"]);
    assert_eq!(
        s.break_before_braces.after_namespace.get_value(),
        Some(&true)
    );

    let s = scan(&["namespace lib {"]);
    assert_eq!(
        s.break_before_braces.after_namespace.get_value(),
        Some(&false)
    );
}

#[test]
fn namespace_closing_comment_does_not_fire_brace_rule_value() {
    // A "// namespace" line is excluded from the namespace brace rule.
    let s = scan(&["} // namespace lib", "namespace lib"]);
    assert_eq!(
        s.break_before_braces.after_namespace.get_value(),
        Some(&true)
    );
}

#[test]
fn bracket_and_assignment_spacing() {
    let s = scan(&["int values[ 5 ];", "int a = 5;"]);
    assert_eq!(s.spaces_in_square_brackets.get_value(), Some(&true));
    assert_eq!(
        s.space_before.space_before_assignment_operators.get_value(),
        Some(&true)
    );

    let s = scan(&["int values[5];", "int a=5;"]);
    assert_eq!(s.spaces_in_square_brackets.get_value(), Some(&false));
    assert_eq!(
        s.space_before.space_before_assignment_operators.get_value(),
        Some(&false)
    );
}

#[test]
fn conditional_and_general_parens_first_match_wins() {
    let s = scan(&["if ( value )", "call(value)", "f(int x)", "g( int y )"]);
    assert_eq!(
        s.spaces_in_parens.in_conditional_statements.get_value(),
        Some(&true)
    );
    assert_eq!(
        s.spaces_in_parens
            .spaces_in_conditional_statement
            .get_value(),
        Some(&true)
    );
    assert_eq!(
        s.spaces_in_parens.spaces_in_parentheses.get_value(),
        Some(&false)
    );
    assert_eq!(s.spaces_in_parens.other.get_value(), Some(&false));
}
