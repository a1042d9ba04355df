use clang_format_gen::clang_format_lib::ClangFormatSettings;
use clang_format_gen::generator::generate_reference_file;
use clang_format_gen::parser::Impl;
use clang_format_gen::text::{str_contains, str_find, u32_to_string};
use clang_format_gen::write_cfg::{
    format_version, in_version, in_version_range, version_to_uint, write_clang_format_file,
};
use clang_format_gen::clang_format_lib::{ALIGNMENT, VERSION};

fn scan_reference() -> ClangFormatSettings {
    let mut reference = Vec::new();
    generate_reference_file(&mut reference);
    let mut parser = Impl::new(ClangFormatSettings::new());
    for line in &reference {
        parser.parse_line(line);
    }
    parser.finish();
    parser.into_settings()
}

#[test]
fn version_ordinal_table() {
    assert_eq!(version_to_uint(&VERSION::V3_5), 35);
    assert_eq!(version_to_uint(&VERSION::V3_7), 37);
    assert_eq!(version_to_uint(&VERSION::V3_8), 38);
    assert_eq!(version_to_uint(&VERSION::V5_0), 50);
    assert_eq!(version_to_uint(&VERSION::V10_0), 100);
    assert_eq!(version_to_uint(&VERSION::V13_0), 130);
    assert_eq!(version_to_uint(&VERSION::V14_0), 140);
    assert_eq!(version_to_uint(&VERSION::V16_0), 160);
    assert_eq!(version_to_uint(&VERSION::V17_0), 170);
    assert_eq!(version_to_uint(&VERSION::V18_0), 180);
}

#[test]
fn version_predicates() {
    assert!(in_version(38, &VERSION::V3_8));
    assert!(!in_version(37, &VERSION::V3_8));
    assert!(in_version_range(100, &VERSION::V10_0, &VERSION::V17_0));
    assert!(!in_version_range(170, &VERSION::V10_0, &VERSION::V17_0));
}

#[test]
fn format_version_dotted() {
    assert_eq!(format_version(170), "17.0");
    assert_eq!(format_version(35), "3.5");
    assert_eq!(format_version(100), "10.0");
}

#[test]
fn decimal_rendering() {
    assert_eq!(u32_to_string(0), "0");
    assert_eq!(u32_to_string(42), "42");
    assert_eq!(u32_to_string(4294967295), "4294967295");
}

#[test]
fn alignment_spellings() {
    assert_eq!(ALIGNMENT::LEFT.value_to_string(), "Left");
    assert_eq!(ALIGNMENT::MIDDLE.value_to_string(), "Middle");
    assert_eq!(ALIGNMENT::RIGHT.value_to_string(), "Right");
}

#[test]
fn substring_search() {
    assert_eq!(str_find("abcabc", "bc"), Some(1));
    assert_eq!(str_find("abc", ""), Some(0));
    assert_eq!(str_find("abc", "zz"), None);
    assert!(str_contains("hello world", "o w"));
    assert!(!str_contains("hello", "world"));
}

#[test]
fn rendering_same_model_twice_is_identical() {
    let settings = scan_reference();
    let mut first = Vec::new();
    write_clang_format_file(&settings, 170, &mut first);
    let mut second = Vec::new();
    write_clang_format_file(&settings, 170, &mut second);
    assert_eq!(first, second);
}

#[test]
fn gated_out_leaves_leave_no_trace() {
    let settings = scan_reference();
    let mut lines = Vec::new();
    write_clang_format_file(&settings, 35, &mut lines);
    assert!(!lines.iter().any(|l| l.contains("UseTab")));
    assert!(!lines.iter().any(|l| l.contains("ColumnLimit")));
    assert!(!lines.iter().any(|l| l.contains("ReferenceAlignment")));
    assert!(!lines.iter().any(|l| l.contains("BraceWrapping")));
    assert!(lines.iter().any(|l| l == "Language: Cpp"));
}

#[test]
fn applicable_unset_leaves_render_placeholders() {
    let settings = ClangFormatSettings::new();
    let mut lines = Vec::new();
    write_clang_format_file(&settings, 170, &mut lines);
    assert!(lines.iter().any(|l| l == "# ColumnLimit: ?"));
    assert!(lines.iter().any(|l| l == "# MaxEmptyLinesToKeep: ?"));
    assert!(lines.iter().any(|l| l == "# ReferenceAlignment: ?"));
    assert!(lines.iter().any(|l| l == "# AfterControlStatements: ?"));
    assert!(lines.iter().any(|l| l == "# AfterFunctionDefinitionName: ?"));
    assert!(lines.iter().any(|l| l == "Language: Cpp"));
    assert!(lines.iter().any(|l| l == "UseTab: Never"));
}

#[test]
fn reference_pipeline_renders_expected_directives() {
    let settings = scan_reference();
    let mut lines = Vec::new();
    write_clang_format_file(&settings, 170, &mut lines);

    assert_eq!(lines[0], "# created with clang-format-cfg-generator-rs");
    assert_eq!(lines[1], "# created for clang-format version 17.0");
    assert!(lines.iter().any(|l| l == "PointerAlignment: Left"));
    assert!(lines.iter().any(|l| l == "ReferenceAlignment: Pointer"));
    assert!(lines.iter().any(|l| l == "FixNamespaceComments: true"));
    assert!(lines.iter().any(|l| l == "IndentWidth: 4"));
    assert!(lines.iter().any(|l| l == "MaxEmptyLinesToKeep: 1"));
    assert!(lines.iter().any(|l| l == "BreakBeforeBraces: Custom"));
    assert!(lines.iter().any(|l| l == "  AfterClass: true"));
    assert!(lines.iter().any(|l| l == "SpaceBeforeParens: Custom"));
    assert!(lines.iter().any(|l| l == "  AfterControlStatements: true"));
    assert!(lines.iter().any(|l| l == "  AfterFunctionDefinitionName: false"));
}

#[test]
fn flat_era_renders_inferred_space_before_parens_text() {
    let settings = scan_reference();
    let mut lines = Vec::new();
    write_clang_format_file(&settings, 100, &mut lines);
    assert!(lines
        .iter()
        .any(|l| l == "SpaceBeforeParens: ControlStatements"));

    let mut lines = Vec::new();
    write_clang_format_file(&settings, 35, &mut lines);
    assert!(lines
        .iter()
        .any(|l| l == "SpaceBeforeParens: ControlStatements"));
}

#[test]
fn unset_reference_alignment_keeps_placeholder() {
    let mut parser = Impl::new(ClangFormatSettings::new());
    parser.parse_line("int* p;");
    parser.finish();
    let settings = parser.into_settings();

    let mut lines = Vec::new();
    write_clang_format_file(&settings, 170, &mut lines);
    assert!(lines.iter().any(|l| l == "PointerAlignment: Left"));
    assert!(lines.iter().any(|l| l == "# ReferenceAlignment: ?"));
    assert!(!lines.iter().any(|l| l == "ReferenceAlignment: Pointer"));
}

#[test]
fn old_era_renders_flat_parens_key() {
    let settings = scan_reference();
    let mut lines = Vec::new();
    write_clang_format_file(&settings, 38, &mut lines);
    assert!(lines.iter().any(|l| l.starts_with("SpacesInParentheses")));
    assert!(!lines.iter().any(|l| l == "SpacesInParens: Custom"));

    let mut lines = Vec::new();
    write_clang_format_file(&settings, 170, &mut lines);
    assert!(lines.iter().any(|l| l == "SpacesInParens: Custom"));
}

#[test]
fn distinct_alignments_render_separately() {
    let mut parser = Impl::new(ClangFormatSettings::new());
    parser.parse_line("int* p;");
    parser.parse_line("float &r;");
    parser.finish();
    let settings = parser.into_settings();

    let mut lines = Vec::new();
    write_clang_format_file(&settings, 170, &mut lines);
    assert!(lines.iter().any(|l| l == "PointerAlignment: Left"));
    assert!(lines.iter().any(|l| l == "ReferenceAlignment: Right"));
    assert!(!lines.iter().any(|l| l == "ReferenceAlignment: Pointer"));
}
