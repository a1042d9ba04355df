use clang_format_gen::clang_format_lib::{ClangFormatSettings, Setting, ALIGNMENT, VERSION};
use clang_format_gen::generator::generate_reference_file;
use clang_format_gen::parser::LineInfo;

#[test]
fn test_clangformat_settings() {
    let settings = ClangFormatSettings::new();
    assert!(true);

    println!("Language Setting: {:?}", settings.language.get_value());
    println!("UseTab Setting: {:?}", settings.use_tab.get_value());
}

#[test]
fn test_generate_reference() {
    let mut lines = Vec::new();
    generate_reference_file(&mut lines);
    assert!(lines.len() > 0);
}

#[test]
fn test_lineinfo() {
    let info = LineInfo {
        line: "Hello World".to_string(),
        finished: false,
    };
    assert!(info.find("World"));
    assert!(!info.without("World"));
}

#[test]
fn setting_starts_unset() {
    let s: Setting<u32> = Setting::new("ColumnLimit", VERSION::V3_7);
    assert!(!s.is_set());
    assert!(s.get_value().is_none());
    assert_eq!(s.command, "ColumnLimit");
}

#[test]
fn setting_set_once_keeps_value() {
    let mut s: Setting<u32> = Setting::new("IndentWidth", VERSION::V3_7);
    s.set(4);
    assert!(s.is_set());
    assert_eq!(s.get_value(), Some(&4));
}

#[test]
fn setting_alignment_value() {
    let mut s: Setting<ALIGNMENT> = Setting::new("PointerAlignment", VERSION::V3_7);
    s.set(ALIGNMENT::MIDDLE);
    assert!(s.get_value() == Some(&ALIGNMENT::MIDDLE));
}

#[test]
fn new_model_preseeds_language_and_tab_policy() {
    let settings = ClangFormatSettings::new();
    assert_eq!(settings.language.get_value(), Some(&"Cpp"));
    assert_eq!(settings.use_tab.get_value(), Some(&"Never"));
    assert!(!settings.column_limit.is_set());
    assert!(!settings.fix_namespace_comments.is_set());
    assert!(!settings.alignment.pointer_alignment.is_set());
    assert!(!settings.space_before_parens.space_before_parens.is_set());
}

#[test]
fn reference_template_lines_exercise_the_rules() {
    let mut lines = Vec::new();
    generate_reference_file(&mut lines);
    assert_eq!(lines.len(), 36);
    assert!(lines.iter().any(|l| l.contains("MAX WIDTH")));
    assert!(lines.iter().any(|l| l.contains("TYPE_A")));
    assert!(lines.iter().any(|l| l.contains("// namespace")));
    assert!(lines.iter().any(|l| l.contains("int* ")));
    assert!(lines.iter().any(|l| l.contains("float& ")));
}

#[test]
fn lineinfo_find_edge_cases() {
    let info = LineInfo {
        line: "".to_string(),
        finished: false,
    };
    assert!(info.find(""));
    assert!(!info.find("a"));

    let info = LineInfo {
        line: "abc".to_string(),
        finished: false,
    };
    assert!(info.find("bc"));
    assert!(info.find("abc"));
    assert!(!info.find("abcd"));
}
