//! Engine-wide and writer-wide laws: first-match-wins inference, the
//! absence default for the namespace-comment switch, the aggregate
//! space-before-parens conclusion, and version gating leaving no trace of
//! inapplicable leaves.

use crate::clang_format_lib::{initial_settings, ClangFormatSettingsView, SettingView};
use crate::parser::{
    check_step, initial_scan_state, pointer_choice, reference_choice, scan_and_finish,
    scan_lines, topic_assignment, topic_brackets, topic_class, topic_conditional_parens,
    topic_else, topic_empty_lines, topic_enum, topic_function, topic_general_parens, topic_if,
    topic_indent, topic_max_width, topic_namespace, topic_namespace_comment, topic_pointer,
    topic_reference, topic_space_parens, topic_struct, EmptyLines, LineInfoView, ScanState,
    SpaceAfter,
};
use crate::text::contains_seq;
use crate::write_cfg::{rendered_lines, setting_lines, spec_in_version, Render};
use vstd::prelude::*;

verus! {


proof fn frame_namespace(s: ClangFormatSettingsView, line: Seq<char>)
    ensures
        topic_namespace(s, line).alignment == s.alignment,
        topic_namespace(s, line).fix_namespace_comments == s.fix_namespace_comments,
        topic_namespace(s, line).space_before_parens == s.space_before_parens,
        topic_namespace(s, line).max_empty_lines_to_keep == s.max_empty_lines_to_keep,
{
}

proof fn frame_class(s: ClangFormatSettingsView, line: Seq<char>)
    ensures
        topic_class(s, line).alignment == s.alignment,
        topic_class(s, line).fix_namespace_comments == s.fix_namespace_comments,
        topic_class(s, line).space_before_parens == s.space_before_parens,
        topic_class(s, line).max_empty_lines_to_keep == s.max_empty_lines_to_keep,
{
}

proof fn frame_struct(s: ClangFormatSettingsView, line: Seq<char>)
    ensures
        topic_struct(s, line).alignment == s.alignment,
        topic_struct(s, line).fix_namespace_comments == s.fix_namespace_comments,
        topic_struct(s, line).space_before_parens == s.space_before_parens,
        topic_struct(s, line).max_empty_lines_to_keep == s.max_empty_lines_to_keep,
{
}

proof fn frame_enum(s: ClangFormatSettingsView, line: Seq<char>)
    ensures
        topic_enum(s, line).alignment == s.alignment,
        topic_enum(s, line).fix_namespace_comments == s.fix_namespace_comments,
        topic_enum(s, line).space_before_parens == s.space_before_parens,
        topic_enum(s, line).max_empty_lines_to_keep == s.max_empty_lines_to_keep,
{
}

proof fn frame_function(s: ClangFormatSettingsView, line: Seq<char>)
    ensures
        topic_function(s, line).alignment == s.alignment,
        topic_function(s, line).fix_namespace_comments == s.fix_namespace_comments,
        topic_function(s, line).space_before_parens == s.space_before_parens,
        topic_function(s, line).max_empty_lines_to_keep == s.max_empty_lines_to_keep,
{
}

proof fn frame_indent(s: ClangFormatSettingsView, line: Seq<char>)
    ensures
        topic_indent(s, line).alignment == s.alignment,
        topic_indent(s, line).fix_namespace_comments == s.fix_namespace_comments,
        topic_indent(s, line).space_before_parens == s.space_before_parens,
        topic_indent(s, line).max_empty_lines_to_keep == s.max_empty_lines_to_keep,
{
}

proof fn frame_max_width(s: ClangFormatSettingsView, line: Seq<char>)
    ensures
        topic_max_width(s, line).alignment == s.alignment,
        topic_max_width(s, line).fix_namespace_comments == s.fix_namespace_comments,
        topic_max_width(s, line).space_before_parens == s.space_before_parens,
        topic_max_width(s, line).max_empty_lines_to_keep == s.max_empty_lines_to_keep,
{
}

proof fn frame_brackets(s: ClangFormatSettingsView, line: Seq<char>)
    ensures
        topic_brackets(s, line).alignment == s.alignment,
        topic_brackets(s, line).fix_namespace_comments == s.fix_namespace_comments,
        topic_brackets(s, line).space_before_parens == s.space_before_parens,
        topic_brackets(s, line).max_empty_lines_to_keep == s.max_empty_lines_to_keep,
{
}

proof fn frame_assignment(s: ClangFormatSettingsView, line: Seq<char>)
    ensures
        topic_assignment(s, line).alignment == s.alignment,
        topic_assignment(s, line).fix_namespace_comments == s.fix_namespace_comments,
        topic_assignment(s, line).space_before_parens == s.space_before_parens,
        topic_assignment(s, line).max_empty_lines_to_keep == s.max_empty_lines_to_keep,
{
}

proof fn frame_conditional_parens(s: ClangFormatSettingsView, line: Seq<char>)
    ensures
        topic_conditional_parens(s, line).alignment == s.alignment,
        topic_conditional_parens(s, line).fix_namespace_comments == s.fix_namespace_comments,
        topic_conditional_parens(s, line).space_before_parens == s.space_before_parens,
        topic_conditional_parens(s, line).max_empty_lines_to_keep == s.max_empty_lines_to_keep,
{
}

proof fn frame_general_parens(s: ClangFormatSettingsView, line: Seq<char>)
    ensures
        topic_general_parens(s, line).alignment == s.alignment,
        topic_general_parens(s, line).fix_namespace_comments == s.fix_namespace_comments,
        topic_general_parens(s, line).space_before_parens == s.space_before_parens,
        topic_general_parens(s, line).max_empty_lines_to_keep == s.max_empty_lines_to_keep,
{
}

proof fn frame_if(s: ClangFormatSettingsView, line: Seq<char>)
    ensures
        topic_if(s, line).alignment == s.alignment,
        topic_if(s, line).fix_namespace_comments == s.fix_namespace_comments,
        topic_if(s, line).space_before_parens == s.space_before_parens,
        topic_if(s, line).max_empty_lines_to_keep == s.max_empty_lines_to_keep,
{
}

proof fn frame_else(s: ClangFormatSettingsView, line: Seq<char>)
    ensures
        topic_else(s, line).alignment == s.alignment,
        topic_else(s, line).fix_namespace_comments == s.fix_namespace_comments,
        topic_else(s, line).space_before_parens == s.space_before_parens,
        topic_else(s, line).max_empty_lines_to_keep == s.max_empty_lines_to_keep,
{
}

proof fn effect_comment(s: ClangFormatSettingsView, line: Seq<char>, finished: bool)
    ensures
        topic_namespace_comment(s, line, finished).alignment == s.alignment,
        topic_namespace_comment(s, line, finished).space_before_parens == s.space_before_parens,
        topic_namespace_comment(s, line, finished).max_empty_lines_to_keep
            == s.max_empty_lines_to_keep,
        topic_namespace_comment(s, line, finished).fix_namespace_comments.value == (
        if s.fix_namespace_comments.value is Some {
            s.fix_namespace_comments.value
        } else if finished {
            Some(false)
        } else if contains_seq(line, "// namespace"@) {
            Some(true)
        } else {
            None
        }),
{
}

proof fn effect_pointer(s: ClangFormatSettingsView, line: Seq<char>)
    ensures
        topic_pointer(s, line).fix_namespace_comments == s.fix_namespace_comments,
        topic_pointer(s, line).space_before_parens == s.space_before_parens,
        topic_pointer(s, line).max_empty_lines_to_keep == s.max_empty_lines_to_keep,
        topic_pointer(s, line).alignment.reference_alignment
            == s.alignment.reference_alignment,
        topic_pointer(s, line).alignment.pointer_alignment.value == (
        if s.alignment.pointer_alignment.value is Some {
            s.alignment.pointer_alignment.value
        } else {
            pointer_choice(line)
        }),
{
}

proof fn effect_reference(s: ClangFormatSettingsView, line: Seq<char>)
    ensures
        topic_reference(s, line).fix_namespace_comments == s.fix_namespace_comments,
        topic_reference(s, line).space_before_parens == s.space_before_parens,
        topic_reference(s, line).max_empty_lines_to_keep == s.max_empty_lines_to_keep,
        topic_reference(s, line).alignment.pointer_alignment == s.alignment.pointer_alignment,
        topic_reference(s, line).alignment.reference_alignment.value == (
        if s.alignment.reference_alignment.value is Some {
            s.alignment.reference_alignment.value
        } else {
            reference_choice(line)
        }),
{
}

proof fn frame_empty_lines(s: ClangFormatSettingsView, e: EmptyLines, line: Seq<char>, finished: bool)
    ensures
        topic_empty_lines(s, e, line, finished).0.alignment == s.alignment,
        topic_empty_lines(s, e, line, finished).0.fix_namespace_comments
            == s.fix_namespace_comments,
        topic_empty_lines(s, e, line, finished).0.space_before_parens == s.space_before_parens,
{
}

proof fn frame_space_parens(s: ClangFormatSettingsView, sp: SpaceAfter, line: Seq<char>, finished: bool)
    ensures
        topic_space_parens(s, sp, line, finished).0.alignment == s.alignment,
        topic_space_parens(s, sp, line, finished).0.fix_namespace_comments
            == s.fix_namespace_comments,
        topic_space_parens(s, sp, line, finished).0.max_empty_lines_to_keep
            == s.max_empty_lines_to_keep,
{
}


/// One engine pass's effect on the leaves the laws speak of: the two
/// alignment leaves, the namespace-comment switch, and the
/// space-before-parens cluster with its two sentinel flags.  Every other
/// topic leaves these fields alone, so the pass acts on them exactly as the
/// owning topic does.
#[verifier::rlimit(100)]
#[verifier::spinoff_prover]
proof fn lemma_step_effects(st: ScanState, info: LineInfoView)
    ensures
        check_step(st, info).settings.alignment.pointer_alignment.value == (
        if st.settings.alignment.pointer_alignment.value is Some {
            st.settings.alignment.pointer_alignment.value
        } else {
            pointer_choice(info.line)
        }),
        check_step(st, info).settings.alignment.reference_alignment.value == (
        if st.settings.alignment.reference_alignment.value is Some {
            st.settings.alignment.reference_alignment.value
        } else {
            reference_choice(info.line)
        }),
        check_step(st, info).settings.fix_namespace_comments.value == (
        if st.settings.fix_namespace_comments.value is Some {
            st.settings.fix_namespace_comments.value
        } else if info.finished {
            Some(false)
        } else if contains_seq(info.line, "// namespace"@) {
            Some(true)
        } else {
            None
        }),
        check_step(st, info).settings.space_before_parens == topic_space_parens(
            st.settings,
            st.space_after,
            info.line,
            info.finished,
        ).0.space_before_parens,
        check_step(st, info).space_after == topic_space_parens(
            st.settings,
            st.space_after,
            info.line,
            info.finished,
        ).1,
{
    reveal(check_step);
    let line = info.line;
    let s1 = topic_namespace(st.settings, line);
    frame_namespace(st.settings, line);
    let s2 = topic_class(s1, line);
    frame_class(s1, line);
    let s3 = topic_struct(s2, line);
    frame_struct(s2, line);
    let s4 = topic_enum(s3, line);
    frame_enum(s3, line);
    let s5 = topic_function(s4, line);
    frame_function(s4, line);
    let s6 = topic_indent(s5, line);
    frame_indent(s5, line);
    let s7 = topic_max_width(s6, line);
    frame_max_width(s6, line);
    let s8 = topic_brackets(s7, line);
    frame_brackets(s7, line);
    let s9 = topic_assignment(s8, line);
    frame_assignment(s8, line);
    let s10 = topic_namespace_comment(s9, line, info.finished);
    effect_comment(s9, line, info.finished);
    let s11 = topic_pointer(s10, line);
    effect_pointer(s10, line);
    let s12 = topic_reference(s11, line);
    effect_reference(s11, line);
    let s13 = topic_conditional_parens(s12, line);
    frame_conditional_parens(s12, line);
    let s14 = topic_general_parens(s13, line);
    frame_general_parens(s13, line);
    let s15 = topic_if(s14, line);
    frame_if(s14, line);
    let s16 = topic_else(s15, line);
    frame_else(s15, line);
    let p17 = topic_empty_lines(s16, st.empty_lines, line, info.finished);
    frame_empty_lines(s16, st.empty_lines, line, info.finished);
    let p18 = topic_space_parens(p17.0, st.space_after, line, info.finished);
    frame_space_parens(p17.0, st.space_after, line, info.finished);
    assert(check_step(st, info).settings == p18.0);
    assert(check_step(st, info).space_after == p18.1);
    assert(p17.0.space_before_parens == st.settings.space_before_parens);
    assert(p18.0.space_before_parens == topic_space_parens(
        st.settings,
        st.space_after,
        line,
        info.finished,
    ).0.space_before_parens);
    assert(p18.1 == topic_space_parens(st.settings, st.space_after, line, info.finished).1);
}

proof fn lemma_scan_pointer_preserved(st: ScanState, lines: Seq<Seq<char>>)
    requires
        st.settings.alignment.pointer_alignment.value is Some,
    ensures
        scan_lines(st, lines).settings.alignment.pointer_alignment.value
            == st.settings.alignment.pointer_alignment.value,
    decreases lines.len(),
{
    if lines.len() > 0 {
        let info = LineInfoView { line: lines[0], finished: false };
        lemma_step_effects(st, info);
        lemma_scan_pointer_preserved(check_step(st, info), lines.drop_first());
    }
}

proof fn lemma_scan_pointer_first(st: ScanState, lines: Seq<Seq<char>>, k: int)
    requires
        st.settings.alignment.pointer_alignment.value is None,
        0 <= k < lines.len(),
        forall|j: int| 0 <= j < k ==> pointer_choice(#[trigger] lines[j]) is None,
        pointer_choice(lines[k]) is Some,
    ensures
        scan_lines(st, lines).settings.alignment.pointer_alignment.value == pointer_choice(
            lines[k],
        ),
    decreases k,
{
    let info = LineInfoView { line: lines[0], finished: false };
    lemma_step_effects(st, info);
    let st1 = check_step(st, info);
    let rest = lines.drop_first();
    if k == 0 {
        lemma_scan_pointer_preserved(st1, rest);
    } else {
        assert(pointer_choice(lines[0]) is None);
        assert forall|j: int| 0 <= j < k - 1 implies pointer_choice(#[trigger] rest[j]) is None by {
            assert(rest[j] == lines[j + 1]);
        }
        assert(rest[k - 1] == lines[k]);
        lemma_scan_pointer_first(st1, rest, k - 1);
    }
}

/// First-match-wins for pointer alignment: over a whole run, the first line
/// on which any of the three pointer patterns fires decides the alignment,
/// by the patterns' priority order within that line, and no later line can
/// override the decision.
pub proof fn lemma_pointer_first_match_wins(lines: Seq<Seq<char>>, k: int)
    requires
        0 <= k < lines.len(),
        forall|j: int| 0 <= j < k ==> pointer_choice(#[trigger] lines[j]) is None,
        pointer_choice(lines[k]) is Some,
    ensures
        scan_and_finish(
            initial_scan_state(initial_settings()),
            lines,
        ).settings.alignment.pointer_alignment.value == pointer_choice(lines[k]),
{
    let st0 = initial_scan_state(initial_settings());
    lemma_scan_pointer_first(st0, lines, k);
    lemma_step_effects(
        scan_lines(st0, lines),
        LineInfoView { line: Seq::<char>::empty(), finished: true },
    );
}

proof fn lemma_scan_comment_stays_unset(st: ScanState, lines: Seq<Seq<char>>)
    requires
        st.settings.fix_namespace_comments.value is None,
        forall|j: int|
            0 <= j < lines.len() ==> !contains_seq(#[trigger] lines[j], "// namespace"@),
    ensures
        scan_lines(st, lines).settings.fix_namespace_comments.value is None,
    decreases lines.len(),
{
    if lines.len() > 0 {
        let info = LineInfoView { line: lines[0], finished: false };
        lemma_step_effects(st, info);
        let rest = lines.drop_first();
        assert forall|j: int|
            0 <= j < rest.len() implies !contains_seq(#[trigger] rest[j], "// namespace"@) by {
            assert(rest[j] == lines[j + 1]);
        }
        lemma_scan_comment_stays_unset(check_step(st, info), rest);
    }
}

/// The absence default: when no line of the reference text contains the
/// namespace-closing comment, the end-of-input pass explicitly resolves the
/// namespace-comment switch to `false` — it is never left unset.
pub proof fn lemma_namespace_comment_defaults_false(lines: Seq<Seq<char>>)
    requires
        forall|j: int|
            0 <= j < lines.len() ==> !contains_seq(#[trigger] lines[j], "// namespace"@),
    ensures
        scan_and_finish(
            initial_scan_state(initial_settings()),
            lines,
        ).settings.fix_namespace_comments.value == Some(false),
{
    let st0 = initial_scan_state(initial_settings());
    lemma_scan_comment_stays_unset(st0, lines);
    lemma_step_effects(
        scan_lines(st0, lines),
        LineInfoView { line: Seq::<char>::empty(), finished: true },
    );
}


proof fn lemma_step_space(st: ScanState, info: LineInfoView)
    requires
        st.settings.space_before_parens.after_control_statements.value is None,
        !st.space_after.space_after_function,
        !info.finished,
        !contains_seq(info.line, "ReferenceClass ("@),
    ensures
        check_step(st, info).settings.space_before_parens == st.settings.space_before_parens,
        !check_step(st, info).space_after.space_after_function,
        check_step(st, info).space_after.space_after_if == (st.space_after.space_after_if
            || contains_seq(info.line, "if ("@)),
{
    lemma_step_effects(st, info);
}

proof fn lemma_scan_space(st: ScanState, lines: Seq<Seq<char>>)
    requires
        st.settings.space_before_parens.after_control_statements.value is None,
        !st.space_after.space_after_function,
        forall|j: int|
            0 <= j < lines.len() ==> !contains_seq(#[trigger] lines[j], "ReferenceClass ("@),
    ensures
        scan_lines(st, lines).settings.space_before_parens == st.settings.space_before_parens,
        !scan_lines(st, lines).space_after.space_after_function,
        scan_lines(st, lines).space_after.space_after_if == (st.space_after.space_after_if
            || exists|j: int|
            0 <= j < lines.len() && contains_seq(#[trigger] lines[j], "if ("@)),
    decreases lines.len(),
{
    if lines.len() == 0 {
        assert(!(exists|j: int|
            0 <= j < lines.len() && contains_seq(#[trigger] lines[j], "if ("@)));
    } else {
        let info = LineInfoView { line: lines[0], finished: false };
        lemma_step_space(st, info);
        let st1 = check_step(st, info);
        let rest = lines.drop_first();
        assert forall|j: int|
            0 <= j < rest.len() implies !contains_seq(
            #[trigger] rest[j],
            "ReferenceClass ("@,
        ) by {
            assert(rest[j] == lines[j + 1]);
        }
        lemma_scan_space(st1, rest);
        let saw_rest = exists|j: int|
            0 <= j < rest.len() && contains_seq(#[trigger] rest[j], "if ("@);
        let saw_all = exists|j: int|
            0 <= j < lines.len() && contains_seq(#[trigger] lines[j], "if ("@);
        if saw_rest {
            let j = choose|j: int| 0 <= j < rest.len() && contains_seq(rest[j], "if ("@);
            assert(rest[j] == lines[j + 1]);
            assert(contains_seq(lines[j + 1], "if ("@));
            assert(saw_all);
        }
        if saw_all {
            let j = choose|j: int| 0 <= j < lines.len() && contains_seq(lines[j], "if ("@);
            if j > 0 {
                assert(rest[j - 1] == lines[j]);
                assert(saw_rest);
            }
        }
        if contains_seq(lines[0], "if ("@) {
            assert(saw_all);
        }
    }
}


proof fn lemma_finish_space(st: ScanState)
    requires
        st.settings.space_before_parens.after_control_statements.value is None,
    ensures
        ({
            let fin = check_step(
                st,
                LineInfoView { line: Seq::<char>::empty(), finished: true },
            ).settings.space_before_parens;
            fin.after_control_statements.value == Some(st.space_after.space_after_if)
                && fin.after_function_definition_name.value == Some(
                st.space_after.space_after_function,
            ) && fin.space_before_parens.value == (
            if st.space_after.space_after_function && st.space_after.space_after_if {
                Some("Always"@)
            } else if !st.space_after.space_after_function && !st.space_after.space_after_if {
                Some("Never"@)
            } else if !st.space_after.space_after_function && st.space_after.space_after_if {
                Some("ControlStatements"@)
            } else {
                st.settings.space_before_parens.space_before_parens.value
            })
        }),
{
    let info = LineInfoView { line: Seq::<char>::empty(), finished: true };
    lemma_step_effects(st, info);
}

pub proof fn lemma_space_before_parens_control_statements(lines: Seq<Seq<char>>)
    requires
        exists|j: int| 0 <= j < lines.len() && contains_seq(#[trigger] lines[j], "if ("@),
        forall|j: int|
            0 <= j < lines.len() ==> !contains_seq(#[trigger] lines[j], "ReferenceClass ("@),
    ensures
        ({
            let fin = scan_and_finish(
                initial_scan_state(initial_settings()),
                lines,
            ).settings.space_before_parens;
            fin.space_before_parens.value == Some("ControlStatements"@)
                && fin.after_control_statements.value == Some(true)
                && fin.after_function_definition_name.value == Some(false)
        }),
{
    let st0 = initial_scan_state(initial_settings());
    lemma_scan_space(st0, lines);
    lemma_finish_space(scan_lines(st0, lines));
}


proof fn lemma_scan_reference_preserved(st: ScanState, lines: Seq<Seq<char>>)
    requires
        st.settings.alignment.reference_alignment.value is Some,
    ensures
        scan_lines(st, lines).settings.alignment.reference_alignment.value
            == st.settings.alignment.reference_alignment.value,
    decreases lines.len(),
{
    if lines.len() > 0 {
        let info = LineInfoView { line: lines[0], finished: false };
        lemma_step_effects(st, info);
        lemma_scan_reference_preserved(check_step(st, info), lines.drop_first());
    }
}

proof fn lemma_scan_reference_first(st: ScanState, lines: Seq<Seq<char>>, k: int)
    requires
        st.settings.alignment.reference_alignment.value is None,
        0 <= k < lines.len(),
        forall|j: int| 0 <= j < k ==> reference_choice(#[trigger] lines[j]) is None,
        reference_choice(lines[k]) is Some,
    ensures
        scan_lines(st, lines).settings.alignment.reference_alignment.value == reference_choice(
            lines[k],
        ),
    decreases k,
{
    let info = LineInfoView { line: lines[0], finished: false };
    lemma_step_effects(st, info);
    let st1 = check_step(st, info);
    let rest = lines.drop_first();
    if k == 0 {
        lemma_scan_reference_preserved(st1, rest);
    } else {
        assert(reference_choice(lines[0]) is None);
        assert forall|j: int|
            0 <= j < k - 1 implies reference_choice(#[trigger] rest[j]) is None by {
            assert(rest[j] == lines[j + 1]);
        }
        assert(rest[k - 1] == lines[k]);
        lemma_scan_reference_first(st1, rest, k - 1);
    }
}

/// First-match-wins for reference alignment, mirroring the pointer law with
/// the reference patterns.
pub proof fn lemma_reference_first_match_wins(lines: Seq<Seq<char>>, k: int)
    requires
        0 <= k < lines.len(),
        forall|j: int| 0 <= j < k ==> reference_choice(#[trigger] lines[j]) is None,
        reference_choice(lines[k]) is Some,
    ensures
        scan_and_finish(
            initial_scan_state(initial_settings()),
            lines,
        ).settings.alignment.reference_alignment.value == reference_choice(lines[k]),
{
    let st0 = initial_scan_state(initial_settings());
    lemma_scan_reference_first(st0, lines, k);
    lemma_step_effects(
        scan_lines(st0, lines),
        LineInfoView { line: Seq::<char>::empty(), finished: true },
    );
}

/// Rendering is deterministic: two renders of the same model view for the
/// same target version are the same line sequence, so rendering twice
/// yields identical output.
pub proof fn lemma_render_idempotent(
    m: ClangFormatSettingsView,
    version: u32,
    first: Seq<Seq<char>>,
    second: Seq<Seq<char>>,
)
    requires
        first == rendered_lines(m, version),
        second == rendered_lines(m, version),
    ensures
        first == second,
{
}

/// A leaf the target version does not admit is omitted entirely: it
/// contributes no line to the output, neither a value line nor a
/// placeholder.
pub proof fn lemma_gated_leaf_contributes_nothing<Arg: Render>(
    s: SettingView<Arg::V>,
    version: u32,
    indentation: bool,
)
    requires
        !spec_in_version(version, s.version),
    ensures
        setting_lines::<Arg>(s, version, indentation) == Seq::<Seq<char>>::empty(),
{
}

/// Two leaves look the same to the writer when their key and version tag
/// agree, and their values agree wherever the target version admits them.
pub open spec fn leaf_agrees<T>(a: SettingView<T>, b: SettingView<T>, version: u32) -> bool {
    a.command == b.command && a.version == b.version && (spec_in_version(version, a.version)
        ==> a.value == b.value)
}

/// Two models agree on everything the target version admits; leaves below
/// the version may hold arbitrary, differing values.
pub open spec fn models_agree_in_version(
    m1: ClangFormatSettingsView,
    m2: ClangFormatSettingsView,
    version: u32,
) -> bool {
    leaf_agrees(m1.language, m2.language, version) && leaf_agrees(
        m1.use_tab,
        m2.use_tab,
        version,
    ) && leaf_agrees(m1.column_limit, m2.column_limit, version) && leaf_agrees(
        m1.indent_width,
        m2.indent_width,
        version,
    ) && leaf_agrees(m1.max_empty_lines_to_keep, m2.max_empty_lines_to_keep, version)
        && leaf_agrees(
        m1.alignment.pointer_alignment,
        m2.alignment.pointer_alignment,
        version,
    ) && leaf_agrees(m1.alignment.reference_alignment, m2.alignment.reference_alignment, version)
        && leaf_agrees(m1.fix_namespace_comments, m2.fix_namespace_comments, version)
        && leaf_agrees(
        m1.break_before_braces.after_class,
        m2.break_before_braces.after_class,
        version,
    ) && leaf_agrees(
        m1.break_before_braces.after_namespace,
        m2.break_before_braces.after_namespace,
        version,
    ) && leaf_agrees(
        m1.break_before_braces.after_struct,
        m2.break_before_braces.after_struct,
        version,
    ) && leaf_agrees(
        m1.break_before_braces.after_function,
        m2.break_before_braces.after_function,
        version,
    ) && leaf_agrees(
        m1.break_before_braces.after_control_statement,
        m2.break_before_braces.after_control_statement,
        version,
    ) && leaf_agrees(
        m1.break_before_braces.after_enum,
        m2.break_before_braces.after_enum,
        version,
    ) && leaf_agrees(
        m1.break_before_braces.before_else,
        m2.break_before_braces.before_else,
        version,
    ) && leaf_agrees(m1.spaces_in_square_brackets, m2.spaces_in_square_brackets, version)
        && leaf_agrees(
        m1.space_before.space_before_assignment_operators,
        m2.space_before.space_before_assignment_operators,
        version,
    ) && leaf_agrees(
        m1.space_before.space_before_square_brackets,
        m2.space_before.space_before_square_brackets,
        version,
    ) && leaf_agrees(
        m1.spaces_in_parens.in_conditional_statements,
        m2.spaces_in_parens.in_conditional_statements,
        version,
    ) && leaf_agrees(m1.spaces_in_parens.other, m2.spaces_in_parens.other, version)
        && leaf_agrees(
        m1.spaces_in_parens.spaces_in_conditional_statement,
        m2.spaces_in_parens.spaces_in_conditional_statement,
        version,
    ) && leaf_agrees(
        m1.spaces_in_parens.spaces_in_parentheses,
        m2.spaces_in_parens.spaces_in_parentheses,
        version,
    ) && leaf_agrees(
        m1.space_before_parens.space_before_parens,
        m2.space_before_parens.space_before_parens,
        version,
    ) && leaf_agrees(
        m1.space_before_parens.after_control_statements,
        m2.space_before_parens.after_control_statements,
        version,
    ) && leaf_agrees(
        m1.space_before_parens.after_function_definition_name,
        m2.space_before_parens.after_function_definition_name,
        version,
    )
}

/// Version gating leaves no trace: a leaf whose minimum version the target
/// does not meet contributes nothing to the output, so two models that agree
/// on every admitted leaf render identically, whatever the gated-out leaves
/// hold.  (The one cross-leaf reading, the pointer/reference collapse, asks
/// that the pointer leaf not be introduced after the reference leaf, as in
/// the model this system builds.)
#[verifier::rlimit(100)]
#[verifier::spinoff_prover]
pub proof fn lemma_version_gating_leaves_no_trace(
    m1: ClangFormatSettingsView,
    m2: ClangFormatSettingsView,
    version: u32,
)
    requires
        models_agree_in_version(m1, m2, version),
        spec_in_version(version, m1.alignment.reference_alignment.version) ==> spec_in_version(
            version,
            m1.alignment.pointer_alignment.version,
        ),
    ensures
        rendered_lines(m1, version) == rendered_lines(m2, version),
{
    assert(crate::write_cfg::braces_lines(m1, version) == crate::write_cfg::braces_lines(
        m2,
        version,
    ));
    assert(crate::write_cfg::parens_lines(m1, version) == crate::write_cfg::parens_lines(
        m2,
        version,
    ));
    assert(crate::write_cfg::spacing_lines(m1, version) == crate::write_cfg::spacing_lines(
        m2,
        version,
    ));
    assert(crate::write_cfg::alignment_lines(m1, version) == crate::write_cfg::alignment_lines(
        m2,
        version,
    ));
    assert(crate::write_cfg::space_before_parens_lines(m1, version)
        == crate::write_cfg::space_before_parens_lines(m2, version));
}

} // verus!
