//! The version-gated writer: renders a populated settings model as an
//! ordered sequence of configuration lines for a target clang-format
//! version.  `rendered_lines` is the spec-level image of the whole output;
//! the executable writer is proved to produce exactly that sequence.

use crate::clang_format_lib::{
    ClangFormatSettings, ClangFormatSettingsView, Setting, SettingView, ALIGNMENT, VERSION,
};
use crate::text::{dec_rep, u32_to_string};
use vstd::prelude::*;
use vstd::string::StringExecFns;

verus! {

/// The ordinal of each release tag; comparison is purely numeric.
pub open spec fn version_ordinal(v: VERSION) -> u32 {
    match v {
        VERSION::V3_5 => 35,
        VERSION::V3_7 => 37,
        VERSION::V3_8 => 38,
        VERSION::V5_0 => 50,
        VERSION::V10_0 => 100,
        VERSION::V13_0 => 130,
        VERSION::V14_0 => 140,
        VERSION::V16_0 => 160,
        VERSION::V17_0 => 170,
        VERSION::V18_0 => 180,
    }
}

/// Converts a release tag to its comparable ordinal.
pub fn version_to_uint(v: &VERSION) -> (r: u32)
    ensures
        r == version_ordinal(*v),
{
    match v {
        VERSION::V3_5 => 35,
        VERSION::V3_7 => 37,
        VERSION::V3_8 => 38,
        VERSION::V5_0 => 50,
        VERSION::V10_0 => 100,
        VERSION::V13_0 => 130,
        VERSION::V14_0 => 140,
        VERSION::V16_0 => 160,
        VERSION::V17_0 => 170,
        VERSION::V18_0 => 180,
    }
}

/// The sole gating predicate: the target meets or exceeds the introduction.
pub open spec fn spec_in_version(version: u32, introduces: VERSION) -> bool {
    version >= version_ordinal(introduces)
}

pub fn in_version(version: u32, introduces: &VERSION) -> (r: bool)
    ensures
        r == spec_in_version(version, *introduces),
{
    version >= version_to_uint(introduces)
}

/// Half-open era: introduced at `introduced`, superseded at `outdated`.
pub fn in_version_range(version: u32, introduced: &VERSION, outdated: &VERSION) -> (r: bool)
    ensures
        r == (spec_in_version(version, *introduced) && !spec_in_version(version, *outdated)),
{
    in_version(version, introduced) && !in_version(version, outdated)
}

/// `"17.0"` for ordinal `170`: major part, a dot, one minor digit.
pub open spec fn version_rep(version: u32) -> Seq<char> {
    dec_rep((version / 10) as nat) + "."@ + dec_rep((version % 10) as nat)
}

/// Renders a version ordinal as the familiar dotted form.
pub fn format_version(version: u32) -> (s: String)
    ensures
        s@ == version_rep(version),
{
    let major = version / 10;
    let minor = version - major * 10;
    assert(minor == version % 10);
    let mut s = u32_to_string(major);
    s.append(".");
    let m = u32_to_string(minor);
    s.append(m.as_str());
    s
}

/// The configuration spelling of each alignment variant.
pub open spec fn alignment_rep(a: ALIGNMENT) -> Seq<char> {
    match a {
        ALIGNMENT::LEFT => "Left"@,
        ALIGNMENT::MIDDLE => "Middle"@,
        ALIGNMENT::RIGHT => "Right"@,
    }
}

impl ALIGNMENT {
    /// The configuration spelling of this variant.
    pub fn value_to_string(&self) -> (s: String)
        ensures
            s@ == alignment_rep(*self),
    {
        match self {
            ALIGNMENT::LEFT => String::from_str("Left"),
            ALIGNMENT::MIDDLE => String::from_str("Middle"),
            ALIGNMENT::RIGHT => String::from_str("Right"),
        }
    }
}

/// A value a `Setting` leaf can render into the output document.
pub trait Render: View {
    /// How the value's view reads in the output.
    spec fn render_view(v: Self::V) -> Seq<char>;

    /// Renders the value, exactly `render_view`.
    fn render(&self) -> (s: String)
        ensures
            s@ == Self::render_view(self@),
    ;
}

impl Render for u32 {
    open spec fn render_view(v: u32) -> Seq<char> {
        dec_rep(v as nat)
    }

    fn render(&self) -> (s: String) {
        u32_to_string(*self)
    }
}

impl Render for bool {
    open spec fn render_view(v: bool) -> Seq<char> {
        if v {
            "true"@
        } else {
            "false"@
        }
    }

    fn render(&self) -> (s: String) {
        if *self {
            String::from_str("true")
        } else {
            String::from_str("false")
        }
    }
}

impl Render for ALIGNMENT {
    open spec fn render_view(v: ALIGNMENT) -> Seq<char> {
        alignment_rep(v)
    }

    fn render(&self) -> (s: String) {
        self.value_to_string()
    }
}

impl Render for &'static str {
    open spec fn render_view(v: Seq<char>) -> Seq<char> {
        v
    }

    fn render(&self) -> (s: String) {
        String::from_str(self)
    }
}

/// The lines one leaf contributes: nothing when the target version predates
/// it; `command: value` (optionally indented) when assigned; a commented
/// placeholder when unset but applicable.
pub open spec fn setting_lines<Arg: Render>(
    s: SettingView<Arg::V>,
    version: u32,
    indentation: bool,
) -> Seq<Seq<char>> {
    if !spec_in_version(version, s.version) {
        Seq::empty()
    } else {
        match s.value {
            Some(v) => seq![
                (if indentation {
                    "  "@
                } else {
                    Seq::<char>::empty()
                }) + s.command + ": "@ + Arg::render_view(v),
            ],
            None => seq!["# "@ + s.command + ": ?"@],
        }
    }
}

/// The views of a line buffer.
pub open spec fn line_views(lines: Seq<String>) -> Seq<Seq<char>> {
    lines.map_values(|l: String| l@)
}

/// One blank separator line.
pub open spec fn blank_line() -> Seq<Seq<char>> {
    seq![Seq::<char>::empty()]
}

/// The two header comments and a blank line.
pub open spec fn head_lines(version: u32) -> Seq<Seq<char>> {
    seq![
        "# created with clang-format-cfg-generator-rs"@,
        "# created for clang-format version "@ + version_rep(version),
        Seq::<char>::empty(),
    ]
}

struct Writer {
    lines: Vec<String>,
    version: u32,
}

impl Writer {
    fn new(version: u32) -> (w: Writer)
        ensures
            w.version == version,
            w.lines@ =~= Seq::<String>::empty(),
    {
        Writer { lines: Vec::new(), version }
    }

    fn head(&mut self)
        ensures
            final(self).version == old(self).version,
            line_views(final(self).lines@) == line_views(old(self).lines@) + head_lines(
                old(self).version,
            ),
    {
        self.lines.push(String::from_str("# created with clang-format-cfg-generator-rs"));

        let mut line = String::from_str("# created for clang-format version ");
        let v = format_version(self.version);
        line.append(v.as_str());
        self.lines.push(line);

        self.new_line();
        assert(line_views(self.lines@) =~= line_views(old(self).lines@) + head_lines(
            old(self).version,
        ));
    }

    fn write_text(&mut self, text: &str)
        ensures
            final(self).version == old(self).version,
            line_views(final(self).lines@) == line_views(old(self).lines@) + seq![text@],
    {
        self.lines.push(String::from_str(text));
        proof {
            assert(line_views(self.lines@) =~= line_views(old(self).lines@) + seq![text@]);
        }
    }

    fn new_line(&mut self)
        ensures
            final(self).version == old(self).version,
            line_views(final(self).lines@) == line_views(old(self).lines@) + blank_line(),
    {
        self.lines.push(String::new());
        proof {
            assert(line_views(self.lines@) =~= line_views(old(self).lines@) + blank_line());
        }
    }

    fn write<Arg: Render>(&mut self, s: &Setting<Arg>, indentation: bool)
        ensures
            final(self).version == old(self).version,
            line_views(final(self).lines@) == line_views(old(self).lines@) + setting_lines::<
                Arg,
            >(s@, old(self).version, indentation),
    {
        if !in_version(self.version, &s.version) {
            proof {
                assert(line_views(self.lines@) =~= line_views(self.lines@) + Seq::<
                    Seq<char>,
                >::empty());
            }
            return ;
        }
        let mut oss = String::new();

        if s.is_set() {
            if indentation {
                oss.append("  ");
            }
            oss.append(s.command);
            oss.append(": ");
            match s.get_value() {
                Some(v) => {
                    let r = v.render();
                    oss.append(r.as_str());
                },
                None => {
                    proof {
                        assert(false);
                    }
                },
            }
        } else {
            oss.append("# ");
            oss.append(s.command);
            oss.append(": ?");
        }

        self.lines.push(oss);
        proof {
            assert(line_views(self.lines@) =~= line_views(old(self).lines@) + setting_lines::<
                Arg,
            >(s@, old(self).version, indentation));
        }
    }

    fn in_version<Arg: View>(&self, s: &Setting<Arg>) -> (r: bool)
        ensures
            r == spec_in_version(self.version, s@.version),
    {
        in_version(self.version, &s.version)
    }

    fn write_language(&mut self, settings: &ClangFormatSettings)
        ensures
            final(self).version == old(self).version,
            line_views(final(self).lines@) == line_views(old(self).lines@) + language_lines(
                settings@,
                old(self).version,
            ),
    {
        self.write(&settings.language, false);
        self.new_line();
        proof {
            assert(line_views(self.lines@) =~= line_views(old(self).lines@) + language_lines(
                settings@,
                old(self).version,
            ));
        }
    }

    fn write_general(&mut self, settings: &ClangFormatSettings)
        ensures
            final(self).version == old(self).version,
            line_views(final(self).lines@) == line_views(old(self).lines@) + general_lines(
                settings@,
                old(self).version,
            ),
    {
        self.write(&settings.use_tab, false);
        self.write(&settings.indent_width, false);
        self.write(&settings.column_limit, false);
        self.write(&settings.max_empty_lines_to_keep, false);
        self.write(&settings.fix_namespace_comments, false);
        self.new_line();
        proof {
            assert(line_views(self.lines@) =~= line_views(old(self).lines@) + general_lines(
                settings@,
                old(self).version,
            ));
        }
    }

    #[verifier::rlimit(100)]
    #[verifier::spinoff_prover]
    fn write_braces(&mut self, settings: &ClangFormatSettings)
        ensures
            final(self).version == old(self).version,
            line_views(final(self).lines@) == line_views(old(self).lines@) + braces_block_lines(
                settings@,
                old(self).version,
            ),
    {
        if in_version(self.version, &VERSION::V3_8) {
            self.write_text("BreakBeforeBraces: Custom");
            self.write_text("BraceWrapping:");

            self.write(&settings.break_before_braces.after_class, true);
            self.write(&settings.break_before_braces.after_function, true);
            self.write(&settings.break_before_braces.after_namespace, true);
            self.write(&settings.break_before_braces.after_struct, true);
            self.write(&settings.break_before_braces.after_control_statement, true);
            self.write(&settings.break_before_braces.after_enum, true);
            self.write(&settings.break_before_braces.before_else, true);
        }
        proof {
            assert(line_views(self.lines@) =~= line_views(old(self).lines@) + braces_lines(
                settings@,
                old(self).version,
            ));
        }
        self.new_line();
        proof {
            assert(line_views(self.lines@) =~= line_views(old(self).lines@) + braces_block_lines(
                settings@,
                old(self).version,
            ));
        }
    }

    fn write_parens(&mut self, settings: &ClangFormatSettings)
        ensures
            final(self).version == old(self).version,
            line_views(final(self).lines@) == line_views(old(self).lines@) + parens_block_lines(
                settings@,
                old(self).version,
            ),
    {
        if in_version_range(self.version, &VERSION::V3_7, &VERSION::V10_0) {
            self.write(&settings.spaces_in_parens.spaces_in_parentheses, false);
        } else if in_version_range(self.version, &VERSION::V10_0, &VERSION::V17_0) {
            self.write(&settings.spaces_in_parens.spaces_in_conditional_statement, false);
        } else if in_version(self.version, &VERSION::V17_0) {
            self.write_text("SpacesInParens: Custom");
            self.write_text("SpacesInParensOptions:");

            self.write(&settings.spaces_in_parens.in_conditional_statements, true);
            self.write(&settings.spaces_in_parens.other, true);
        }
        proof {
            assert(line_views(self.lines@) =~= line_views(old(self).lines@) + parens_lines(
                settings@,
                old(self).version,
            ));
        }
        self.new_line();
        proof {
            assert(line_views(self.lines@) =~= line_views(old(self).lines@) + parens_block_lines(
                settings@,
                old(self).version,
            ));
        }
    }

    fn write_spacing(&mut self, settings: &ClangFormatSettings)
        ensures
            final(self).version == old(self).version,
            line_views(final(self).lines@) == line_views(old(self).lines@) + spacing_lines(
                settings@,
                old(self).version,
            ),
    {
        self.write(&settings.space_before.space_before_assignment_operators, false);
        self.write(&settings.spaces_in_parens.spaces_in_parentheses, false);
        self.write(&settings.space_before.space_before_square_brackets, false);
        proof {
            assert(line_views(self.lines@) =~= line_views(old(self).lines@) + spacing_lines(
                settings@,
                old(self).version,
            ));
        }
    }

    fn write_alignment(&mut self, settings: &ClangFormatSettings)
        ensures
            final(self).version == old(self).version,
            line_views(final(self).lines@) == line_views(old(self).lines@)
                + alignment_block_lines(settings@, old(self).version),
    {
        self.write(&settings.alignment.pointer_alignment, false);

        let same = match (
            settings.alignment.pointer_alignment.get_value(),
            settings.alignment.reference_alignment.get_value(),
        ) {
            (Some(p), Some(r)) => *p == *r,
            _ => false,
        };
        if self.in_version(&settings.alignment.reference_alignment) && same {
            self.write_text("ReferenceAlignment: Pointer");
        } else {
            self.write(&settings.alignment.reference_alignment, false);
        }
        proof {
            assert(line_views(self.lines@) =~= line_views(old(self).lines@) + alignment_lines(
                settings@,
                old(self).version,
            ));
        }
        self.new_line();
        proof {
            assert(line_views(self.lines@) =~= line_views(old(self).lines@)
                + alignment_block_lines(settings@, old(self).version));
        }
    }

    fn write_space_before_parens(&mut self, settings: &ClangFormatSettings)
        ensures
            final(self).version == old(self).version,
            line_views(final(self).lines@) == line_views(old(self).lines@)
                + space_before_parens_lines(settings@, old(self).version),
    {
        if in_version_range(self.version, &VERSION::V3_5, &VERSION::V14_0) {
            self.write(&settings.space_before_parens.space_before_parens, false);
        } else if in_version(self.version, &VERSION::V14_0) {
            self.write_text("SpaceBeforeParens: Custom");
            self.write_text("SpaceBeforeParensOptions:");

            self.write(&settings.space_before_parens.after_control_statements, true);
            self.write(
                &settings.space_before_parens.after_function_definition_name,
                true,
            );
        }
        proof {
            assert(line_views(self.lines@) =~= line_views(old(self).lines@)
                + space_before_parens_lines(settings@, old(self).version));
        }
    }
}

/// The language line and its separating blank.
pub open spec fn language_lines(m: ClangFormatSettingsView, version: u32) -> Seq<Seq<char>> {
    setting_lines::<&'static str>(m.language, version, false) + blank_line()
}

/// The flat general options and their separating blank.
pub open spec fn general_lines(m: ClangFormatSettingsView, version: u32) -> Seq<Seq<char>> {
    setting_lines::<&'static str>(m.use_tab, version, false) + setting_lines::<u32>(
        m.indent_width,
        version,
        false,
    ) + setting_lines::<u32>(m.column_limit, version, false) + setting_lines::<u32>(
        m.max_empty_lines_to_keep,
        version,
        false,
    ) + setting_lines::<bool>(m.fix_namespace_comments, version, false) + blank_line()
}

/// The brace-wrapping block, present from its introducing version on.
pub open spec fn braces_lines(m: ClangFormatSettingsView, version: u32) -> Seq<Seq<char>> {
    if spec_in_version(version, VERSION::V3_8) {
        seq!["BreakBeforeBraces: Custom"@, "BraceWrapping:"@]
            + setting_lines::<bool>(m.break_before_braces.after_class, version, true)
            + setting_lines::<bool>(m.break_before_braces.after_function, version, true)
            + setting_lines::<bool>(m.break_before_braces.after_namespace, version, true)
            + setting_lines::<bool>(m.break_before_braces.after_struct, version, true)
            + setting_lines::<bool>(m.break_before_braces.after_control_statement, version, true)
            + setting_lines::<bool>(m.break_before_braces.after_enum, version, true)
            + setting_lines::<bool>(m.break_before_braces.before_else, version, true)
    } else {
        Seq::empty()
    }
}

pub open spec fn braces_block_lines(m: ClangFormatSettingsView, version: u32) -> Seq<Seq<char>> {
    braces_lines(m, version) + blank_line()
}

/// The spaces-in-parens options across their three historical renderings.
pub open spec fn parens_lines(m: ClangFormatSettingsView, version: u32) -> Seq<Seq<char>> {
    if spec_in_version(version, VERSION::V3_7) && !spec_in_version(version, VERSION::V10_0) {
        setting_lines::<bool>(m.spaces_in_parens.spaces_in_parentheses, version, false)
    } else if spec_in_version(version, VERSION::V10_0) && !spec_in_version(
        version,
        VERSION::V17_0,
    ) {
        setting_lines::<bool>(m.spaces_in_parens.spaces_in_conditional_statement, version, false)
    } else if spec_in_version(version, VERSION::V17_0) {
        seq!["SpacesInParens: Custom"@, "SpacesInParensOptions:"@]
            + setting_lines::<bool>(m.spaces_in_parens.in_conditional_statements, version, true)
            + setting_lines::<bool>(m.spaces_in_parens.other, version, true)
    } else {
        Seq::empty()
    }
}

pub open spec fn parens_block_lines(m: ClangFormatSettingsView, version: u32) -> Seq<Seq<char>> {
    parens_lines(m, version) + blank_line()
}

/// The flat spacing switches written between the grouped blocks.
pub open spec fn spacing_lines(m: ClangFormatSettingsView, version: u32) -> Seq<Seq<char>> {
    setting_lines::<bool>(m.space_before.space_before_assignment_operators, version, false)
        + setting_lines::<bool>(m.spaces_in_parens.spaces_in_parentheses, version, false)
        + setting_lines::<bool>(m.space_before.space_before_square_brackets, version, false)
}

/// Pointer alignment, then reference alignment: collapsed onto the pointer
/// directive when both are assigned and equal, otherwise rendered like any
/// other leaf (value when assigned, placeholder when unset, nothing below
/// its version).
pub open spec fn alignment_lines(m: ClangFormatSettingsView, version: u32) -> Seq<Seq<char>> {
    setting_lines::<ALIGNMENT>(m.alignment.pointer_alignment, version, false) + (
    if spec_in_version(version, m.alignment.reference_alignment.version)
        && m.alignment.pointer_alignment.value is Some
        && m.alignment.reference_alignment.value is Some
        && m.alignment.pointer_alignment.value == m.alignment.reference_alignment.value {
        seq!["ReferenceAlignment: Pointer"@]
    } else {
        setting_lines::<ALIGNMENT>(m.alignment.reference_alignment, version, false)
    })
}

pub open spec fn alignment_block_lines(
    m: ClangFormatSettingsView,
    version: u32,
) -> Seq<Seq<char>> {
    alignment_lines(m, version) + blank_line()
}

/// The space-before-parens cluster across its two historical renderings:
/// the flat combined text key before the options era, and from then on the
/// structured block with the two underlying switches.
pub open spec fn space_before_parens_lines(
    m: ClangFormatSettingsView,
    version: u32,
) -> Seq<Seq<char>> {
    if spec_in_version(version, VERSION::V3_5) && !spec_in_version(version, VERSION::V14_0) {
        setting_lines::<&'static str>(m.space_before_parens.space_before_parens, version, false)
    } else if spec_in_version(version, VERSION::V14_0) {
        seq!["SpaceBeforeParens: Custom"@, "SpaceBeforeParensOptions:"@]
            + setting_lines::<bool>(
            m.space_before_parens.after_control_statements,
            version,
            true,
        ) + setting_lines::<bool>(
            m.space_before_parens.after_function_definition_name,
            version,
            true,
        )
    } else {
        Seq::empty()
    }
}

/// The whole rendered document for a model and a target version.
pub open spec fn rendered_lines(m: ClangFormatSettingsView, version: u32) -> Seq<Seq<char>> {
    head_lines(version) + language_lines(m, version) + general_lines(m, version)
        + braces_block_lines(m, version) + parens_block_lines(m, version) + spacing_lines(
        m,
        version,
    ) + alignment_block_lines(m, version) + space_before_parens_lines(m, version)
}

/// Renders the model for the target version, appending exactly
/// `rendered_lines(settings@, version)` to `lines`.  The output is a pure
/// function of the model view and the version: rendering the same populated
/// model twice for the same target yields identical line sequences.
pub fn write_clang_format_file(settings: &ClangFormatSettings, version: u32, lines: &mut Vec<String>)
    ensures
        line_views(final(lines)@) == line_views(old(lines)@) + rendered_lines(
            settings@,
            version,
        ),
{
    let ghost m = settings@;
    let mut writer = Writer::new(version);

    writer.head();
    proof {
        assert(line_views(writer.lines@) =~= head_lines(version));
    }
    writer.write_language(settings);
    writer.write_general(settings);
    writer.write_braces(settings);
    writer.write_parens(settings);
    writer.write_spacing(settings);
    writer.write_alignment(settings);
    writer.write_space_before_parens(settings);

    let ghost total = line_views(writer.lines@);
    proof {
        assert(total == rendered_lines(m, version));
    }
    lines.append(&mut writer.lines);
    proof {
        assert(line_views(lines@) =~= line_views(old(lines)@) + total);
    }
}

} // verus!
