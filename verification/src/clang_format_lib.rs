//! The versioned settings model: every configurable option is a `Setting`
//! leaf carrying its canonical output key, the clang-format version that
//! introduced it, and an optionally-assigned value.

use vstd::prelude::*;

verus! {

/// The clang-format releases the writer knows how to target.
#[derive(Clone, Copy, PartialEq, Eq, Hash, Structural)]
pub enum VERSION {
    V3_5,
    V3_7,
    V3_8,
    V5_0,
    V10_0,
    V13_0,
    V14_0,
    V16_0,
    V17_0,
    V18_0,
}

/// Pointer / reference placement style.
#[derive(Clone, Copy, PartialEq, Eq, Hash, Structural)]
pub enum ALIGNMENT {
    LEFT,
    MIDDLE,
    RIGHT,
}

impl View for ALIGNMENT {
    type V = ALIGNMENT;

    open spec fn view(&self) -> ALIGNMENT {
        *self
    }
}

/// A named, versioned, optionally-assigned configuration leaf.
pub struct Setting<Arg> {
    pub command: &'static str,
    pub data: Option<Arg>,
    pub version: VERSION,
}

/// Spec-level image of a `Setting`: the key as characters, the version tag,
/// and the assigned value's view, if any.
pub ghost struct SettingView<T> {
    pub command: Seq<char>,
    pub version: VERSION,
    pub value: Option<T>,
}

impl<Arg: View> View for Setting<Arg> {
    type V = SettingView<Arg::V>;

    open spec fn view(&self) -> SettingView<Arg::V> {
        SettingView {
            command: self.command@,
            version: self.version,
            value: match self.data {
                Some(v) => Some(v@),
                None => None,
            },
        }
    }
}

impl<Arg: View> Setting<Arg> {
    /// An unset setting under the given key and minimum version.
    pub fn new(command: &'static str, version: VERSION) -> (s: Self)
        ensures
            s@ == (SettingView { command: command@, version, value: None::<Arg::V> }),
    {
        Self { command, data: None, version }
    }

    /// Assigns the value; the key and version tag are untouched.
    pub fn set(&mut self, data: Arg)
        ensures
            final(self)@ == (SettingView { value: Some(data@), ..old(self)@ }),
    {
        self.data = Some(data);
    }

    /// Whether a rule has assigned this leaf.
    pub fn is_set(&self) -> (r: bool)
        ensures
            r == (self@.value is Some),
    {
        self.data.is_some()
    }

    /// The assigned value, if any.
    pub fn get_value(&self) -> (r: Option<&Arg>)
        ensures
            match r {
                Some(v) => self@.value == Some(v@),
                None => self@.value is None,
            },
    {
        self.data.as_ref()
    }
}

pub type SettingText = Setting<&'static str>;

pub type SettingNumber = Setting<u32>;

pub type SettingSwitch = Setting<bool>;

pub type SettingAlignment = Setting<ALIGNMENT>;

/// The full settings model: a fixed tree of independent leaves.
pub struct ClangFormatSettings {
    pub language: SettingText,
    pub use_tab: SettingText,
    pub column_limit: SettingNumber,
    pub indent_width: SettingNumber,
    pub max_empty_lines_to_keep: SettingNumber,
    pub alignment: AlignmentSettings,
    pub fix_namespace_comments: SettingSwitch,
    pub break_before_braces: BreakBeforeBracesSettings,
    pub spaces_in_square_brackets: SettingSwitch,
    pub space_before: SpaceBeforeSettings,
    pub spaces_in_parens: SpacesInParensSettings,
    pub space_before_parens: SpaceBeforeParensSettings,
}

pub struct AlignmentSettings {
    pub pointer_alignment: SettingAlignment,
    pub reference_alignment: SettingAlignment,
}

pub struct BreakBeforeBracesSettings {
    pub after_class: SettingSwitch,
    pub after_namespace: SettingSwitch,
    pub after_struct: SettingSwitch,
    pub after_function: SettingSwitch,
    pub after_control_statement: SettingSwitch,
    pub after_enum: SettingSwitch,
    pub before_else: SettingSwitch,
}

pub struct SpaceBeforeSettings {
    pub space_before_assignment_operators: SettingSwitch,
    pub space_before_square_brackets: SettingSwitch,
}

pub struct SpacesInParensSettings {
    pub in_conditional_statements: SettingSwitch,
    pub other: SettingSwitch,
    pub spaces_in_conditional_statement: SettingSwitch,
    pub spaces_in_parentheses: SettingSwitch,
}

pub struct SpaceBeforeParensSettings {
    pub space_before_parens: SettingText,
    pub after_control_statements: SettingSwitch,
    pub after_function_definition_name: SettingSwitch,
}

pub ghost struct AlignmentSettingsView {
    pub pointer_alignment: SettingView<ALIGNMENT>,
    pub reference_alignment: SettingView<ALIGNMENT>,
}

pub ghost struct BreakBeforeBracesSettingsView {
    pub after_class: SettingView<bool>,
    pub after_namespace: SettingView<bool>,
    pub after_struct: SettingView<bool>,
    pub after_function: SettingView<bool>,
    pub after_control_statement: SettingView<bool>,
    pub after_enum: SettingView<bool>,
    pub before_else: SettingView<bool>,
}

pub ghost struct SpaceBeforeSettingsView {
    pub space_before_assignment_operators: SettingView<bool>,
    pub space_before_square_brackets: SettingView<bool>,
}

pub ghost struct SpacesInParensSettingsView {
    pub in_conditional_statements: SettingView<bool>,
    pub other: SettingView<bool>,
    pub spaces_in_conditional_statement: SettingView<bool>,
    pub spaces_in_parentheses: SettingView<bool>,
}

pub ghost struct SpaceBeforeParensSettingsView {
    pub space_before_parens: SettingView<Seq<char>>,
    pub after_control_statements: SettingView<bool>,
    pub after_function_definition_name: SettingView<bool>,
}

pub ghost struct ClangFormatSettingsView {
    pub language: SettingView<Seq<char>>,
    pub use_tab: SettingView<Seq<char>>,
    pub column_limit: SettingView<u32>,
    pub indent_width: SettingView<u32>,
    pub max_empty_lines_to_keep: SettingView<u32>,
    pub alignment: AlignmentSettingsView,
    pub fix_namespace_comments: SettingView<bool>,
    pub break_before_braces: BreakBeforeBracesSettingsView,
    pub spaces_in_square_brackets: SettingView<bool>,
    pub space_before: SpaceBeforeSettingsView,
    pub spaces_in_parens: SpacesInParensSettingsView,
    pub space_before_parens: SpaceBeforeParensSettingsView,
}

impl View for AlignmentSettings {
    type V = AlignmentSettingsView;

    open spec fn view(&self) -> AlignmentSettingsView {
        AlignmentSettingsView {
            pointer_alignment: self.pointer_alignment@,
            reference_alignment: self.reference_alignment@,
        }
    }
}

impl View for BreakBeforeBracesSettings {
    type V = BreakBeforeBracesSettingsView;

    open spec fn view(&self) -> BreakBeforeBracesSettingsView {
        BreakBeforeBracesSettingsView {
            after_class: self.after_class@,
            after_namespace: self.after_namespace@,
            after_struct: self.after_struct@,
            after_function: self.after_function@,
            after_control_statement: self.after_control_statement@,
            after_enum: self.after_enum@,
            before_else: self.before_else@,
        }
    }
}

impl View for SpaceBeforeSettings {
    type V = SpaceBeforeSettingsView;

    open spec fn view(&self) -> SpaceBeforeSettingsView {
        SpaceBeforeSettingsView {
            space_before_assignment_operators: self.space_before_assignment_operators@,
            space_before_square_brackets: self.space_before_square_brackets@,
        }
    }
}

impl View for SpacesInParensSettings {
    type V = SpacesInParensSettingsView;

    open spec fn view(&self) -> SpacesInParensSettingsView {
        SpacesInParensSettingsView {
            in_conditional_statements: self.in_conditional_statements@,
            other: self.other@,
            spaces_in_conditional_statement: self.spaces_in_conditional_statement@,
            spaces_in_parentheses: self.spaces_in_parentheses@,
        }
    }
}

impl View for SpaceBeforeParensSettings {
    type V = SpaceBeforeParensSettingsView;

    open spec fn view(&self) -> SpaceBeforeParensSettingsView {
        SpaceBeforeParensSettingsView {
            space_before_parens: self.space_before_parens@,
            after_control_statements: self.after_control_statements@,
            after_function_definition_name: self.after_function_definition_name@,
        }
    }
}

impl View for ClangFormatSettings {
    type V = ClangFormatSettingsView;

    open spec fn view(&self) -> ClangFormatSettingsView {
        ClangFormatSettingsView {
            language: self.language@,
            use_tab: self.use_tab@,
            column_limit: self.column_limit@,
            indent_width: self.indent_width@,
            max_empty_lines_to_keep: self.max_empty_lines_to_keep@,
            alignment: self.alignment@,
            fix_namespace_comments: self.fix_namespace_comments@,
            break_before_braces: self.break_before_braces@,
            spaces_in_square_brackets: self.spaces_in_square_brackets@,
            space_before: self.space_before@,
            spaces_in_parens: self.spaces_in_parens@,
            space_before_parens: self.space_before_parens@,
        }
    }
}

/// An unset leaf under `command` and `version`.
pub open spec fn unset<T>(command: Seq<char>, version: VERSION) -> SettingView<T> {
    SettingView { command, version, value: None }
}

/// A pre-assigned leaf.
pub open spec fn preset<T>(command: Seq<char>, version: VERSION, value: T) -> SettingView<T> {
    SettingView { command, version, value: Some(value) }
}

/// The model as created for each run: every leaf unset except the two
/// pre-seeded defaults (language tag and tab policy).
pub open spec fn initial_settings() -> ClangFormatSettingsView {
    ClangFormatSettingsView {
        language: preset("Language"@, VERSION::V3_5, "Cpp"@),
        use_tab: preset("UseTab"@, VERSION::V3_7, "Never"@),
        column_limit: unset("ColumnLimit"@, VERSION::V3_7),
        indent_width: unset("IndentWidth"@, VERSION::V3_7),
        max_empty_lines_to_keep: unset("MaxEmptyLinesToKeep"@, VERSION::V3_7),
        alignment: AlignmentSettingsView {
            pointer_alignment: unset("PointerAlignment"@, VERSION::V3_7),
            reference_alignment: unset("ReferenceAlignment"@, VERSION::V13_0),
        },
        fix_namespace_comments: unset("FixNamespaceComments"@, VERSION::V5_0),
        break_before_braces: BreakBeforeBracesSettingsView {
            after_class: unset("AfterClass"@, VERSION::V3_8),
            after_namespace: unset("AfterNamespace"@, VERSION::V3_8),
            after_struct: unset("AfterStruct"@, VERSION::V3_8),
            after_function: unset("AfterFunction"@, VERSION::V3_8),
            after_control_statement: unset("AfterControlStatement"@, VERSION::V3_8),
            after_enum: unset("AfterEnum"@, VERSION::V3_8),
            before_else: unset("BeforeElse"@, VERSION::V3_8),
        },
        spaces_in_square_brackets: unset("SpacesInSquareBrackets"@, VERSION::V3_7),
        space_before: SpaceBeforeSettingsView {
            space_before_assignment_operators: unset(
                "SpaceBeforeAssignmentOperators"@,
                VERSION::V3_7,
            ),
            space_before_square_brackets: unset("SpaceBeforeSquareBrackets"@, VERSION::V10_0),
        },
        spaces_in_parens: SpacesInParensSettingsView {
            in_conditional_statements: unset("InConditionalStatements"@, VERSION::V17_0),
            other: unset("Other"@, VERSION::V17_0),
            spaces_in_conditional_statement: unset(
                "SpacesInConditionalStatement"@,
                VERSION::V10_0,
            ),
            spaces_in_parentheses: unset("SpacesInParentheses"@, VERSION::V3_7),
        },
        space_before_parens: SpaceBeforeParensSettingsView {
            space_before_parens: unset("SpaceBeforeParens"@, VERSION::V3_5),
            after_control_statements: unset("AfterControlStatements"@, VERSION::V14_0),
            after_function_definition_name: unset(
                "AfterFunctionDefinitionName"@,
                VERSION::V14_0,
            ),
        },
    }
}

impl ClangFormatSettings {
    /// The model for a fresh run, exactly `initial_settings()`.
    pub fn new() -> (s: Self)
        ensures
            s@ == initial_settings(),
    {
        let mut settings = ClangFormatSettings {
            language: SettingText::new("Language", VERSION::V3_5),
            use_tab: SettingText::new("UseTab", VERSION::V3_7),
            column_limit: SettingNumber::new("ColumnLimit", VERSION::V3_7),
            indent_width: SettingNumber::new("IndentWidth", VERSION::V3_7),
            max_empty_lines_to_keep: SettingNumber::new("MaxEmptyLinesToKeep", VERSION::V3_7),
            alignment: AlignmentSettings {
                pointer_alignment: SettingAlignment::new("PointerAlignment", VERSION::V3_7),
                reference_alignment: SettingAlignment::new("ReferenceAlignment", VERSION::V13_0),
            },
            fix_namespace_comments: SettingSwitch::new("FixNamespaceComments", VERSION::V5_0),
            break_before_braces: BreakBeforeBracesSettings {
                after_class: SettingSwitch::new("AfterClass", VERSION::V3_8),
                after_namespace: SettingSwitch::new("AfterNamespace", VERSION::V3_8),
                after_struct: SettingSwitch::new("AfterStruct", VERSION::V3_8),
                after_function: SettingSwitch::new("AfterFunction", VERSION::V3_8),
                after_control_statement: SettingSwitch::new(
                    "AfterControlStatement",
                    VERSION::V3_8,
                ),
                after_enum: SettingSwitch::new("AfterEnum", VERSION::V3_8),
                before_else: SettingSwitch::new("BeforeElse", VERSION::V3_8),
            },
            spaces_in_square_brackets: SettingSwitch::new(
                "SpacesInSquareBrackets",
                VERSION::V3_7,
            ),
            space_before: SpaceBeforeSettings {
                space_before_assignment_operators: SettingSwitch::new(
                    "SpaceBeforeAssignmentOperators",
                    VERSION::V3_7,
                ),
                space_before_square_brackets: SettingSwitch::new(
                    "SpaceBeforeSquareBrackets",
                    VERSION::V10_0,
                ),
            },
            spaces_in_parens: SpacesInParensSettings {
                in_conditional_statements: SettingSwitch::new(
                    "InConditionalStatements",
                    VERSION::V17_0,
                ),
                other: SettingSwitch::new("Other", VERSION::V17_0),
                spaces_in_conditional_statement: SettingSwitch::new(
                    "SpacesInConditionalStatement",
                    VERSION::V10_0,
                ),
                spaces_in_parentheses: SettingSwitch::new("SpacesInParentheses", VERSION::V3_7),
            },
            space_before_parens: SpaceBeforeParensSettings {
                space_before_parens: SettingText::new("SpaceBeforeParens", VERSION::V3_5),
                after_control_statements: SettingSwitch::new(
                    "AfterControlStatements",
                    VERSION::V14_0,
                ),
                after_function_definition_name: SettingSwitch::new(
                    "AfterFunctionDefinitionName",
                    VERSION::V14_0,
                ),
            },
        };

        settings.language.set("Cpp");
        settings.use_tab.set("Never");

        settings
    }
}

/// One unit of lexical inference: fed each line in turn, then told that the
/// input is over so aggregate conclusions can be emitted.
pub trait Parser {
    fn parse_line(&mut self, line: &str);

    fn finish(&mut self);
}

} // verus!
