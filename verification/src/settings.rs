use vstd::prelude::*;

verus! {

/// Formatting options of the formatter.
pub struct Settings {
    /// Indent with spaces (`space_size` of them per level) instead of one tab.
    pub use_space: bool,
    /// Number of spaces in one indentation level when `use_space` is set.
    pub space_size: u32,
    /// Numbers of empty lines inserted before or after some top-level items.
    pub breaks: BreakSettings,
    /// Whether an opening brace goes on a line of its own.
    pub brace_wrapping: BraceWrappingSettings,
}

/// Numbers of line breaks inserted around top-level items.
#[derive(Clone, Copy)]
pub struct BreakSettings {
    pub after_function_decl: u32,
    pub before_function_def: u32,
    pub before_enum: u32,
    pub before_enum_struct: u32,
    pub before_methodmap: u32,
}

/// For each construct, whether its opening brace is put on a new line.
#[derive(Clone, Copy)]
pub struct BraceWrappingSettings {
    pub before_function: bool,
    pub before_loop: bool,
    pub before_condition: bool,
    pub before_enum_struct: bool,
    pub before_enum: bool,
    pub before_typeset: bool,
    pub before_funcenum: bool,
    pub before_methodmap: bool,
    pub before_methodmap_property: bool,
    pub before_struct_ctor: bool,
}

/// The settings as the formatter reads them: the space size counts only
/// where the indentation is made of spaces, and is taken as 0 otherwise.
pub open spec fn settings_in_use(settings: Settings) -> Settings {
    Settings {
        space_size: if settings.use_space {
            settings.space_size
        } else {
            0
        },
        ..settings
    }
}

/// The settings as the formatter reads them.
pub fn in_use(settings: &Settings) -> (r: Settings)
    ensures
        r == settings_in_use(*settings),
{
    Settings {
        use_space: settings.use_space,
        space_size: if settings.use_space {
            settings.space_size
        } else {
            0
        },
        breaks: settings.breaks,
        brace_wrapping: settings.brace_wrapping,
    }
}

} // verus!
