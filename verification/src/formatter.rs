use vstd::prelude::*;

use crate::parser::{
    accepts_grammar, grammar_version, is_span_of, parse_source, parsed_with, root_read,
    sourcepawn_language,
};
use crate::settings::{in_use, settings_in_use, Settings};
use crate::syntax::SyntaxNode;
use crate::writers::source_file::{fmt_source_file, write_source_file};
use crate::writers::{initial_state, Writer};

verus! {

/// Why a source could not be formatted.
#[derive(Debug, PartialEq, Eq)]
pub enum FormatError {
    /// The parser did not take the grammar.
    Language,
    /// The parser gave no syntax tree, or one that could not be read.
    Parse,
    /// The source holds a syntax error.
    Syntax,
    /// The syntax tree lacks something the formatter takes for granted: a
    /// field that a node's kind always has, braces that close what they
    /// opened, siblings in the order of their rows.
    Malformed,
}

/// The message that tells what went wrong.
pub open spec fn error_message(e: FormatError) -> Seq<char> {
    match e {
        FormatError::Language => "the SourcePawn grammar could not be loaded"@,
        FormatError::Parse => "the source could not be parsed"@,
        FormatError::Syntax => "internal writer error or something"@,
        FormatError::Malformed => "the syntax tree is not one the formatter can write"@,
    }
}

impl FormatError {
    /// The message that tells what went wrong.
    pub fn message(&self) -> (r: String)
        ensures
            r@ == error_message(*self),
    {
        match self {
            FormatError::Language => "the SourcePawn grammar could not be loaded".to_owned(),
            FormatError::Parse => "the source could not be parsed".to_owned(),
            FormatError::Syntax => "internal writer error or something".to_owned(),
            FormatError::Malformed => "the syntax tree is not one the formatter can write".to_owned(),
        }
    }
}

/// The formatted text of the source whose syntax tree is `root`.
pub open spec fn formatted(root: SyntaxNode, settings: Settings) -> Seq<char> {
    fmt_source_file(initial_state(settings_in_use(settings)), root).out
}

/// Indenting with tabs, the formatted text does not depend on the space
/// size.
pub proof fn lemma_tabs_ignore_space_size(root: SyntaxNode, s1: Settings, s2: Settings)
    requires
        !s1.use_space,
        s2 == (Settings { space_size: s2.space_size, ..s1 }),
    ensures
        formatted(root, s1) == formatted(root, s2),
{
    assert(settings_in_use(s1) == settings_in_use(s2));
}

/// Formats the source whose syntax tree is `root`: an error where the tree
/// holds a syntax error or is malformed, and the formatted text otherwise.
pub fn format_tree(root: &SyntaxNode, settings: &Settings) -> (r: Result<String, FormatError>)
    ensures
        root.has_error ==> r matches Err(FormatError::Syntax),
        !root.has_error && !root.wf() ==> r matches Err(FormatError::Malformed),
        !root.has_error && root.wf() ==> (r matches Ok(s) && s@ == formatted(*root, *settings)),
{
    if root.has_error {
        return Err(FormatError::Syntax);
    }
    if !root.check_wf() {
        return Err(FormatError::Malformed);
    }
    let used = in_use(settings);
    let mut writer = Writer::new(&used);
    write_source_file(root, &mut writer);
    Ok(writer.output)
}

/// What formatting a syntax tree gives: an error where the tree holds a
/// syntax error or is malformed, and the formatted text otherwise.
pub open spec fn tree_outcome(t: SyntaxNode, settings: Settings, r: Result<String, FormatError>) -> bool {
    if t.has_error {
        r matches Err(FormatError::Syntax)
    } else if !t.wf() {
        r matches Err(FormatError::Malformed)
    } else {
        r matches Ok(s) && s@ == formatted(t, settings)
    }
}

/// What formatting gives for an outcome of the parser: `Language` where the
/// parser did not take the grammar, `Parse` where no tree could be had, and
/// the formatting of the tree otherwise.
pub open spec fn format_outcome(
    p: Result<Option<SyntaxNode>, tree_sitter::LanguageError>,
    settings: Settings,
    r: Result<String, FormatError>,
) -> bool {
    match p {
        Err(_) => r matches Err(FormatError::Language),
        Ok(None) => r matches Err(FormatError::Parse),
        Ok(Some(t)) => tree_outcome(t, settings, r),
    }
}

/// Formats what the parser gave.
pub fn format_parsed(
    parsed: Result<Option<SyntaxNode>, tree_sitter::LanguageError>,
    settings: &Settings,
) -> (r: Result<String, FormatError>)
    ensures
        format_outcome(parsed, *settings, r),
{
    match parsed {
        Err(_) => Err(FormatError::Language),
        Ok(None) => Err(FormatError::Parse),
        Ok(Some(root)) => format_tree(&root, settings),
    }
}

/// Parses `input` with `language` and formats it: the result is what
/// [`format_outcome`] gives for the outcome of the parser on `input` that
/// [`parsed_with`] describes. So `Language` comes exactly where the parser
/// does not take the grammar; `Parse` exactly where tree-sitter's tree of
/// `input` cannot be read (see [`root_read`]); and otherwise the result is
/// what [`tree_outcome`] gives for the root of that tree: `Syntax` where
/// tree-sitter marks an error in it, `Malformed` where it is not well
/// formed, and its formatting otherwise.
pub fn format_string_language(
    input: &String,
    language: tree_sitter::Language,
    settings: &Settings,
) -> (r: Result<String, FormatError>)
    ensures
        exists|p: Result<Option<SyntaxNode>, tree_sitter::LanguageError>|
            parsed_with(language, input@, p) && #[trigger] format_outcome(p, *settings, r),
        r matches Err(FormatError::Language) <==> !accepts_grammar(language),
        accepts_grammar(language) ==> (r matches Err(FormatError::Parse) <==> !exists|
            n: SyntaxNode,
        | root_read(language, input@, n)),
        accepts_grammar(language) && (exists|n: SyntaxNode| root_read(language, input@, n))
            ==> exists|n: SyntaxNode|
            root_read(language, input@, n) && #[trigger] tree_outcome(n, *settings, r),
        r matches Ok(s) ==> exists|t: SyntaxNode|
            !t.has_error && t.wf() && is_span_of(t, input@) && s@ == #[trigger] formatted(
                t,
                *settings,
            ),
{
    let parsed = parse_source(input.as_str(), &language);
    format_parsed(parsed, settings)
}

/// Parses `input` as SourcePawn and formats it: the result is what
/// [`format_string_language`] states of a grammar of version 14, which the
/// parser takes, as `tree_sitter_sourcepawn::language` gives: `Language`
/// never comes back.
pub fn format_string(input: &String, settings: &Settings) -> (r: Result<String, FormatError>)
    ensures
        exists|l: tree_sitter::Language, p: Result<Option<SyntaxNode>, tree_sitter::LanguageError>|
            #![trigger parsed_with(l, input@, p), format_outcome(p, *settings, r)]
            grammar_version(l) == 14 && parsed_with(l, input@, p) && format_outcome(
                p,
                *settings,
                r,
            ),
        !(r matches Err(FormatError::Language)),
        r matches Ok(s) ==> exists|t: SyntaxNode|
            !t.has_error && t.wf() && is_span_of(t, input@) && s@ == #[trigger] formatted(
                t,
                *settings,
            ),
{
    let language = sourcepawn_language();
    format_string_language(input, language, settings)
}

} // verus!
