//! The configured style that layout follows.

use vstd::prelude::*;

verus! {

/// Whether indentation is written with tabs or with spaces.
#[derive(Debug, Clone, Copy, PartialEq, Eq, Structural)]
pub enum IndentStyle {
    Tabs,
    Spaces,
}

/// The preferred quote of string literals whose content permits either.
#[derive(Debug, Clone, Copy, PartialEq, Eq, Structural)]
pub enum QuoteStyle {
    Single,
    Double,
}

/// The byte sequence written at every line break.
#[derive(Debug, Clone, Copy, PartialEq, Eq, Structural)]
pub enum LineEnding {
    Lf,
    Crlf,
}

/// Whether a comma is written after the last item of a broken delimited
/// list: never, in the positions the es5 grammar allows, or always.
#[derive(Debug, Clone, Copy, PartialEq, Eq, Structural)]
pub enum TrailingComma {
    Omit,
    Es5,
    All,
}

/// Whether statement terminators are always written or only where leaving
/// one out would change the program.
#[derive(Debug, Clone, Copy, PartialEq, Eq, Structural)]
pub enum Semicolons {
    Always,
    AsNeeded,
}

/// The recognized options, with the width and indent in columns.
#[derive(Debug, Clone, Copy, PartialEq, Eq, Structural)]
pub struct FormatOptions {
    pub print_width: u32,
    pub indent_style: IndentStyle,
    pub indent_width: u32,
    pub quote_style: QuoteStyle,
    pub line_ending: LineEnding,
    pub trailing_comma: TrailingComma,
    pub semicolons: Semicolons,
}

impl Default for FormatOptions {
    /// The default style: width 80, two spaces of indent, double quotes,
    /// \n line endings, es5 trailing commas, semicolons always.
    fn default() -> (r: Self)
        ensures
            r == (FormatOptions {
                print_width: 80u32,
                indent_style: IndentStyle::Spaces,
                indent_width: 2u32,
                quote_style: QuoteStyle::Double,
                line_ending: LineEnding::Lf,
                trailing_comma: TrailingComma::Es5,
                semicolons: Semicolons::Always,
            }),
    {
        FormatOptions {
            print_width: 80,
            indent_style: IndentStyle::Spaces,
            indent_width: 2,
            quote_style: QuoteStyle::Double,
            line_ending: LineEnding::Lf,
            trailing_comma: TrailingComma::Es5,
            semicolons: Semicolons::Always,
        }
    }
}

/// The characters written at a line break under `ending`.
pub open spec fn line_ending_chars(ending: LineEnding) -> Seq<char> {
    match ending {
        LineEnding::Lf => seq!['\n'],
        LineEnding::Crlf => seq!['\r', '\n'],
    }
}

} // verus!
