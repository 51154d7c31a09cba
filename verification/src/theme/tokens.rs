//! The colours of a theme, by what they paint.

use vstd::prelude::*;

use crate::theme::color::Color;

verus! {

/// Whether a theme is light or dark.
#[derive(Debug, Clone, Copy, PartialEq, Eq, Hash, Structural)]
pub enum Appearance {
    /// Dark text on light ground.
    Light,
    /// Light text on dark ground.
    Dark,
    /// The greatest contrast.
    HighContrast,
}

/// The stable name of a theme, such as `default-dark`.
#[derive(Debug, PartialEq, Eq, Hash)]
pub struct ThemeId(String);

impl ThemeId {
    /// The name as text.
    pub closed spec fn text(self) -> Seq<char> {
        self.0@
    }

    /// The theme of the given name.
    #[must_use]
    pub fn new(slug: &str) -> (res: Self)
        ensures
            res.text() == slug@,
    {
        Self(slug.to_owned())
    }

    /// The name as text.
    #[must_use]
    pub fn as_str(&self) -> (res: &str)
        ensures
            res@ == self.text(),
    {
        self.0.as_str()
    }

    /// The name as a string of its own.
    pub fn to_string(&self) -> (res: String)
        ensures
            res@ == self.text(),
    {
        self.0.clone()
    }
}

impl Clone for ThemeId {
    fn clone(&self) -> (res: Self)
        ensures
            res == *self,
    {
        ThemeId(self.0.clone())
    }
}

/// The colours of the shell.
#[derive(Debug, Clone, PartialEq, Eq, Structural)]
pub struct UiTokens {
    /// The window's ground.
    pub background: Color,
    /// Text on the ground.
    pub foreground: Color,
    /// Selection, focus and the main action.
    pub accent: Color,
    /// Panels and popovers.
    pub surface: Color,
    /// Borders and separators.
    pub border: Color,
}

/// The colours of highlighted source text.
#[derive(Debug, Clone, PartialEq, Eq, Structural)]
pub struct SyntaxTokens {
    /// Keywords.
    pub keyword: Color,
    /// String and character literals.
    pub string: Color,
    /// Comments.
    pub comment: Color,
    /// Numbers.
    pub number: Color,
    /// Names of functions.
    pub function: Color,
    /// Names of types.
    pub types: Color,
    /// Variables and parameters.
    pub variable: Color,
    /// Operators and punctuation.
    pub operator: Color,
}

/// The sixteen colours of a terminal, in the order of their ANSI numbers.
#[derive(Debug, Clone, PartialEq, Eq, Structural)]
pub struct TerminalPalette {
    /// ANSI 0.
    pub black: Color,
    /// ANSI 1.
    pub red: Color,
    /// ANSI 2.
    pub green: Color,
    /// ANSI 3.
    pub yellow: Color,
    /// ANSI 4.
    pub blue: Color,
    /// ANSI 5.
    pub magenta: Color,
    /// ANSI 6.
    pub cyan: Color,
    /// ANSI 7.
    pub white: Color,
    /// ANSI 8.
    pub bright_black: Color,
    /// ANSI 9.
    pub bright_red: Color,
    /// ANSI 10.
    pub bright_green: Color,
    /// ANSI 11.
    pub bright_yellow: Color,
    /// ANSI 12.
    pub bright_blue: Color,
    /// ANSI 13.
    pub bright_magenta: Color,
    /// ANSI 14.
    pub bright_cyan: Color,
    /// ANSI 15.
    pub bright_white: Color,
}

} // verus!
