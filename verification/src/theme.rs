//! Themes: colours and the tokens that surfaces are painted with.

pub mod color;
pub mod tokens;

pub use color::Color;
pub use tokens::{Appearance, SyntaxTokens, TerminalPalette, ThemeId, UiTokens};
