//! Key bindings: [`KeyBinding`], [`Modifiers`], [`Key`] and
//! [`KeybindingProfile`].
//!
//! A binding is written as `+`-separated tokens, modifiers first and exactly
//! one key last: `ctrl+shift+p`. White space around tokens is ignored and ASCII
//! case does not matter. `meta` and `super` stand for `cmd`, `option` for `alt`
//! and `control` for `ctrl`. Function keys run from `f1` to `f24`; the other
//! named keys are spelled like their variants, with a snake_case alternative for
//! the names of two words. Any other single character stands for itself.
//!
//! [`KeyBinding::to_string`] writes the canonical lower-case form, with the
//! modifiers in the order `ctrl`, `shift`, `alt`, `cmd`, so that reading it back
//! gives every binding that the parser can produce.

use std::collections::HashMap;

use vstd::prelude::*;
use vstd::string::*;

use crate::command::CommandId;
use crate::numeral;
use crate::text;

pub mod laws;

verus! {

// ---------------------------------------------------------------------------
// Modifiers
// ---------------------------------------------------------------------------

/// The modifier keys held alongside a [`Key`].
#[derive(Debug, Clone, Copy, PartialEq, Eq, Hash, Structural)]
pub struct Modifiers {
    /// Control.
    pub ctrl: bool,
    /// Shift.
    pub shift: bool,
    /// Alt; `option` is the same flag.
    pub alt: bool,
    /// Command, meta or super.
    pub cmd: bool,
}

impl Modifiers {
    /// No modifier.
    #[must_use]
    #[verifier::allow_in_spec]
    pub fn none() -> Self
        returns
            (Modifiers { ctrl: false, shift: false, alt: false, cmd: false }),
    {
        Modifiers { ctrl: false, shift: false, alt: false, cmd: false }
    }

    /// Only ctrl.
    #[must_use]
    #[verifier::allow_in_spec]
    pub fn ctrl() -> Self
        returns
            (Modifiers { ctrl: true, shift: false, alt: false, cmd: false }),
    {
        Modifiers { ctrl: true, shift: false, alt: false, cmd: false }
    }

    /// Only shift.
    #[must_use]
    #[verifier::allow_in_spec]
    pub fn shift() -> Self
        returns
            (Modifiers { ctrl: false, shift: true, alt: false, cmd: false }),
    {
        Modifiers { ctrl: false, shift: true, alt: false, cmd: false }
    }

    /// Only alt.
    #[must_use]
    #[verifier::allow_in_spec]
    pub fn alt() -> Self
        returns
            (Modifiers { ctrl: false, shift: false, alt: true, cmd: false }),
    {
        Modifiers { ctrl: false, shift: false, alt: true, cmd: false }
    }

    /// Only cmd.
    #[must_use]
    #[verifier::allow_in_spec]
    pub fn cmd() -> Self
        returns
            (Modifiers { ctrl: false, shift: false, alt: false, cmd: true }),
    {
        Modifiers { ctrl: false, shift: false, alt: false, cmd: true }
    }

    /// The flags set in either of two modifier sets.
    pub open spec fn union(self, rhs: Self) -> Self {
        Modifiers {
            ctrl: self.ctrl || rhs.ctrl,
            shift: self.shift || rhs.shift,
            alt: self.alt || rhs.alt,
            cmd: self.cmd || rhs.cmd,
        }
    }

    /// Whether no modifier is set.
    #[must_use]
    pub fn is_empty(self) -> (res: bool)
        ensures
            res == (self == Modifiers::none()),
    {
        !(self.ctrl || self.shift || self.alt || self.cmd)
    }
}

impl Default for Modifiers {
    fn default() -> (res: Self)
        ensures
            res == Modifiers::none(),
    {
        Modifiers::none()
    }
}

impl std::ops::BitOr for Modifiers {
    type Output = Self;

    fn bitor(self, rhs: Self) -> (res: Self) {
        Self {
            ctrl: self.ctrl || rhs.ctrl,
            shift: self.shift || rhs.shift,
            alt: self.alt || rhs.alt,
            cmd: self.cmd || rhs.cmd,
        }
    }
}

impl vstd::std_specs::ops::BitOrSpecImpl for Modifiers {
    open spec fn obeys_bitor_spec() -> bool {
        true
    }

    open spec fn bitor_req(self, rhs: Self) -> bool {
        true
    }

    open spec fn bitor_spec(self, rhs: Self) -> Self {
        self.union(rhs)
    }
}

impl std::ops::BitOrAssign for Modifiers {
    fn bitor_assign(&mut self, rhs: Self)
        ensures
            *final(self) == old(self).union(rhs),
    {
        *self = *self | rhs;
    }
}

/// One of the modifier keys.
#[derive(Debug, Clone, Copy, PartialEq, Eq, Structural)]
pub enum ModifierFlag {
    Ctrl,
    Shift,
    Alt,
    Cmd,
}

impl ModifierFlag {
    /// Whether the flag is among `m`.
    pub open spec fn among(self, m: Modifiers) -> bool {
        match self {
            ModifierFlag::Ctrl => m.ctrl,
            ModifierFlag::Shift => m.shift,
            ModifierFlag::Alt => m.alt,
            ModifierFlag::Cmd => m.cmd,
        }
    }

    /// `m` with the flag set.
    pub open spec fn added_to(self, m: Modifiers) -> Modifiers {
        match self {
            ModifierFlag::Ctrl => Modifiers { ctrl: true, ..m },
            ModifierFlag::Shift => Modifiers { shift: true, ..m },
            ModifierFlag::Alt => Modifiers { alt: true, ..m },
            ModifierFlag::Cmd => Modifiers { cmd: true, ..m },
        }
    }

    /// The canonical name of the modifier.
    pub open spec fn canonical(self) -> Seq<char> {
        match self {
            ModifierFlag::Ctrl => "ctrl"@,
            ModifierFlag::Shift => "shift"@,
            ModifierFlag::Alt => "alt"@,
            ModifierFlag::Cmd => "cmd"@,
        }
    }

    fn is_set(self, m: Modifiers) -> (res: bool)
        ensures
            res == self.among(m),
    {
        match self {
            ModifierFlag::Ctrl => m.ctrl,
            ModifierFlag::Shift => m.shift,
            ModifierFlag::Alt => m.alt,
            ModifierFlag::Cmd => m.cmd,
        }
    }

    fn apply(self, m: Modifiers) -> (res: Modifiers)
        ensures
            res == self.added_to(m),
    {
        let mut m = m;
        match self {
            ModifierFlag::Ctrl => {
                m.ctrl = true;
            },
            ModifierFlag::Shift => {
                m.shift = true;
            },
            ModifierFlag::Alt => {
                m.alt = true;
            },
            ModifierFlag::Cmd => {
                m.cmd = true;
            },
        }
        m
    }

    fn name(self) -> (res: &'static str)
        ensures
            res@ == self.canonical(),
    {
        match self {
            ModifierFlag::Ctrl => "ctrl",
            ModifierFlag::Shift => "shift",
            ModifierFlag::Alt => "alt",
            ModifierFlag::Cmd => "cmd",
        }
    }
}

/// The modifier that a lower-case token names, if it names one.
pub open spec fn modifier_named(token: Seq<char>) -> Option<ModifierFlag> {
    if token == "ctrl"@ || token == "control"@ {
        Some(ModifierFlag::Ctrl)
    } else if token == "shift"@ {
        Some(ModifierFlag::Shift)
    } else if token == "alt"@ || token == "option"@ {
        Some(ModifierFlag::Alt)
    } else if token == "cmd"@ || token == "meta"@ || token == "super"@ {
        Some(ModifierFlag::Cmd)
    } else {
        None
    }
}

fn parse_modifier(token: &Vec<char>) -> (res: Option<ModifierFlag>)
    ensures
        res == modifier_named(token@),
{
    if text::spells(token, "ctrl") || text::spells(token, "control") {
        Some(ModifierFlag::Ctrl)
    } else if text::spells(token, "shift") {
        Some(ModifierFlag::Shift)
    } else if text::spells(token, "alt") || text::spells(token, "option") {
        Some(ModifierFlag::Alt)
    } else if text::spells(token, "cmd") || text::spells(token, "meta") || text::spells(
        token,
        "super",
    ) {
        Some(ModifierFlag::Cmd)
    } else {
        None
    }
}

// ---------------------------------------------------------------------------
// Keys
// ---------------------------------------------------------------------------

/// The key of a [`KeyBinding`].
///
/// The parser lower-cases the character of [`Key::Char`]. A binding built
/// directly with a capital is written in lower case, so reading it back gives
/// the lower-case key.
#[derive(Debug, Clone, Copy, PartialEq, Eq, Hash, Structural)]
pub enum Key {
    /// A single printable character.
    Char(char),
    /// Escape.
    Escape,
    /// Tab.
    Tab,
    /// Enter or return.
    Enter,
    /// Backspace.
    Backspace,
    /// Forward delete.
    Delete,
    /// Home.
    Home,
    /// End.
    End,
    /// Page up.
    PageUp,
    /// Page down.
    PageDown,
    /// Up arrow.
    ArrowUp,
    /// Down arrow.
    ArrowDown,
    /// Left arrow.
    ArrowLeft,
    /// Right arrow.
    ArrowRight,
    /// Space bar.
    Space,
    /// Function key F1.
    F1,
    /// Function key F2.
    F2,
    /// Function key F3.
    F3,
    /// Function key F4.
    F4,
    /// Function key F5.
    F5,
    /// Function key F6.
    F6,
    /// Function key F7.
    F7,
    /// Function key F8.
    F8,
    /// Function key F9.
    F9,
    /// Function key F10.
    F10,
    /// Function key F11.
    F11,
    /// Function key F12.
    F12,
    /// Function key F13.
    F13,
    /// Function key F14.
    F14,
    /// Function key F15.
    F15,
    /// Function key F16.
    F16,
    /// Function key F17.
    F17,
    /// Function key F18.
    F18,
    /// Function key F19.
    F19,
    /// Function key F20.
    F20,
    /// Function key F21.
    F21,
    /// Function key F22.
    F22,
    /// Function key F23.
    F23,
    /// Function key F24.
    F24,
}

/// The function key with number `n`, for `n` from 1 to 24.
pub open spec fn function_key_numbered(n: nat) -> Option<Key> {
    if n == 1 {
        Some(Key::F1)
    } else if n == 2 {
        Some(Key::F2)
    } else if n == 3 {
        Some(Key::F3)
    } else if n == 4 {
        Some(Key::F4)
    } else if n == 5 {
        Some(Key::F5)
    } else if n == 6 {
        Some(Key::F6)
    } else if n == 7 {
        Some(Key::F7)
    } else if n == 8 {
        Some(Key::F8)
    } else if n == 9 {
        Some(Key::F9)
    } else if n == 10 {
        Some(Key::F10)
    } else if n == 11 {
        Some(Key::F11)
    } else if n == 12 {
        Some(Key::F12)
    } else if n == 13 {
        Some(Key::F13)
    } else if n == 14 {
        Some(Key::F14)
    } else if n == 15 {
        Some(Key::F15)
    } else if n == 16 {
        Some(Key::F16)
    } else if n == 17 {
        Some(Key::F17)
    } else if n == 18 {
        Some(Key::F18)
    } else if n == 19 {
        Some(Key::F19)
    } else if n == 20 {
        Some(Key::F20)
    } else if n == 21 {
        Some(Key::F21)
    } else if n == 22 {
        Some(Key::F22)
    } else if n == 23 {
        Some(Key::F23)
    } else if n == 24 {
        Some(Key::F24)
    } else {
        None
    }
}

fn function_key(n: u64) -> (res: Option<Key>)
    ensures
        res == function_key_numbered(n as nat),
{
    match n {
        1 => Some(Key::F1),
        2 => Some(Key::F2),
        3 => Some(Key::F3),
        4 => Some(Key::F4),
        5 => Some(Key::F5),
        6 => Some(Key::F6),
        7 => Some(Key::F7),
        8 => Some(Key::F8),
        9 => Some(Key::F9),
        10 => Some(Key::F10),
        11 => Some(Key::F11),
        12 => Some(Key::F12),
        13 => Some(Key::F13),
        14 => Some(Key::F14),
        15 => Some(Key::F15),
        16 => Some(Key::F16),
        17 => Some(Key::F17),
        18 => Some(Key::F18),
        19 => Some(Key::F19),
        20 => Some(Key::F20),
        21 => Some(Key::F21),
        22 => Some(Key::F22),
        23 => Some(Key::F23),
        24 => Some(Key::F24),
        _ => None,
    }
}

/// The key that a lower-case name stands for, function keys and single
/// characters aside.
pub open spec fn named_key(token: Seq<char>) -> Option<Key> {
    if token == "escape"@ || token == "esc"@ {
        Some(Key::Escape)
    } else if token == "tab"@ {
        Some(Key::Tab)
    } else if token == "enter"@ || token == "return"@ {
        Some(Key::Enter)
    } else if token == "backspace"@ {
        Some(Key::Backspace)
    } else if token == "delete"@ || token == "del"@ {
        Some(Key::Delete)
    } else if token == "home"@ {
        Some(Key::Home)
    } else if token == "end"@ {
        Some(Key::End)
    } else if token == "pageup"@ || token == "page_up"@ || token == "pgup"@ {
        Some(Key::PageUp)
    } else if token == "pagedown"@ || token == "page_down"@ || token == "pgdn"@ {
        Some(Key::PageDown)
    } else if token == "arrowup"@ || token == "arrow_up"@ || token == "up"@ {
        Some(Key::ArrowUp)
    } else if token == "arrowdown"@ || token == "arrow_down"@ || token == "down"@ {
        Some(Key::ArrowDown)
    } else if token == "arrowleft"@ || token == "arrow_left"@ || token == "left"@ {
        Some(Key::ArrowLeft)
    } else if token == "arrowright"@ || token == "arrow_right"@ || token == "right"@ {
        Some(Key::ArrowRight)
    } else if token == "space"@ {
        Some(Key::Space)
    } else {
        None
    }
}

fn parse_named_key(token: &Vec<char>) -> (res: Option<Key>)
    ensures
        res == named_key(token@),
{
    if text::spells(token, "escape") || text::spells(token, "esc") {
        Some(Key::Escape)
    } else if text::spells(token, "tab") {
        Some(Key::Tab)
    } else if text::spells(token, "enter") || text::spells(token, "return") {
        Some(Key::Enter)
    } else if text::spells(token, "backspace") {
        Some(Key::Backspace)
    } else if text::spells(token, "delete") || text::spells(token, "del") {
        Some(Key::Delete)
    } else if text::spells(token, "home") {
        Some(Key::Home)
    } else if text::spells(token, "end") {
        Some(Key::End)
    } else if text::spells(token, "pageup") || text::spells(token, "page_up") || text::spells(token, "pgup") {
        Some(Key::PageUp)
    } else if text::spells(token, "pagedown") || text::spells(token, "page_down") || text::spells(token, "pgdn") {
        Some(Key::PageDown)
    } else if text::spells(token, "arrowup") || text::spells(token, "arrow_up") || text::spells(token, "up") {
        Some(Key::ArrowUp)
    } else if text::spells(token, "arrowdown") || text::spells(token, "arrow_down") || text::spells(token, "down") {
        Some(Key::ArrowDown)
    } else if text::spells(token, "arrowleft") || text::spells(token, "arrow_left") || text::spells(token, "left") {
        Some(Key::ArrowLeft)
    } else if text::spells(token, "arrowright") || text::spells(token, "arrow_right") || text::spells(token, "right") {
        Some(Key::ArrowRight)
    } else if text::spells(token, "space") {
        Some(Key::Space)
    } else {
        None
    }
}

/// The key that a lower-case token stands for: `f` and a number name a function
/// key, then come the named keys, then any single character.
pub open spec fn key_for(token: Seq<char>) -> Option<Key> {
    if token.len() > 0 && token[0] == 'f' && numeral::bounded_value(
        token.drop_first(),
        10,
        255,
    ) is Some {
        function_key_numbered(numeral::bounded_value(token.drop_first(), 10, 255)->0)
    } else if named_key(token) is Some {
        named_key(token)
    } else if token.len() == 1 {
        Some(Key::Char(token[0]))
    } else {
        None
    }
}

/// The key that a lower-case token stands for.
pub fn parse_key(token: &str) -> (res: Option<Key>)
    ensures
        res == key_for(token@),
{
    let token = text::chars_of(token);
    if token.len() > 0 && token[0] == 'f' {
        let rest = text::slice_of(&token, 1, token.len());
        assert(rest@ =~= token@.drop_first());
        if let Some(n) = numeral::parse_unsigned(&rest, 10, 255) {
            return function_key(n);
        }
    }
    if let Some(key) = parse_named_key(&token) {
        return Some(key);
    }
    if token.len() == 1 {
        Some(Key::Char(token[0]))
    } else {
        None
    }
}

impl Key {
    /// The number of a function key.
    pub open spec fn function_number(self) -> Option<nat> {
        match self {
            Key::F1 => Some(1),
            Key::F2 => Some(2),
            Key::F3 => Some(3),
            Key::F4 => Some(4),
            Key::F5 => Some(5),
            Key::F6 => Some(6),
            Key::F7 => Some(7),
            Key::F8 => Some(8),
            Key::F9 => Some(9),
            Key::F10 => Some(10),
            Key::F11 => Some(11),
            Key::F12 => Some(12),
            Key::F13 => Some(13),
            Key::F14 => Some(14),
            Key::F15 => Some(15),
            Key::F16 => Some(16),
            Key::F17 => Some(17),
            Key::F18 => Some(18),
            Key::F19 => Some(19),
            Key::F20 => Some(20),
            Key::F21 => Some(21),
            Key::F22 => Some(22),
            Key::F23 => Some(23),
            Key::F24 => Some(24),
            _ => None,
        }
    }

    /// The canonical token: a function key as `f` and its number, a named key as
    /// its variant's name in lower case, a character as itself in lower case.
    pub open spec fn token(self) -> Seq<char> {
        match self {
            Key::Char(c) => seq![text::ascii_lower(c)],
            Key::Escape => "escape"@,
            Key::Tab => "tab"@,
            Key::Enter => "enter"@,
            Key::Backspace => "backspace"@,
            Key::Delete => "delete"@,
            Key::Home => "home"@,
            Key::End => "end"@,
            Key::PageUp => "pageup"@,
            Key::PageDown => "pagedown"@,
            Key::ArrowUp => "arrowup"@,
            Key::ArrowDown => "arrowdown"@,
            Key::ArrowLeft => "arrowleft"@,
            Key::ArrowRight => "arrowright"@,
            Key::Space => "space"@,
            _ => seq!['f'] + numeral::decimal(self.function_number()->0),
        }
    }

    /// The canonical token.
    #[must_use]
    pub fn canonical_token(self) -> (res: String)
        ensures
            res@ == self.token(),
    {
        let n: u128 = match self {
            Key::Char(c) => {
                let mut s = String::new();
                s.push(text::lower_char(c));
                assert(s@ =~= self.token());
                return s;
            },
            Key::Escape => return "escape".to_owned(),
            Key::Tab => return "tab".to_owned(),
            Key::Enter => return "enter".to_owned(),
            Key::Backspace => return "backspace".to_owned(),
            Key::Delete => return "delete".to_owned(),
            Key::Home => return "home".to_owned(),
            Key::End => return "end".to_owned(),
            Key::PageUp => return "pageup".to_owned(),
            Key::PageDown => return "pagedown".to_owned(),
            Key::ArrowUp => return "arrowup".to_owned(),
            Key::ArrowDown => return "arrowdown".to_owned(),
            Key::ArrowLeft => return "arrowleft".to_owned(),
            Key::ArrowRight => return "arrowright".to_owned(),
            Key::Space => return "space".to_owned(),
            Key::F1 => 1,
            Key::F2 => 2,
            Key::F3 => 3,
            Key::F4 => 4,
            Key::F5 => 5,
            Key::F6 => 6,
            Key::F7 => 7,
            Key::F8 => 8,
            Key::F9 => 9,
            Key::F10 => 10,
            Key::F11 => 11,
            Key::F12 => 12,
            Key::F13 => 13,
            Key::F14 => 14,
            Key::F15 => 15,
            Key::F16 => 16,
            Key::F17 => 17,
            Key::F18 => 18,
            Key::F19 => 19,
            Key::F20 => 20,
            Key::F21 => 21,
            Key::F22 => 22,
            Key::F23 => 23,
            Key::F24 => 24,
        };
        let mut s = String::new();
        s.push('f');
        numeral::push_decimal(&mut s, n);
        assert(s@ =~= self.token());
        s
    }
}

// ---------------------------------------------------------------------------
// Parse errors
// ---------------------------------------------------------------------------

/// Why [`KeyBinding::parse`] rejects an input.
#[derive(Debug, Clone, PartialEq, Eq)]
#[non_exhaustive]
pub enum KeyBindingParseError {
    /// The input is empty or holds only white space.
    Empty,
    /// A token between separators is empty, as in `ctrl+`, `+a` or `a++b`.
    EmptyToken {
        /// The input as given.
        input: String,
    },
    /// A token before the last one names no modifier.
    UnknownModifier {
        /// The input as given.
        input: String,
        /// The token, with its own casing.
        token: String,
    },
    /// A modifier occurs twice.
    DuplicateModifier {
        /// The input as given.
        input: String,
        /// The canonical name of the modifier.
        modifier: String,
    },
    /// The last token names no key.
    UnknownKey {
        /// The input as given.
        input: String,
        /// The token, with its own casing.
        token: String,
    },
    /// The last token names a modifier.
    MissingKey {
        /// The input as given.
        input: String,
    },
}

/// What a [`KeyBindingParseError`] says, as text.
pub enum KeyBindingParseErrorView {
    Empty,
    EmptyToken { input: Seq<char> },
    UnknownModifier { input: Seq<char>, token: Seq<char> },
    DuplicateModifier { input: Seq<char>, modifier: Seq<char> },
    UnknownKey { input: Seq<char>, token: Seq<char> },
    MissingKey { input: Seq<char> },
}

impl View for KeyBindingParseError {
    type V = KeyBindingParseErrorView;

    open spec fn view(&self) -> KeyBindingParseErrorView {
        match *self {
            KeyBindingParseError::Empty => KeyBindingParseErrorView::Empty,
            KeyBindingParseError::EmptyToken { input } => KeyBindingParseErrorView::EmptyToken {
                input: input@,
            },
            KeyBindingParseError::UnknownModifier { input, token } =>
                KeyBindingParseErrorView::UnknownModifier { input: input@, token: token@ },
            KeyBindingParseError::DuplicateModifier { input, modifier } =>
                KeyBindingParseErrorView::DuplicateModifier {
                input: input@,
                modifier: modifier@,
            },
            KeyBindingParseError::UnknownKey { input, token } =>
                KeyBindingParseErrorView::UnknownKey { input: input@, token: token@ },
            KeyBindingParseError::MissingKey { input } => KeyBindingParseErrorView::MissingKey {
                input: input@,
            },
        }
    }
}

impl KeyBindingParseErrorView {
    /// The message shown for the error.
    pub open spec fn message(self) -> Seq<char> {
        match self {
            KeyBindingParseErrorView::Empty => "empty key binding"@,
            KeyBindingParseErrorView::EmptyToken { input } => "malformed key binding "@
                + text::debug_quoted(input) + ": empty token"@,
            KeyBindingParseErrorView::UnknownModifier { input, token } => "unknown modifier "@
                + text::debug_quoted(token) + " in "@ + text::debug_quoted(input),
            KeyBindingParseErrorView::DuplicateModifier { input, modifier } =>
                "duplicate modifier "@ + text::debug_quoted(modifier) + " in "@
                + text::debug_quoted(input),
            KeyBindingParseErrorView::UnknownKey { input, token } => "unknown key "@
                + text::debug_quoted(token) + " in "@ + text::debug_quoted(input),
            KeyBindingParseErrorView::MissingKey { input } => "missing key in "@
                + text::debug_quoted(input),
        }
    }
}

impl KeyBindingParseError {
    /// The message shown for the error.
    pub fn to_string(&self) -> (res: String)
        ensures
            res@ == self@.message(),
    {
        match self {
            KeyBindingParseError::Empty => "empty key binding".to_owned(),
            KeyBindingParseError::EmptyToken { input } => "malformed key binding ".to_owned().concat(
                text::debug_text(input.as_str()).as_str(),
            ).concat(": empty token"),
            KeyBindingParseError::UnknownModifier { input, token } => "unknown modifier ".to_owned().concat(
                text::debug_text(token.as_str()).as_str(),
            ).concat(" in ").concat(text::debug_text(input.as_str()).as_str()),
            KeyBindingParseError::DuplicateModifier { input, modifier } =>
                "duplicate modifier ".to_owned().concat(
                text::debug_text(modifier.as_str()).as_str(),
            ).concat(" in ").concat(text::debug_text(input.as_str()).as_str()),
            KeyBindingParseError::UnknownKey { input, token } => "unknown key ".to_owned().concat(
                text::debug_text(token.as_str()).as_str(),
            ).concat(" in ").concat(text::debug_text(input.as_str()).as_str()),
            KeyBindingParseError::MissingKey { input } => "missing key in ".to_owned().concat(
                text::debug_text(input.as_str()).as_str(),
            ),
        }
    }
}

// ---------------------------------------------------------------------------
// Bindings
// ---------------------------------------------------------------------------

/// A keyboard shortcut: modifiers and the key they accompany.
#[derive(Debug, Clone, Copy, PartialEq, Eq, Hash, Structural)]
pub struct KeyBinding {
    /// The modifiers held while the key is pressed.
    pub modifiers: Modifiers,
    /// The key that fires the binding.
    pub key: Key,
}

/// The tokens of a written binding: the pieces between `+` signs, each without
/// the white space around it.
pub open spec fn binding_tokens(input: Seq<char>) -> Seq<Seq<char>> {
    text::split_on(text::trimmed(input), '+').map_values(|piece: Seq<char>| text::trimmed(piece))
}

/// The modifiers that a run of tokens sets, or the first thing wrong with it.
pub open spec fn modifiers_from(tokens: Seq<Seq<char>>, input: Seq<char>) -> Result<
    Modifiers,
    KeyBindingParseErrorView,
>
    decreases tokens.len(),
{
    if tokens.len() == 0 {
        Ok(Modifiers::none())
    } else {
        match modifiers_from(tokens.drop_last(), input) {
            Err(e) => Err(e),
            Ok(before) => match modifier_named(text::lowered(tokens.last())) {
                None => Err(
                    KeyBindingParseErrorView::UnknownModifier { input, token: tokens.last() },
                ),
                Some(flag) => if flag.among(before) {
                    Err(
                        KeyBindingParseErrorView::DuplicateModifier {
                            input,
                            modifier: flag.canonical(),
                        },
                    )
                } else {
                    Ok(flag.added_to(before))
                },
            },
        }
    }
}

/// The binding that `input` writes, or why it writes none.
pub open spec fn binding_from(input: Seq<char>) -> Result<KeyBinding, KeyBindingParseErrorView> {
    let tokens = binding_tokens(input);
    if text::trimmed(input).len() == 0 {
        Err(KeyBindingParseErrorView::Empty)
    } else if exists|i: int| 0 <= i < tokens.len() && (#[trigger] tokens[i]).len() == 0 {
        Err(KeyBindingParseErrorView::EmptyToken { input })
    } else if modifier_named(text::lowered(tokens.last())) is Some {
        Err(KeyBindingParseErrorView::MissingKey { input })
    } else {
        match key_for(text::lowered(tokens.last())) {
            None => Err(KeyBindingParseErrorView::UnknownKey { input, token: tokens.last() }),
            Some(key) => match modifiers_from(tokens.drop_last(), input) {
                Err(e) => Err(e),
                Ok(modifiers) => Ok(KeyBinding { modifiers, key }),
            },
        }
    }
}

/// Splits trimmed input into its tokens.
fn split_tokens(trimmed: &Vec<char>) -> (res: Vec<Vec<char>>)
    ensures
        text::texts(res@) == text::split_on(trimmed@, '+').map_values(
            |piece: Seq<char>| text::trimmed(piece),
        ),
        res@.len() > 0,
{
    let pieces = text::split(trimmed, '+');
    let ghost wanted = text::texts(pieces@).map_values(|piece: Seq<char>| text::trimmed(piece));
    let mut res: Vec<Vec<char>> = Vec::new();
    for i in 0..pieces.len()
        invariant
            wanted == text::texts(pieces@).map_values(|piece: Seq<char>| text::trimmed(piece)),
            text::texts(res@) == wanted.take(i as int),
    {
        let token = text::trim(&pieces[i]);
        assert(wanted[i as int] == token@);
        proof {
            text::lemma_texts_push(res@, token);
        }
        res.push(token);
        assert(wanted.take(i + 1) =~= wanted.take(i as int).push(wanted[i as int]));
    }
    assert(wanted.take(pieces@.len() as int) =~= wanted);
    assert(text::texts(res@).len() == res@.len());
    res
}

/// Whether some token is empty.
fn has_empty(tokens: &Vec<Vec<char>>) -> (res: bool)
    ensures
        res == exists|i: int|
            0 <= i < text::texts(tokens@).len() && (#[trigger] text::texts(tokens@)[i]).len() == 0,
{
    let ghost all = text::texts(tokens@);
    for i in 0..tokens.len()
        invariant
            all == text::texts(tokens@),
            forall|j: int| 0 <= j < i ==> (#[trigger] all[j]).len() > 0,
    {
        assert(all[i as int] == tokens@[i as int]@);
        if tokens[i].len() == 0 {
            return true;
        }
    }
    false
}

/// Reads the tokens before the key.
fn parse_modifiers(tokens: &Vec<Vec<char>>, input: &str) -> (res: Result<
    Modifiers,
    KeyBindingParseError,
>)
    ensures
        match res {
            Ok(m) => modifiers_from(text::texts(tokens@), input@) == Ok::<
                _,
                KeyBindingParseErrorView,
            >(m),
            Err(e) => modifiers_from(text::texts(tokens@), input@) == Err::<Modifiers, _>(e@),
        },
{
    let ghost all = text::texts(tokens@);
    let mut modifiers = Modifiers::none();
    assert(all.take(0) =~= Seq::<Seq<char>>::empty());
    for i in 0..tokens.len()
        invariant
            all == text::texts(tokens@),
            modifiers_from(all.take(i as int), input@) == Ok::<_, KeyBindingParseErrorView>(
                modifiers,
            ),
    {
        let token = &tokens[i];
        let ghost upto = all.take(i + 1);
        assert(upto.drop_last() =~= all.take(i as int));
        assert(upto.last() == token@);
        proof {
            if modifiers_from(upto, input@) is Err {
                lemma_first_error_stands(all, input@, i + 1);
            }
        }
        let lower = text::lower(token);
        match parse_modifier(&lower) {
            None => {
                return Err(
                    KeyBindingParseError::UnknownModifier {
                        input: input.to_owned(),
                        token: text::string_of(token),
                    },
                );
            },
            Some(flag) => {
                if flag.is_set(modifiers) {
                    return Err(
                        KeyBindingParseError::DuplicateModifier {
                            input: input.to_owned(),
                            modifier: flag.name().to_owned(),
                        },
                    );
                }
                modifiers = flag.apply(modifiers);
            },
        }
    }
    assert(all.take(tokens@.len() as int) =~= all);
    Ok(modifiers)
}

impl KeyBinding {
    /// A binding of the given modifiers and key.
    #[must_use]
    pub fn new(modifiers: Modifiers, key: Key) -> (res: Self)
        ensures
            res == (KeyBinding { modifiers, key }),
    {
        Self { modifiers, key }
    }

    /// Reads a binding.
    pub fn parse(input: &str) -> (res: Result<Self, KeyBindingParseError>)
        ensures
            match res {
                Ok(binding) => binding_from(input@) == Ok::<_, KeyBindingParseErrorView>(binding),
                Err(e) => binding_from(input@) == Err::<KeyBinding, _>(e@),
            },
    {
        let chars = text::chars_of(input);
        let trimmed = text::trim(&chars);
        if trimmed.len() == 0 {
            return Err(KeyBindingParseError::Empty);
        }
        let mut segments = split_tokens(&trimmed);
        let ghost tokens = binding_tokens(input@);
        assert(text::texts(segments@) == tokens);
        if has_empty(&segments) {
            return Err(KeyBindingParseError::EmptyToken { input: input.to_owned() });
        }
        assert(tokens.last() == segments@.last()@);
        let key_token = match segments.pop() {
            Some(token) => token,
            None => return Err(KeyBindingParseError::Empty),
        };
        assert(text::texts(segments@) =~= tokens.drop_last());
        let key_token_lower = text::lower(&key_token);
        if parse_modifier(&key_token_lower).is_some() {
            return Err(KeyBindingParseError::MissingKey { input: input.to_owned() });
        }
        match parse_key(text::string_of(&key_token_lower).as_str()) {
            None => Err(
                KeyBindingParseError::UnknownKey {
                    input: input.to_owned(),
                    token: text::string_of(&key_token),
                },
            ),
            Some(key) => match parse_modifiers(&segments, input) {
                Err(e) => Err(e),
                Ok(modifiers) => Ok(Self { modifiers, key }),
            },
        }
    }

    /// The canonical written form: the modifiers in the order `ctrl`, `shift`,
    /// `alt`, `cmd`, then the key.
    pub open spec fn canonical(self) -> Seq<char> {
        let ctrl = if self.modifiers.ctrl {
            "ctrl+"@
        } else {
            Seq::empty()
        };
        let shift = if self.modifiers.shift {
            "shift+"@
        } else {
            Seq::empty()
        };
        let alt = if self.modifiers.alt {
            "alt+"@
        } else {
            Seq::empty()
        };
        let cmd = if self.modifiers.cmd {
            "cmd+"@
        } else {
            Seq::empty()
        };
        ctrl + shift + alt + cmd + self.key.token()
    }

    /// Writes the canonical form.
    pub fn to_string(&self) -> (res: String)
        ensures
            res@ == self.canonical(),
    {
        let mut s = String::new();
        if self.modifiers.ctrl {
            s.append("ctrl+");
        }
        if self.modifiers.shift {
            s.append("shift+");
        }
        if self.modifiers.alt {
            s.append("alt+");
        }
        if self.modifiers.cmd {
            s.append("cmd+");
        }
        s.append(self.key.canonical_token().as_str());
        assert(s@ =~= self.canonical());
        s
    }
}

/// An error found in a prefix of the tokens is the error of the whole run.
proof fn lemma_first_error_stands(tokens: Seq<Seq<char>>, input: Seq<char>, n: int)
    requires
        0 <= n <= tokens.len(),
        modifiers_from(tokens.take(n), input) is Err,
    ensures
        modifiers_from(tokens, input) == modifiers_from(tokens.take(n), input),
    decreases tokens.len(),
{
    if n < tokens.len() {
        assert(tokens.drop_last().take(n) =~= tokens.take(n));
        lemma_first_error_stands(tokens.drop_last(), input, n);
    } else {
        assert(tokens.take(n) =~= tokens);
    }
}

// ---------------------------------------------------------------------------
// Profiles
// ---------------------------------------------------------------------------

/// The stable name of a [`KeybindingProfile`], such as `default` or `vim`.
#[derive(Debug, PartialEq, Eq, Hash)]
pub struct KeybindingProfileId(String);

impl Clone for KeybindingProfileId {
    fn clone(&self) -> (res: Self)
        ensures
            res == *self,
    {
        KeybindingProfileId(self.0.clone())
    }
}

impl KeybindingProfileId {
    /// The name as text.
    pub closed spec fn text(self) -> Seq<char> {
        self.0@
    }

    /// The profile of the given name.
    #[must_use]
    pub fn new(slug: &str) -> (res: Self)
        ensures
            res.text() == slug@,
    {
        Self(slug.to_owned())
    }

    /// The name as text.
    #[must_use]
    pub fn as_str(&self) -> (res: &str)
        ensures
            res@ == self.text(),
    {
        self.0.as_str()
    }

    /// The name as a string of its own.
    pub fn to_string(&self) -> (res: String)
        ensures
            res@ == self.text(),
    {
        self.0.clone()
    }
}

impl<'a> From<&'a str> for KeybindingProfileId {
    fn from(slug: &'a str) -> (res: Self)
        ensures
            res.text() == slug@,
    {
        Self(slug.to_owned())
    }
}

impl<'a> vstd::std_specs::convert::FromSpecImpl<&'a str> for KeybindingProfileId {
    open spec fn obeys_from_spec() -> bool {
        false
    }

    open spec fn from_spec(slug: &'a str) -> Self {
        arbitrary()
    }
}

impl From<String> for KeybindingProfileId {
    fn from(slug: String) -> (res: Self)
        ensures
            res.text() == slug@,
    {
        Self(slug)
    }
}

impl vstd::std_specs::convert::FromSpecImpl<String> for KeybindingProfileId {
    open spec fn obeys_from_spec() -> bool {
        false
    }

    open spec fn from_spec(slug: String) -> Self {
        arbitrary()
    }
}

/// Bindings by command, under a name. A command may have several.
#[derive(Debug, Clone, PartialEq, Eq)]
#[non_exhaustive]
pub struct KeybindingProfile {
    /// The profile's name.
    pub id: KeybindingProfileId,
    /// The bindings of each command.
    pub bindings: HashMap<CommandId, Vec<KeyBinding>>,
}

impl KeybindingProfile {
    /// A profile without bindings, under the name that `id` converts to.
    #[must_use]
    pub fn new<I: Into<KeybindingProfileId>>(id: I) -> (res: Self)
        ensures
            call_ensures(I::into, (id,), res.id),
            res.bindings@ == Map::<CommandId, Vec<KeyBinding>>::empty(),
    {
        Self { id: id.into(), bindings: HashMap::new() }
    }
}

} // verus!
