//! Colours and how they are written.
//!
//! A colour is read from `#RRGGBB`, `#RRGGBBAA`, `rgb(r, g, b)` or
//! `rgba(r, g, b, a)`, and always written as `#RRGGBBAA`. The alpha of the last
//! form is a byte, or a number from `0.0` to `1.0` with a decimal point. Reading
//! such a number is left to the caller: [`parse_color`] hands the text of it out
//! as [`ColorReading::DecimalAlpha`], and [`PendingColor::finish`] takes what it
//! was read as.

use vstd::prelude::*;
use vstd::string::*;

use crate::numeral;
use crate::text;

verus! {

/// A colour with eight bits for each of red, green, blue and alpha.
#[derive(Debug, Clone, Copy, PartialEq, Eq, Hash, Structural)]
pub struct Color {
    /// Red.
    pub r: u8,
    /// Green.
    pub g: u8,
    /// Blue.
    pub b: u8,
    /// Alpha; 255 is opaque.
    pub a: u8,
}

impl Color {
    /// The colour with the given channels.
    #[must_use]
    pub fn new(r: u8, g: u8, b: u8, a: u8) -> (res: Self)
        ensures
            res == (Color { r, g, b, a }),
    {
        Self { r, g, b, a }
    }

    /// The opaque colour with the given channels.
    #[must_use]
    pub fn rgb(r: u8, g: u8, b: u8) -> (res: Self)
        ensures
            res == (Color { r, g, b, a: 0xFF }),
    {
        Self { r, g, b, a: 0xFF }
    }

    /// The canonical written form, `#RRGGBBAA` in upper case.
    pub open spec fn canonical(self) -> Seq<char> {
        seq!['#'] + numeral::hex_padded(self.r as nat, 2, true) + numeral::hex_padded(
            self.g as nat,
            2,
            true,
        ) + numeral::hex_padded(self.b as nat, 2, true) + numeral::hex_padded(
            self.a as nat,
            2,
            true,
        )
    }

    /// Writes the canonical form.
    pub fn to_string(&self) -> (res: String)
        ensures
            res@ == self.canonical(),
    {
        let mut s = String::new();
        s.push('#');
        numeral::push_hex_byte(&mut s, self.r);
        numeral::push_hex_byte(&mut s, self.g);
        numeral::push_hex_byte(&mut s, self.b);
        numeral::push_hex_byte(&mut s, self.a);
        assert(s@ =~= self.canonical());
        s
    }
}

// ---------------------------------------------------------------------------
// Results of reading
// ---------------------------------------------------------------------------

/// What a decimal alpha was read as.
#[derive(Debug, Clone, Copy, PartialEq, Eq, Structural)]
pub enum AlphaReading {
    /// A number from 0 to 1, scaled to a byte.
    Byte(u8),
    /// No number.
    NotANumber,
    /// A number outside the range.
    OutOfRange,
}

/// A colour whose alpha is a decimal number yet to be read.
#[derive(Debug, Clone, PartialEq, Eq)]
pub struct PendingColor {
    /// Red.
    pub r: u8,
    /// Green.
    pub g: u8,
    /// Blue.
    pub b: u8,
    /// The text of the alpha.
    pub alpha: String,
}

/// What a text was read as.
#[derive(Debug, Clone, PartialEq, Eq)]
pub enum ColorReading {
    /// A colour.
    Complete(Color),
    /// A colour with a decimal alpha.
    DecimalAlpha(PendingColor),
}

/// A [`ColorReading`] as text.
pub enum ColorReadingView {
    Complete(Color),
    DecimalAlpha { r: u8, g: u8, b: u8, alpha: Seq<char> },
}

impl View for ColorReading {
    type V = ColorReadingView;

    open spec fn view(&self) -> ColorReadingView {
        match *self {
            ColorReading::Complete(color) => ColorReadingView::Complete(color),
            ColorReading::DecimalAlpha(p) => ColorReadingView::DecimalAlpha {
                r: p.r,
                g: p.g,
                b: p.b,
                alpha: p.alpha@,
            },
        }
    }
}

// ---------------------------------------------------------------------------
// Messages
// ---------------------------------------------------------------------------

/// The message for an input that is no colour. It quotes the input.
pub open spec fn invalid_color(original: Seq<char>, detail: Seq<char>) -> Seq<char> {
    "invalid color "@ + text::debug_quoted(original) + ": "@ + detail
}

fn invalid(original: &str, detail: &str) -> (res: String)
    ensures
        res@ == invalid_color(original@, detail@),
{
    "invalid color ".to_owned().concat(text::debug_text(original).as_str()).concat(": ").concat(
        detail,
    )
}

/// What is wrong with a channel of the hexadecimal form.
pub open spec fn not_a_hex_byte(channel: Seq<char>, field: Seq<char>) -> Seq<char> {
    channel + " channel "@ + text::debug_quoted(field) + " is not a hex byte"@
}

/// What is wrong with a channel of the decimal forms.
pub open spec fn not_a_byte(channel: Seq<char>, field: Seq<char>) -> Seq<char> {
    channel + " channel "@ + text::debug_quoted(field) + " must be 0..=255"@
}

// ---------------------------------------------------------------------------
// The hexadecimal form
// ---------------------------------------------------------------------------

/// The number of bytes of a character in UTF-8.
pub open spec fn char_bytes(c: char) -> nat {
    let code = c as u32;
    if code < 0x80 {
        1
    } else if code < 0x800 {
        2
    } else if code < 0x10000 {
        3
    } else {
        4
    }
}

/// The number of bytes of a text in UTF-8.
pub open spec fn byte_length(s: Seq<char>) -> nat
    decreases s.len(),
{
    if s.len() == 0 {
        0
    } else {
        byte_length(s.drop_last()) + char_bytes(s.last())
    }
}

/// How many characters make up the first two bytes of a text, where some do.
pub open spec fn first_pair(s: Seq<char>) -> Option<int> {
    if s.len() >= 1 && char_bytes(s[0]) == 2 {
        Some(1)
    } else if s.len() >= 2 && char_bytes(s[0]) == 1 && char_bytes(s[1]) == 1 {
        Some(2)
    } else {
        None
    }
}

/// The name of a channel, counted from zero.
pub open spec fn channel_name(channel: int) -> Seq<char> {
    if channel == 0 {
        "red"@
    } else if channel == 1 {
        "green"@
    } else if channel == 2 {
        "blue"@
    } else {
        "alpha"@
    }
}

/// The bytes that pairs of hexadecimal digits write, from the given channel on,
/// or what is wrong with the first one that writes none.
pub open spec fn hex_channels(s: Seq<char>, channel: int) -> Result<Seq<u8>, Seq<char>>
    decreases s.len(),
{
    if s.len() == 0 {
        Ok(Seq::empty())
    } else {
        match first_pair(s) {
            None => Err("hex form must be `#RRGGBB` or `#RRGGBBAA`"@),
            Some(n) => match numeral::bounded_value(s.take(n), 16, 255) {
                None => Err(not_a_hex_byte(channel_name(channel), s.take(n))),
                Some(value) => match hex_channels(s.skip(n), channel + 1) {
                    Err(e) => Err(e),
                    Ok(rest) => Ok(seq![value as u8] + rest),
                },
            },
        }
    }
}

/// The colour that the digits after `#` write, or what is wrong with them. Three
/// channels make an opaque colour.
pub open spec fn hex_color(digits: Seq<char>) -> Result<Color, Seq<char>> {
    if byte_length(digits) != 6 && byte_length(digits) != 8 {
        Err("hex form must be `#RRGGBB` or `#RRGGBBAA`"@)
    } else {
        match hex_channels(digits, 0) {
            Err(e) => Err(e),
            Ok(c) => Ok(
                Color {
                    r: c[0],
                    g: c[1],
                    b: c[2],
                    a: if c.len() == 4 {
                        c[3]
                    } else {
                        0xFF
                    },
                },
            ),
        }
    }
}

fn width(c: char) -> (res: u64)
    ensures
        res == char_bytes(c),
        1 <= res <= 4,
{
    let code: u32 = c as u32;
    if code < 0x80 {
        1
    } else if code < 0x800 {
        2
    } else if code < 0x10000 {
        3
    } else {
        4
    }
}

proof fn lemma_byte_length_grows(s: Seq<char>, i: int)
    requires
        0 <= i <= s.len(),
    ensures
        byte_length(s.take(i)) <= byte_length(s),
    decreases s.len() - i,
{
    if i < s.len() {
        lemma_byte_length_grows(s, i + 1);
        assert(s.take(i + 1).drop_last() =~= s.take(i));
    } else {
        assert(s.take(i) =~= s);
    }
}

/// The number of bytes of a text, where it is at most eight.
fn short_byte_length(v: &Vec<char>) -> (res: Option<u64>)
    ensures
        match res {
            Some(n) => n == byte_length(v@) && n <= 8,
            None => byte_length(v@) > 8,
        },
{
    let mut n: u64 = 0;
    for i in 0..v.len()
        invariant
            n == byte_length(v@.take(i as int)),
            n <= 8,
    {
        assert(v@.take(i + 1).drop_last() =~= v@.take(i as int));
        n = n + width(v[i]);
        if n > 8 {
            proof {
                lemma_byte_length_grows(v@, i + 1);
            }
            return None;
        }
    }
    assert(v@.take(v@.len() as int) =~= v@);
    Some(n)
}

/// Pairs take two bytes each, so the channels of `n` bytes are `n / 2`.
proof fn lemma_hex_channels_count(s: Seq<char>, channel: int)
    ensures
        hex_channels(s, channel) is Ok ==> 2 * hex_channels(s, channel)->Ok_0.len() == byte_length(
            s,
        ),
    decreases s.len(),
{
    if s.len() > 0 && hex_channels(s, channel) is Ok {
        let n = first_pair(s)->0;
        lemma_hex_channels_count(s.skip(n), channel + 1);
        lemma_byte_length_parts(s, n);
        let head = s.take(n);
        if n == 1 {
            assert(head.drop_last() =~= Seq::empty());
            assert(byte_length(head.drop_last()) == 0);
        } else {
            assert(head.drop_last().drop_last() =~= Seq::empty());
            assert(byte_length(head.drop_last().drop_last()) == 0);
            assert(byte_length(head.drop_last()) == 1);
        }
        assert(byte_length(head) == 2);
    }
}

proof fn lemma_byte_length_parts(s: Seq<char>, n: int)
    requires
        0 <= n <= s.len(),
    ensures
        byte_length(s) == byte_length(s.take(n)) + byte_length(s.skip(n)),
    decreases s.len(),
{
    if n == s.len() {
        assert(s.take(n) =~= s);
        assert(s.skip(n) =~= Seq::empty());
    } else {
        lemma_byte_length_parts(s.drop_last(), n);
        assert(s.drop_last().take(n) =~= s.take(n));
        assert(s.drop_last().skip(n) =~= s.skip(n).drop_last());
    }
}

fn channel_label(channel: u64) -> (res: &'static str)
    ensures
        res@ == channel_name(channel as int),
{
    if channel == 0 {
        "red"
    } else if channel == 1 {
        "green"
    } else if channel == 2 {
        "blue"
    } else {
        "alpha"
    }
}

fn parse_channels(v: &Vec<char>) -> (res: Result<Vec<u8>, String>)
    requires
        v@.len() <= 8,
    ensures
        match res {
            Ok(c) => hex_channels(v@, 0) == Ok::<_, Seq<char>>(c@),
            Err(e) => hex_channels(v@, 0) == Err::<Seq<u8>, _>(e@),
        },
{
    let mut channels: Vec<u8> = Vec::new();
    let mut at: usize = 0;
    let mut channel: u64 = 0;
    assert(v@.skip(0) =~= v@);
    while at < v.len()
        invariant
            at <= v@.len(),
            v@.len() <= 8,
            channel <= at,
            hex_channels(v@, 0) == match hex_channels(v@.skip(at as int), channel as int) {
                Err(e) => Err(e),
                Ok(rest) => Ok(channels@ + rest),
            },
        decreases v@.len() - at,
    {
        let ghost s = v@.skip(at as int);
        let n: usize = if width(v[at]) == 2 {
            1
        } else if at + 1 < v.len() && width(v[at]) == 1 && width(v[at + 1]) == 1 {
            2
        } else {
            assert(first_pair(s) is None);
            return Err("hex form must be `#RRGGBB` or `#RRGGBBAA`".to_owned());
        };
        assert(first_pair(s) == Some(n as int));
        let pair = text::slice_of(v, at, at + n);
        assert(pair@ =~= s.take(n as int));
        match numeral::parse_unsigned(&pair, 16, 255) {
            None => {
                let field = text::string_of(&pair);
                return Err(
                    channel_label(channel).to_owned().concat(" channel ").concat(
                        text::debug_text(field.as_str()).as_str(),
                    ).concat(" is not a hex byte"),
                );
            },
            Some(value) => {
                let ghost before = channels@;
                channels.push(value as u8);
                assert(s.skip(n as int) =~= v@.skip(at + n));
                proof {
                    if let Ok(rest) = hex_channels(v@.skip(at + n), channel + 1) {
                        assert(before + (seq![value as u8] + rest) =~= channels@ + rest);
                    }
                }
                at = at + n;
                channel = channel + 1;
            },
        }
    }
    assert(v@.skip(at as int) =~= Seq::empty());
    assert(channels@ + Seq::<u8>::empty() =~= channels@);
    Ok(channels)
}

fn parse_hex(digits: &Vec<char>) -> (res: Result<Color, String>)
    ensures
        match res {
            Ok(c) => hex_color(digits@) == Ok::<_, Seq<char>>(c),
            Err(e) => hex_color(digits@) == Err::<Color, _>(e@),
        },
{
    let fits = match short_byte_length(digits) {
        Some(n) => n == 6 || n == 8,
        None => false,
    };
    if !fits {
        return Err("hex form must be `#RRGGBB` or `#RRGGBBAA`".to_owned());
    }
    proof {
        lemma_characters_take_bytes(digits@);
        lemma_hex_channels_count(digits@, 0);
    }
    match parse_channels(digits) {
        Err(e) => Err(e),
        Ok(c) => if c.len() == 4 {
            Ok(Color::new(c[0], c[1], c[2], c[3]))
        } else {
            Ok(Color::new(c[0], c[1], c[2], 0xFF))
        },
    }
}

proof fn lemma_characters_take_bytes(s: Seq<char>)
    ensures
        s.len() <= byte_length(s),
    decreases s.len(),
{
    if s.len() > 0 {
        lemma_characters_take_bytes(s.drop_last());
    }
}

// ---------------------------------------------------------------------------
// The decimal forms
// ---------------------------------------------------------------------------

/// The fields between commas, each without the white space around it.
pub open spec fn color_fields(inner: Seq<char>) -> Seq<Seq<char>> {
    text::split_on(inner, ',').map_values(|field: Seq<char>| text::trimmed(field))
}

/// The byte that a channel's field writes, or what is wrong with it.
pub open spec fn channel_byte(field: Seq<char>, channel: Seq<char>) -> Result<u8, Seq<char>> {
    match numeral::bounded_value(field, 10, 255) {
        Some(n) => Ok(n as u8),
        None => Err(not_a_byte(channel, field)),
    }
}

/// The red, green and blue of the first three fields, or what is wrong with the
/// first one that writes no byte.
pub open spec fn rgb_bytes(fields: Seq<Seq<char>>) -> Result<(u8, u8, u8), Seq<char>> {
    match channel_byte(fields[0], "red"@) {
        Err(e) => Err(e),
        Ok(r) => match channel_byte(fields[1], "green"@) {
            Err(e) => Err(e),
            Ok(g) => match channel_byte(fields[2], "blue"@) {
                Err(e) => Err(e),
                Ok(b) => Ok((r, g, b)),
            },
        },
    }
}

/// The colour inside `rgb(...)`, or what is wrong with it.
pub open spec fn rgb_color(inner: Seq<char>) -> Result<ColorReadingView, Seq<char>> {
    let fields = color_fields(inner);
    if fields.len() != 3 {
        Err("`rgb(...)` requires exactly three channels"@)
    } else {
        match rgb_bytes(fields) {
            Err(e) => Err(e),
            Ok((r, g, b)) => Ok(ColorReadingView::Complete(Color { r, g, b, a: 0xFF })),
        }
    }
}

/// The colour inside `rgba(...)`, or what is wrong with it.
pub open spec fn rgba_color(inner: Seq<char>) -> Result<ColorReadingView, Seq<char>> {
    let fields = color_fields(inner);
    if fields.len() != 4 {
        Err("`rgba(...)` requires exactly four channels"@)
    } else {
        match rgb_bytes(fields) {
            Err(e) => Err(e),
            Ok((r, g, b)) => if fields[3].contains('.') {
                Ok(ColorReadingView::DecimalAlpha { r, g, b, alpha: fields[3] })
            } else {
                match channel_byte(fields[3], "alpha"@) {
                    Err(e) => Err(e),
                    Ok(a) => Ok(ColorReadingView::Complete(Color { r, g, b, a })),
                }
            },
        }
    }
}

fn split_fields(inner: &Vec<char>) -> (res: Vec<Vec<char>>)
    ensures
        text::texts(res@) == color_fields(inner@),
{
    let pieces = text::split(inner, ',');
    let ghost wanted = text::texts(pieces@).map_values(|field: Seq<char>| text::trimmed(field));
    let mut res: Vec<Vec<char>> = Vec::new();
    for i in 0..pieces.len()
        invariant
            wanted == text::texts(pieces@).map_values(|field: Seq<char>| text::trimmed(field)),
            text::texts(res@) == wanted.take(i as int),
    {
        let field = text::trim(&pieces[i]);
        assert(wanted[i as int] == field@);
        proof {
            text::lemma_texts_push(res@, field);
        }
        res.push(field);
        assert(wanted.take(i + 1) =~= wanted.take(i as int).push(wanted[i as int]));
    }
    assert(wanted.take(pieces@.len() as int) =~= wanted);
    res
}

fn parse_channel(field: &Vec<char>, channel: &str) -> (res: Result<u8, String>)
    ensures
        match res {
            Ok(b) => channel_byte(field@, channel@) == Ok::<_, Seq<char>>(b),
            Err(e) => channel_byte(field@, channel@) == Err::<u8, _>(e@),
        },
{
    match numeral::parse_unsigned(field, 10, 255) {
        Some(n) => Ok(n as u8),
        None => Err(
            channel.to_owned().concat(" channel ").concat(
                text::debug_text(text::string_of(field).as_str()).as_str(),
            ).concat(" must be 0..=255"),
        ),
    }
}

fn parse_rgb_bytes(fields: &Vec<Vec<char>>) -> (res: Result<(u8, u8, u8), String>)
    requires
        fields@.len() >= 3,
    ensures
        match res {
            Ok(c) => rgb_bytes(text::texts(fields@)) == Ok::<_, Seq<char>>(c),
            Err(e) => rgb_bytes(text::texts(fields@)) == Err::<(u8, u8, u8), _>(e@),
        },
{
    assert(text::texts(fields@)[0] == fields@[0]@);
    assert(text::texts(fields@)[1] == fields@[1]@);
    assert(text::texts(fields@)[2] == fields@[2]@);
    let r = match parse_channel(&fields[0], "red") {
        Ok(r) => r,
        Err(e) => return Err(e),
    };
    let g = match parse_channel(&fields[1], "green") {
        Ok(g) => g,
        Err(e) => return Err(e),
    };
    match parse_channel(&fields[2], "blue") {
        Ok(b) => Ok((r, g, b)),
        Err(e) => Err(e),
    }
}

fn parse_rgb(inner: &Vec<char>) -> (res: Result<ColorReading, String>)
    ensures
        match res {
            Ok(c) => rgb_color(inner@) == Ok::<_, Seq<char>>(c@),
            Err(e) => rgb_color(inner@) == Err::<ColorReadingView, _>(e@),
        },
{
    let fields = split_fields(inner);
    assert(text::texts(fields@).len() == fields@.len());
    if fields.len() != 3 {
        return Err("`rgb(...)` requires exactly three channels".to_owned());
    }
    match parse_rgb_bytes(&fields) {
        Err(e) => Err(e),
        Ok((r, g, b)) => Ok(ColorReading::Complete(Color::rgb(r, g, b))),
    }
}

fn has_point(field: &Vec<char>) -> (res: bool)
    ensures
        res == field@.contains('.'),
{
    for i in 0..field.len()
        invariant
            forall|j: int| 0 <= j < i ==> field@[j] != '.',
    {
        if field[i] == '.' {
            return true;
        }
    }
    false
}

fn parse_rgba(inner: &Vec<char>) -> (res: Result<ColorReading, String>)
    ensures
        match res {
            Ok(c) => rgba_color(inner@) == Ok::<_, Seq<char>>(c@),
            Err(e) => rgba_color(inner@) == Err::<ColorReadingView, _>(e@),
        },
{
    let fields = split_fields(inner);
    assert(text::texts(fields@).len() == fields@.len());
    if fields.len() != 4 {
        return Err("`rgba(...)` requires exactly four channels".to_owned());
    }
    assert(text::texts(fields@)[3] == fields@[3]@);
    match parse_rgb_bytes(&fields) {
        Err(e) => Err(e),
        Ok((r, g, b)) => if has_point(&fields[3]) {
            Ok(
                ColorReading::DecimalAlpha(
                    PendingColor { r, g, b, alpha: text::string_of(&fields[3]) },
                ),
            )
        } else {
            match parse_channel(&fields[3], "alpha") {
                Err(e) => Err(e),
                Ok(a) => Ok(ColorReading::Complete(Color::new(r, g, b, a))),
            }
        },
    }
}

// ---------------------------------------------------------------------------
// Reading
// ---------------------------------------------------------------------------

/// What stands between `prefix` and a closing parenthesis.
pub open spec fn enclosed(s: Seq<char>, prefix: Seq<char>) -> Option<Seq<char>> {
    if text::begins(s, prefix) && s.len() > prefix.len() && s.last() == ')' {
        Some(s.subrange(prefix.len() as int, s.len() - 1))
    } else {
        None
    }
}

/// What trimmed text writes, or what is wrong with it.
pub open spec fn reading_of(s: Seq<char>) -> Result<ColorReadingView, Seq<char>> {
    if s.len() > 0 && s[0] == '#' {
        match hex_color(s.drop_first()) {
            Err(e) => Err(e),
            Ok(color) => Ok(ColorReadingView::Complete(color)),
        }
    } else if enclosed(s, "rgba("@) is Some {
        rgba_color(enclosed(s, "rgba("@)->0)
    } else if enclosed(s, "rgb("@) is Some {
        rgb_color(enclosed(s, "rgb("@)->0)
    } else {
        Err("expected `#RRGGBB`, `#RRGGBBAA`, `rgb(r, g, b)`, or `rgba(r, g, b, a)`"@)
    }
}

/// What `input` writes, or the message that says what is wrong with it.
pub open spec fn color_from(input: Seq<char>) -> Result<ColorReadingView, Seq<char>> {
    match reading_of(text::trimmed(input)) {
        Err(detail) => Err(invalid_color(input, detail)),
        Ok(reading) => Ok(reading),
    }
}

fn strip_enclosing(v: &Vec<char>, prefix: &str) -> (res: Option<Vec<char>>)
    ensures
        match res {
            Some(inner) => enclosed(v@, prefix@) == Some(inner@),
            None => enclosed(v@, prefix@) is None,
        },
{
    let p = text::chars_of(prefix);
    if text::begins_with(v, prefix) && v.len() > p.len() && v[v.len() - 1] == ')' {
        Some(text::slice_of(v, p.len(), v.len() - 1))
    } else {
        None
    }
}

/// Reads a colour. The message of an error quotes the input.
pub fn parse_color(input: &str) -> (res: Result<ColorReading, String>)
    ensures
        match res {
            Ok(reading) => color_from(input@) == Ok::<_, Seq<char>>(reading@),
            Err(message) => color_from(input@) == Err::<ColorReadingView, _>(message@),
        },
{
    let chars = text::chars_of(input);
    let trimmed = text::trim(&chars);
    let reading = if trimmed.len() > 0 && trimmed[0] == '#' {
        let digits = text::slice_of(&trimmed, 1, trimmed.len());
        assert(digits@ =~= trimmed@.drop_first());
        match parse_hex(&digits) {
            Err(e) => Err(e),
            Ok(color) => Ok(ColorReading::Complete(color)),
        }
    } else if let Some(inner) = strip_enclosing(&trimmed, "rgba(") {
        parse_rgba(&inner)
    } else if let Some(inner) = strip_enclosing(&trimmed, "rgb(") {
        parse_rgb(&inner)
    } else {
        Err(
            "expected `#RRGGBB`, `#RRGGBBAA`, `rgb(r, g, b)`, or `rgba(r, g, b, a)`".to_owned(),
        )
    };
    match reading {
        Ok(reading) => Ok(reading),
        Err(detail) => Err(invalid(input, detail.as_str())),
    }
}

impl PendingColor {
    /// The colour, once its alpha has been read, or what is wrong with `input`.
    pub open spec fn finished(self, input: Seq<char>, alpha: AlphaReading) -> Result<
        Color,
        Seq<char>,
    > {
        match alpha {
            AlphaReading::Byte(a) => Ok(Color { r: self.r, g: self.g, b: self.b, a }),
            AlphaReading::NotANumber => Err(
                invalid_color(
                    input,
                    "alpha "@ + text::debug_quoted(self.alpha@) + " is not a number"@,
                ),
            ),
            AlphaReading::OutOfRange => Err(
                invalid_color(
                    input,
                    "float alpha "@ + text::debug_quoted(self.alpha@)
                        + " must be in 0.0..=1.0"@,
                ),
            ),
        }
    }

    /// Completes the colour that `input` writes, given what its alpha was read
    /// as.
    pub fn finish(&self, input: &str, alpha: AlphaReading) -> (res: Result<Color, String>)
        ensures
            match res {
                Ok(color) => self.finished(input@, alpha) == Ok::<_, Seq<char>>(color),
                Err(message) => self.finished(input@, alpha) == Err::<Color, _>(message@),
            },
    {
        match alpha {
            AlphaReading::Byte(a) => Ok(Color::new(self.r, self.g, self.b, a)),
            AlphaReading::NotANumber => {
                let detail = "alpha ".to_owned().concat(
                    text::debug_text(self.alpha.as_str()).as_str(),
                ).concat(" is not a number");
                Err(invalid(input, detail.as_str()))
            },
            AlphaReading::OutOfRange => {
                let detail = "float alpha ".to_owned().concat(
                    text::debug_text(self.alpha.as_str()).as_str(),
                ).concat(" must be in 0.0..=1.0");
                Err(invalid(input, detail.as_str()))
            },
        }
    }
}

// ---------------------------------------------------------------------------
// Laws
// ---------------------------------------------------------------------------

/// Every colour is read back from its canonical form.
pub proof fn law_canonical_reads_back(color: Color)
    ensures
        color_from(color.canonical()) == Ok::<_, Seq<char>>(ColorReadingView::Complete(color)),
{
    let none = Seq::<char>::empty();
    let a = numeral::hex_padded(color.a as nat, 2, true) + none;
    let b = numeral::hex_padded(color.b as nat, 2, true) + a;
    let g = numeral::hex_padded(color.g as nat, 2, true) + b;
    let r = numeral::hex_padded(color.r as nat, 2, true) + g;
    lemma_hex_step(color.a, none, 3);
    lemma_hex_step(color.b, a, 2);
    lemma_hex_step(color.g, b, 1);
    lemma_hex_step(color.r, g, 0);
    let s = color.canonical();
    assert(s.drop_first() =~= r);
    assert(s.last() == a[1]);
    assert(r.len() == 8);
    assert(s.last() == s[s.len() - 1]);
    text::lemma_trimmed_fixpoint(s);
    assert(hex_channels(r, 0)->Ok_0 =~= seq![color.r, color.g, color.b, color.a]);
}

/// `rgb(r, g, b)` is read as the opaque colour with those channels.
pub proof fn law_rgb_form_is_opaque(r: u8, g: u8, b: u8)
    ensures
        color_from(
            "rgb("@ + numeral::decimal(r as nat) + ", "@ + numeral::decimal(g as nat) + ", "@
                + numeral::decimal(b as nat) + ")"@,
        ) == Ok::<_, Seq<char>>(ColorReadingView::Complete(Color { r, g, b, a: 0xFF })),
{
    let dr = numeral::decimal(r as nat);
    let dg = numeral::decimal(g as nat);
    let db = numeral::decimal(b as nat);
    lemma_decimal_field(r);
    lemma_decimal_field(g);
    lemma_decimal_field(b);
    lemma_rgb_fields(dr, dg, db, r, g, b);
}

/// The inside of `rgb(..)` is read field by field.
proof fn lemma_rgb_inside(x: Seq<char>, y: Seq<char>, z: Seq<char>, r: u8, g: u8, b: u8)
    requires
        plain_field(x),
        plain_field(y),
        plain_field(z),
        numeral::bounded_value(x, 10, 255) == Some(r as nat),
        numeral::bounded_value(y, 10, 255) == Some(g as nat),
        numeral::bounded_value(z, 10, 255) == Some(b as nat),
    ensures
        rgb_color(x + ", "@ + y + ", "@ + z) == Ok::<_, Seq<char>>(
            ColorReadingView::Complete(Color { r, g, b, a: 0xFF }),
        ),
{
    lemma_three_fields(x, y, z);
    let fields = color_fields(x + ", "@ + y + ", "@ + z);
    assert(fields.len() == 3);
    assert(fields[0] == x && fields[1] == y && fields[2] == z);
}

#[verifier::spinoff_prover]
proof fn lemma_rgb_fields(x: Seq<char>, y: Seq<char>, z: Seq<char>, r: u8, g: u8, b: u8)
    requires
        plain_field(x),
        plain_field(y),
        plain_field(z),
        numeral::bounded_value(x, 10, 255) == Some(r as nat),
        numeral::bounded_value(y, 10, 255) == Some(g as nat),
        numeral::bounded_value(z, 10, 255) == Some(b as nat),
    ensures
        color_from("rgb("@ + x + ", "@ + y + ", "@ + z + ")"@) == Ok::<_, Seq<char>>(
            ColorReadingView::Complete(Color { r, g, b, a: 0xFF }),
        ),
{
    let inner = x + ", "@ + y + ", "@ + z;
    assert("rgb("@ + x + ", "@ + y + ", "@ + z + ")"@ =~= "rgb("@ + inner + ")"@);
    lemma_rgb_enclosed(inner);
    lemma_rgb_inside(x, y, z, r, g, b);
    lemma_enclosed_reading("rgb("@ + inner + ")"@, inner);
}

/// What stands in `rgb(..)` decides how the whole is read.
proof fn lemma_enclosed_reading(s: Seq<char>, inner: Seq<char>)
    requires
        text::trimmed(s) == s,
        s.len() > 0,
        s[0] != '#',
        enclosed(s, "rgba("@) is None,
        enclosed(s, "rgb("@) == Some(inner),
        rgb_color(inner) is Ok,
    ensures
        color_from(s) == rgb_color(inner),
{
}

proof fn lemma_rgb_enclosed(inner: Seq<char>)
    ensures
        ({
            let s = "rgb("@ + inner + ")"@;
            &&& text::trimmed(s) == s
            &&& s.len() > 0
            &&& s[0] != '#'
            &&& enclosed(s, "rgba("@) is None
            &&& enclosed(s, "rgb("@) == Some(inner)
        }),
{
    let s = "rgb("@ + inner + ")"@;
    reveal_strlit("rgb(");
    reveal_strlit("rgba(");
    reveal_strlit(")");
    assert(s[0] == 'r');
    assert(s.last() == ')');
    text::lemma_trimmed_fixpoint(s);
    if text::begins(s, "rgba("@) {
        assert(s.take(5)[3] == "rgba("@[3]);
        assert(s[3] == '(');
    }
    assert(s.take(4) =~= "rgb("@);
    assert(s.subrange(4, s.len() - 1) =~= inner);
}

proof fn lemma_three_fields(x: Seq<char>, y: Seq<char>, z: Seq<char>)
    requires
        plain_field(x),
        plain_field(y),
        plain_field(z),
    ensures
        color_fields(x + ", "@ + y + ", "@ + z) == seq![x, y, z],
{
    let inner = x + ", "@ + y + ", "@ + z;
    let space = seq![' '];
    let tail = (space + y) + seq![','] + (space + z);
    assert(inner =~= x + seq![','] + tail) by {
        reveal_strlit(", ");
    }
    lemma_spaced_field(y);
    lemma_spaced_field(z);
    text::lemma_split_on_prefix(x, ',', tail);
    text::lemma_split_on_prefix(space + y, ',', space + z);
    text::lemma_split_on_absent(space + z, ',');
    let pieces = seq![x] + (seq![space + y] + seq![space + z]);
    assert(text::split_on(inner, ',') == pieces);
    text::lemma_trimmed_fixpoint(x);
    assert(pieces.len() == 3);
    assert(pieces[0] == x && pieces[1] == space + y && pieces[2] == space + z);
    assert(color_fields(inner) =~= seq![x, y, z]);
}

/// A field without commas and without white space at its ends.
spec fn plain_field(s: Seq<char>) -> bool {
    &&& s.len() > 0
    &&& !s.contains(',')
    &&& !text::is_space(s[0])
    &&& !text::is_space(s.last())
}

proof fn lemma_spaced_field(s: Seq<char>)
    requires
        plain_field(s),
    ensures
        text::trimmed(seq![' '] + s) == s,
        !(seq![' '] + s).contains(','),
{
    let spaced = seq![' '] + s;
    assert(spaced.drop_first() =~= s);
    assert(text::trimmed_start(spaced) == text::trimmed_start(s));
    text::lemma_trimmed_fixpoint(s);
    if spaced.contains(',') {
        let i = choose|i: int| 0 <= i < spaced.len() && spaced[i] == ',';
        assert(s.contains(s[i - 1]));
    }
}

/// One pair of hexadecimal digits in front of others.
proof fn lemma_hex_step(value: u8, rest: Seq<char>, channel: int)
    requires
        byte_length(rest) == rest.len(),
        hex_channels(rest, channel + 1) is Ok,
    ensures
        ({
            let s = numeral::hex_padded(value as nat, 2, true) + rest;
            &&& hex_channels(s, channel) == Ok::<_, Seq<char>>(
                seq![value] + hex_channels(rest, channel + 1)->Ok_0,
            )
            &&& byte_length(s) == s.len()
            &&& s.len() == rest.len() + 2
            &&& !text::is_space(s[0])
            &&& !text::is_space(s[1])
        }),
{
    let pair = numeral::hex_padded(value as nat, 2, true);
    let s = pair + rest;
    numeral::lemma_hex_padded_value(value as nat, 2, true);
    reveal_with_fuel(numeral::hex_bound, 3);
    reveal_with_fuel(numeral::hex_padded, 3);
    assert(s.take(2) =~= pair);
    assert(s.skip(2) =~= rest);
    assert(numeral::digit_value(pair[0], 16) is Some);
    assert(numeral::digit_value(pair[1], 16) is Some);
    lemma_byte_length_parts(s, 2);
    assert(pair.drop_last().drop_last() =~= Seq::empty());
    assert(byte_length(pair.drop_last().drop_last()) == 0);
    assert(byte_length(pair.drop_last()) == 1);
    assert(byte_length(pair) == 2);
}

/// The decimal numeral of a byte has no white space and no comma, and is read as
/// that byte.
proof fn lemma_decimal_field(value: u8)
    ensures
        ({
            let d = numeral::decimal(value as nat);
            &&& plain_field(d)
            &&& numeral::bounded_value(d, 10, 255) == Some(value as nat)
        }),
{
    let d = numeral::decimal(value as nat);
    numeral::lemma_decimal_value(value as nat);
    numeral::lemma_decimal_reads_back(value as nat);
    assert forall|i: int| 0 <= i < d.len() implies '0' <= #[trigger] d[i] <= '9' by {
        assert(numeral::digit_value(d[i], 10) is Some);
    }
    assert(d.last() == d[d.len() - 1]);
}

// ---------------------------------------------------------------------------
// Calls
// ---------------------------------------------------------------------------

/// The place of a hexadecimal digit, of either case; 16 for any other character.
pub open spec fn hex_place(c: char) -> int {
    let code = c as int;
    if 0x30 <= code <= 0x39 {
        code - 0x30
    } else if 0x41 <= code <= 0x46 {
        code - 0x41 + 10
    } else if 0x61 <= code <= 0x66 {
        code - 0x61 + 10
    } else {
        16
    }
}

/// What two hexadecimal digits denote.
pub open spec fn hex_pair(s: Seq<char>, at: int) -> int {
    16 * hex_place(s[at]) + hex_place(s[at + 1])
}

/// Whether every character is a hexadecimal digit.
pub open spec fn is_hex(s: Seq<char>) -> bool {
    forall|i: int| 0 <= i < s.len() ==> hex_place(#[trigger] s[i]) < 16
}

/// A colour is written as `#` and eight hexadecimal digits in upper case: two for red, two
/// for green, two for blue and two for alpha.
pub proof fn law_color_is_written_channel_by_channel(color: Color, written: String)
    requires
        call_ensures(Color::to_string, (&color,), written),
    ensures
        written@.len() == 9,
        written@[0] == '#',
        is_hex(written@.skip(1)),
        hex_pair(written@, 1) == color.r,
        hex_pair(written@, 3) == color.g,
        hex_pair(written@, 5) == color.b,
        hex_pair(written@, 7) == color.a,
        forall|i: int| 0 <= i < 9 ==> (#[trigger] written@[i] as int) < 0x61,
{
    lemma_written_pair(color.r);
    lemma_written_pair(color.g);
    lemma_written_pair(color.b);
    lemma_written_pair(color.a);
    let r = numeral::hex_padded(color.r as nat, 2, true);
    let g = numeral::hex_padded(color.g as nat, 2, true);
    let b = numeral::hex_padded(color.b as nat, 2, true);
    let a = numeral::hex_padded(color.a as nat, 2, true);
    let w = written@;
    assert(w[1] == r[0] && w[2] == r[1] && w[3] == g[0] && w[4] == g[1]);
    assert(w[5] == b[0] && w[6] == b[1] && w[7] == a[0] && w[8] == a[1]);
    assert forall|i: int| 0 <= i < w.skip(1).len() implies hex_place(#[trigger] w.skip(1)[i])
        < 16 by {
        assert(w.skip(1)[i] == w[i + 1]);
    }
}

proof fn lemma_written_pair(value: u8)
    ensures
        ({
            let s = numeral::hex_padded(value as nat, 2, true);
            &&& s.len() == 2
            &&& hex_place(s[0]) < 16
            &&& hex_place(s[1]) < 16
            &&& hex_pair(s, 0) == value
            &&& (s[0] as int) < 0x61
            &&& (s[1] as int) < 0x61
        }),
{
    reveal_with_fuel(numeral::hex_padded, 3);
    let n = value as nat;
    let s = numeral::hex_padded(n, 2, true);
    assert(s[0] == numeral::hex_char((n / 16) % 16, true));
    assert(s[1] == numeral::hex_char(n % 16, true));
    assert((n / 16) % 16 == n / 16);
}

/// Two hexadecimal digits are read as the byte that they denote; two other ASCII characters
/// that hold no plus sign are not read.
proof fn lemma_read_pair(s: Seq<char>, channel: int)
    requires
        s.len() >= 2,
        is_hex(s),
    ensures
        ({
            let rest = s.skip(2);
            let value = hex_pair(s, 0) as u8;
            &&& 0 <= hex_pair(s, 0) < 256
            &&& hex_channels(s, channel) == match hex_channels(rest, channel + 1) {
                Err(e) => Err(e),
                Ok(c) => Ok(seq![value] + c),
            }
        }),
{
    let pair = s.take(2);
    assert(hex_place(s[0]) < 16 && hex_place(s[1]) < 16);
    assert(first_pair(s) == Some(2int));
    assert(numeral::digit_value(s[0], 16) == Some(hex_place(s[0]) as nat));
    assert(numeral::digit_value(s[1], 16) == Some(hex_place(s[1]) as nat));
    assert(numeral::all_digits(pair, 16)) by {
        assert forall|i: int| 0 <= i < pair.len() implies numeral::digit_value(
            #[trigger] pair[i],
            16,
        ) is Some by {
            assert(pair[i] == s[i]);
        }
    }
    assert(pair.drop_last().drop_last() =~= Seq::<char>::empty());
    assert(numeral::digits_value(pair.drop_last().drop_last(), 16) == 0);
    assert(pair.drop_last().last() == s[0] && pair.last() == s[1]);
    assert(numeral::digits_value(pair.drop_last(), 16) == hex_place(s[0]));
    assert(numeral::digits_value(pair, 16) == hex_pair(s, 0));
    assert(pair[0] != '+');
    assert(numeral::bounded_value(pair, 16, 255) == Some(hex_pair(s, 0) as nat));
}

proof fn lemma_skipped_hex(s: Seq<char>, n: int)
    requires
        is_hex(s),
        0 <= n <= s.len(),
    ensures
        is_hex(s.skip(n)),
{
    assert forall|i: int| 0 <= i < s.skip(n).len() implies hex_place(#[trigger] s.skip(n)[i])
        < 16 by {
        assert(s.skip(n)[i] == s[n + i]);
    }
}

proof fn lemma_hex_length(s: Seq<char>)
    requires
        is_hex(s),
    ensures
        byte_length(s) == s.len(),
    decreases s.len(),
{
    if s.len() > 0 {
        assert forall|i: int| 0 <= i < s.drop_last().len() implies hex_place(
            #[trigger] s.drop_last()[i],
        ) < 16 by {
            assert(s.drop_last()[i] == s[i]);
        }
        lemma_hex_length(s.drop_last());
        assert(hex_place(s[s.len() - 1]) < 16);
        assert(s.last() == s[s.len() - 1]);
    }
}

/// `#` and six hexadecimal digits are the opaque colour whose red, green and blue the pairs
/// denote, in that order. Two more digits are its alpha. Any other number of digits is
/// refused.
pub proof fn law_hex_form_is_read_channel_by_channel(
    input: &str,
    digits: Seq<char>,
    res: Result<ColorReading, String>,
)
    requires
        call_ensures(parse_color, (input,), res),
        input@ == seq!['#'] + digits,
        is_hex(digits),
    ensures
        digits.len() == 6 || digits.len() == 8 ==> (res matches Ok(ColorReading::Complete(color))
            && color.r == hex_pair(digits, 0) && color.g == hex_pair(digits, 2) && color.b
            == hex_pair(digits, 4) && color.a == if digits.len() == 8 {
            hex_pair(digits, 6)
        } else {
            255
        }),
        digits.len() != 6 && digits.len() != 8 ==> (res matches Err(m) && m@ == "invalid color "@
            + text::debug_quoted(input@) + ": "@ + "hex form must be `#RRGGBB` or `#RRGGBBAA`"@),
{
    let s = input@;
    assert(s.drop_first() =~= digits);
    lemma_hex_length(digits);
    if digits.len() > 0 {
        assert(hex_place(digits[digits.len() - 1]) < 16);
        assert(s.last() == digits[digits.len() - 1]);
    }
    text::lemma_trimmed_fixpoint(s);
    if digits.len() == 6 || digits.len() == 8 {
        let d1 = digits.skip(2);
        let d2 = d1.skip(2);
        let d3 = d2.skip(2);
        lemma_skipped_hex(digits, 2);
        lemma_skipped_hex(d1, 2);
        lemma_skipped_hex(d2, 2);
        lemma_read_pair(digits, 0);
        lemma_read_pair(d1, 1);
        lemma_read_pair(d2, 2);
        assert(hex_pair(d1, 0) == hex_pair(digits, 2));
        assert(hex_pair(d2, 0) == hex_pair(digits, 4));
        if digits.len() == 8 {
            let d4 = d3.skip(2);
            lemma_read_pair(d3, 3);
            assert(hex_pair(d3, 0) == hex_pair(digits, 6));
            assert(hex_channels(d4, 4) == Ok::<Seq<u8>, Seq<char>>(Seq::empty()));
            assert(hex_channels(digits, 0)->Ok_0 =~= seq![
                hex_pair(digits, 0) as u8,
                hex_pair(digits, 2) as u8,
                hex_pair(digits, 4) as u8,
                hex_pair(digits, 6) as u8,
            ]);
        } else {
            assert(hex_channels(d3, 3) == Ok::<Seq<u8>, Seq<char>>(Seq::empty()));
            assert(hex_channels(digits, 0)->Ok_0 =~= seq![
                hex_pair(digits, 0) as u8,
                hex_pair(digits, 2) as u8,
                hex_pair(digits, 4) as u8,
            ]);
        }
    }
}

/// `rgb(r, g, b)` is read as the opaque colour of those channels, and `rgba(r, g, b, a)`
/// with a number as its alpha as the colour of those channels and that alpha. An alpha with
/// a point in it is left to be read as a fraction.
pub proof fn law_decimal_forms_are_read_channel_by_channel(
    r: u8,
    g: u8,
    b: u8,
    a: u8,
    fraction: Seq<char>,
    opaque: &str,
    with_alpha: &str,
    with_fraction: &str,
    first: Result<ColorReading, String>,
    second: Result<ColorReading, String>,
    third: Result<ColorReading, String>,
)
    requires
        plain_alpha(fraction),
        opaque@ == "rgb("@ + numeral::decimal(r as nat) + ", "@ + numeral::decimal(g as nat)
            + ", "@ + numeral::decimal(b as nat) + ")"@,
        with_alpha@ == "rgba("@ + numeral::decimal(r as nat) + ", "@ + numeral::decimal(g as nat)
            + ", "@ + numeral::decimal(b as nat) + ", "@ + numeral::decimal(a as nat) + ")"@,
        with_fraction@ == "rgba("@ + numeral::decimal(r as nat) + ", "@ + numeral::decimal(g as nat)
            + ", "@ + numeral::decimal(b as nat) + ", "@ + fraction + ")"@,
        call_ensures(parse_color, (opaque,), first),
        call_ensures(parse_color, (with_alpha,), second),
        call_ensures(parse_color, (with_fraction,), third),
    ensures
        first matches Ok(ColorReading::Complete(c)) && c == (Color { r, g, b, a: 255 }),
        second matches Ok(ColorReading::Complete(c)) && c == (Color { r, g, b, a }),
        third matches Ok(ColorReading::DecimalAlpha(p)) && p.r == r && p.g == g && p.b == b
            && p.alpha@ == fraction,
{
    law_rgb_form_is_opaque(r, g, b);
    lemma_rgba_byte(r, g, b, a);
    lemma_rgba_fraction(r, g, b, fraction);
}

#[verifier::spinoff_prover]
proof fn lemma_rgba_byte(r: u8, g: u8, b: u8, a: u8)
    ensures
        color_from(
            "rgba("@ + numeral::decimal(r as nat) + ", "@ + numeral::decimal(g as nat) + ", "@
                + numeral::decimal(b as nat) + ", "@ + numeral::decimal(a as nat) + ")"@,
        ) == Ok::<_, Seq<char>>(ColorReadingView::Complete(Color { r, g, b, a })),
{
    let dr = numeral::decimal(r as nat);
    let dg = numeral::decimal(g as nat);
    let db = numeral::decimal(b as nat);
    let da = numeral::decimal(a as nat);
    lemma_decimal_field(r);
    lemma_decimal_field(g);
    lemma_decimal_field(b);
    lemma_decimal_field(a);
    lemma_no_point(a);
    lemma_rgba_form(dr, dg, db, da);
    let inner = dr + ", "@ + dg + ", "@ + db + ", "@ + da;
    lemma_rgba_inside(inner, dr, dg, db, da, r, g, b, a);
}

#[verifier::spinoff_prover]
proof fn lemma_rgba_fraction(r: u8, g: u8, b: u8, fraction: Seq<char>)
    requires
        plain_alpha(fraction),
    ensures
        color_from(
            "rgba("@ + numeral::decimal(r as nat) + ", "@ + numeral::decimal(g as nat) + ", "@
                + numeral::decimal(b as nat) + ", "@ + fraction + ")"@,
        ) == Ok::<_, Seq<char>>(ColorReadingView::DecimalAlpha { r, g, b, alpha: fraction }),
{
    let dr = numeral::decimal(r as nat);
    let dg = numeral::decimal(g as nat);
    let db = numeral::decimal(b as nat);
    lemma_decimal_field(r);
    lemma_decimal_field(g);
    lemma_decimal_field(b);
    lemma_rgba_form(dr, dg, db, fraction);
    let inner = dr + ", "@ + dg + ", "@ + db + ", "@ + fraction;
    lemma_rgba_inside(inner, dr, dg, db, fraction, r, g, b, 0);
}

/// The inside of `rgba(..)` is read field by field.
proof fn lemma_rgba_inside(
    inner: Seq<char>,
    x: Seq<char>,
    y: Seq<char>,
    z: Seq<char>,
    w: Seq<char>,
    r: u8,
    g: u8,
    b: u8,
    a: u8,
)
    requires
        color_fields(inner) == seq![x, y, z, w],
        numeral::bounded_value(x, 10, 255) == Some(r as nat),
        numeral::bounded_value(y, 10, 255) == Some(g as nat),
        numeral::bounded_value(z, 10, 255) == Some(b as nat),
    ensures
        w.contains('.') ==> rgba_color(inner) == Ok::<_, Seq<char>>(
            ColorReadingView::DecimalAlpha { r, g, b, alpha: w },
        ),
        !w.contains('.') && numeral::bounded_value(w, 10, 255) == Some(a as nat) ==> rgba_color(
            inner,
        ) == Ok::<_, Seq<char>>(ColorReadingView::Complete(Color { r, g, b, a })),
{
    let fields = color_fields(inner);
    assert(fields.len() == 4);
    assert(fields[0] == x && fields[1] == y && fields[2] == z && fields[3] == w);
}

/// An alpha with a point in it, without commas and without white space at its ends.
pub open spec fn plain_alpha(s: Seq<char>) -> bool {
    &&& s.contains('.')
    &&& !s.contains(',')
    &&& !text::is_space(s[0])
    &&& !text::is_space(s.last())
}

proof fn lemma_no_point(value: u8)
    ensures
        !numeral::decimal(value as nat).contains('.'),
{
    let d = numeral::decimal(value as nat);
    numeral::lemma_decimal_value(value as nat);
    if d.contains('.') {
        let i = choose|i: int| 0 <= i < d.len() && d[i] == '.';
        assert(numeral::digit_value(d[i], 10) is Some);
    }
}

/// `rgba(..)` is read by its four fields.
#[verifier::spinoff_prover]
proof fn lemma_rgba_form(x: Seq<char>, y: Seq<char>, z: Seq<char>, w: Seq<char>)
    requires
        plain_field(x),
        plain_field(y),
        plain_field(z),
        plain_field(w),
    ensures
        ({
            let s = "rgba("@ + x + ", "@ + y + ", "@ + z + ", "@ + w + ")"@;
            let inner = x + ", "@ + y + ", "@ + z + ", "@ + w;
            &&& reading_of(text::trimmed(s)) == rgba_color(inner)
            &&& color_fields(inner) == seq![x, y, z, w]
        }),
{
    let s = "rgba("@ + x + ", "@ + y + ", "@ + z + ", "@ + w + ")"@;
    let inner = x + ", "@ + y + ", "@ + z + ", "@ + w;
    assert(s =~= "rgba("@ + inner + ")"@);
    lemma_four_fields(x, y, z, w);
    lemma_rgba_enclosed(inner);
}

proof fn lemma_rgba_enclosed(inner: Seq<char>)
    ensures
        reading_of(text::trimmed("rgba("@ + inner + ")"@)) == rgba_color(inner),
{
    let s = "rgba("@ + inner + ")"@;
    reveal_strlit("rgba(");
    reveal_strlit(")");
    assert(s[0] == 'r');
    assert(s.last() == ')');
    text::lemma_trimmed_fixpoint(s);
    assert(s.take(5) =~= "rgba("@);
    assert(s.subrange(5, s.len() - 1) =~= inner);
}

proof fn lemma_four_fields(x: Seq<char>, y: Seq<char>, z: Seq<char>, w: Seq<char>)
    requires
        plain_field(x),
        plain_field(y),
        plain_field(z),
        plain_field(w),
    ensures
        color_fields(x + ", "@ + y + ", "@ + z + ", "@ + w) == seq![x, y, z, w],
{
    let inner = x + ", "@ + y + ", "@ + z + ", "@ + w;
    let space = seq![' '];
    let last = (space + z) + seq![','] + (space + w);
    let tail = (space + y) + seq![','] + last;
    assert(inner =~= x + seq![','] + tail) by {
        reveal_strlit(", ");
    }
    lemma_spaced_field(y);
    lemma_spaced_field(z);
    lemma_spaced_field(w);
    text::lemma_split_on_prefix(x, ',', tail);
    text::lemma_split_on_prefix(space + y, ',', last);
    text::lemma_split_on_prefix(space + z, ',', space + w);
    text::lemma_split_on_absent(space + w, ',');
    let pieces = seq![x] + (seq![space + y] + (seq![space + z] + seq![space + w]));
    assert(text::split_on(inner, ',') == pieces);
    text::lemma_trimmed_fixpoint(x);
    assert(pieces.len() == 4);
    assert(pieces[0] == x && pieces[1] == space + y && pieces[2] == space + z && pieces[3] == space
        + w);
    assert(color_fields(inner) =~= seq![x, y, z, w]);
}

/// White space around a colour does not matter, and blank text is none.
pub proof fn law_space_around_a_color_does_not_matter(
    input: &str,
    trimmed: &str,
    first: Result<ColorReading, String>,
    second: Result<ColorReading, String>,
)
    requires
        trimmed@ == text::trimmed(input@),
        call_ensures(parse_color, (input,), first),
        call_ensures(parse_color, (trimmed,), second),
    ensures
        first is Ok <==> second is Ok,
        first is Ok ==> first->Ok_0@ == second->Ok_0@,
        trimmed@.len() == 0 ==> first is Err,
{
    text::lemma_trimmed_ends(input@);
    text::lemma_trimmed_fixpoint(trimmed@);
}

/// A fraction that was read completes the colour with its byte, and keeps the other
/// channels. Any other reading of it is an error that quotes it.
pub proof fn law_finished_color_keeps_its_channels(
    pending: PendingColor,
    input: &str,
    alpha: AlphaReading,
    res: Result<Color, String>,
)
    requires
        call_ensures(PendingColor::finish, (&pending, input, alpha), res),
    ensures
        res is Ok <==> alpha is Byte,
        res matches Ok(color) ==> color.r == pending.r && color.g == pending.g && color.b
            == pending.b && alpha == AlphaReading::Byte(color.a),
        alpha is NotANumber ==> (res matches Err(m) && m@ == "invalid color "@ + text::debug_quoted(
            input@,
        ) + ": "@ + ("alpha "@ + text::debug_quoted(pending.alpha@) + " is not a number"@)),
        alpha is OutOfRange ==> (res matches Err(m) && m@ == "invalid color "@ + text::debug_quoted(
            input@,
        ) + ": "@ + ("float alpha "@ + text::debug_quoted(pending.alpha@)
            + " must be in 0.0..=1.0"@)),
{
}

/// A colour has the channels that it is made of; without an alpha it is opaque.
pub proof fn law_colors_keep_their_channels(r: u8, g: u8, b: u8, a: u8, color: Color, opaque: Color)
    requires
        call_ensures(Color::new, (r, g, b, a), color),
        call_ensures(Color::rgb, (r, g, b), opaque),
    ensures
        color.r == r && color.g == g && color.b == b && color.a == a,
        opaque.r == r && opaque.g == g && opaque.b == b && opaque.a == 255,
{
}

/// Whatever is read behind `#` is made of hexadecimal digits and plus signs, so one other
/// character makes the whole no colour.
pub proof fn law_other_characters_are_no_hex_color(
    input: &str,
    digits: Seq<char>,
    i: int,
    res: Result<ColorReading, String>,
)
    requires
        call_ensures(parse_color, (input,), res),
        text::trimmed(input@) == seq!['#'] + digits,
        0 <= i < digits.len(),
        hex_place(digits[i]) == 16 && digits[i] != '+',
    ensures
        res is Err,
{
    assert(text::trimmed(input@).drop_first() =~= digits);
    lemma_channels_are_hex(digits, 0, i);
}

proof fn lemma_channels_are_hex(s: Seq<char>, channel: int, i: int)
    requires
        0 <= i < s.len(),
        hex_place(s[i]) == 16 && s[i] != '+',
    ensures
        hex_channels(s, channel) is Err,
    decreases s.len(),
{
    if let Some(n) = first_pair(s) {
        let field = s.take(n);
        if i < n {
            if numeral::unsigned_value(field, 16) is Some {
                assert(numeral::digit_value(s[i], 16) is None);
                if field[0] == '+' {
                    let rest = field.drop_first();
                    assert(i > 0);
                    assert(rest[i - 1] == s[i]);
                    assert(numeral::digit_value(rest[i - 1], 16) is Some);
                } else {
                    assert(field[i] == s[i]);
                    assert(numeral::digit_value(field[i], 16) is Some);
                }
            }
        } else {
            assert(s.skip(n)[i - n] == s[i]);
            lemma_channels_are_hex(s.skip(n), channel + 1, i - n);
        }
    }
}

/// The numbers in `rgb(r, g, b)` and `rgba(r, g, b, a)` are bytes: whatever is greater is
/// refused, and the message quotes the input and names the first channel that is too great.
pub proof fn law_channels_are_bytes(
    r: nat,
    g: nat,
    b: nat,
    a: nat,
    opaque: &str,
    with_alpha: &str,
    first: Result<ColorReading, String>,
    second: Result<ColorReading, String>,
)
    requires
        opaque@ == "rgb("@ + numeral::decimal(r) + ", "@ + numeral::decimal(g) + ", "@
            + numeral::decimal(b) + ")"@,
        with_alpha@ == "rgba("@ + numeral::decimal(r) + ", "@ + numeral::decimal(g) + ", "@
            + numeral::decimal(b) + ", "@ + numeral::decimal(a) + ")"@,
        call_ensures(parse_color, (opaque,), first),
        call_ensures(parse_color, (with_alpha,), second),
    ensures
        first is Ok <==> r <= 255 && g <= 255 && b <= 255,
        second is Ok <==> r <= 255 && g <= 255 && b <= 255 && a <= 255,
        first is Err ==> first->Err_0@ == "invalid color "@ + text::debug_quoted(opaque@) + ": "@
            + if r > 255 {
            "red"@ + " channel "@ + text::debug_quoted(numeral::decimal(r))
        } else if g > 255 {
            "green"@ + " channel "@ + text::debug_quoted(numeral::decimal(g))
        } else {
            "blue"@ + " channel "@ + text::debug_quoted(numeral::decimal(b))
        } + " must be 0..=255"@,
        second is Err && r <= 255 && g <= 255 && b <= 255 ==> second->Err_0@ == "invalid color "@
            + text::debug_quoted(with_alpha@) + ": "@ + ("alpha"@ + " channel "@
            + text::debug_quoted(numeral::decimal(a)) + " must be 0..=255"@),
{
    lemma_rgb_numbers(r, g, b);
    lemma_rgba_numbers(r, g, b, a);
}

/// What is wrong with the first of three channels that is no byte.
spec fn first_great(r: nat, g: nat, b: nat) -> Seq<char> {
    if r > 255 {
        not_a_byte("red"@, numeral::decimal(r))
    } else if g > 255 {
        not_a_byte("green"@, numeral::decimal(g))
    } else {
        not_a_byte("blue"@, numeral::decimal(b))
    }
}

#[verifier::spinoff_prover]
proof fn lemma_rgb_numbers(r: nat, g: nat, b: nat)
    ensures
        ({
            let s = "rgb("@ + numeral::decimal(r) + ", "@ + numeral::decimal(g) + ", "@
                + numeral::decimal(b) + ")"@;
            &&& reading_of(text::trimmed(s)) is Ok <==> r <= 255 && g <= 255 && b <= 255
            &&& reading_of(text::trimmed(s)) is Err ==> reading_of(text::trimmed(s))->Err_0
                == first_great(r, g, b)
        }),
{
    let (x, y, z) = (numeral::decimal(r), numeral::decimal(g), numeral::decimal(b));
    lemma_number_field(r);
    lemma_number_field(g);
    lemma_number_field(b);
    let inner = x + ", "@ + y + ", "@ + z;
    let s = "rgb("@ + x + ", "@ + y + ", "@ + z + ")"@;
    assert(s =~= "rgb("@ + inner + ")"@);
    lemma_rgb_enclosed(inner);
    lemma_three_fields(x, y, z);
    lemma_first_great(seq![x, y, z], r, g, b);
}

#[verifier::spinoff_prover]
proof fn lemma_rgba_numbers(r: nat, g: nat, b: nat, a: nat)
    ensures
        ({
            let s = "rgba("@ + numeral::decimal(r) + ", "@ + numeral::decimal(g) + ", "@
                + numeral::decimal(b) + ", "@ + numeral::decimal(a) + ")"@;
            &&& reading_of(text::trimmed(s)) is Ok <==> r <= 255 && g <= 255 && b <= 255 && a
                <= 255
            &&& r <= 255 && g <= 255 && b <= 255 && a > 255 ==> reading_of(text::trimmed(s))
                == Err::<ColorReadingView, _>(not_a_byte("alpha"@, numeral::decimal(a)))
        }),
{
    let (x, y, z) = (numeral::decimal(r), numeral::decimal(g), numeral::decimal(b));
    let w = numeral::decimal(a);
    lemma_number_field(r);
    lemma_number_field(g);
    lemma_number_field(b);
    lemma_number_field(a);
    lemma_rgba_form(x, y, z, w);
    lemma_first_great(seq![x, y, z, w], r, g, b);
}

proof fn lemma_first_great(fields: Seq<Seq<char>>, r: nat, g: nat, b: nat)
    requires
        fields.len() >= 3,
        fields[0] == numeral::decimal(r),
        fields[1] == numeral::decimal(g),
        fields[2] == numeral::decimal(b),
    ensures
        rgb_bytes(fields) is Ok <==> r <= 255 && g <= 255 && b <= 255,
        rgb_bytes(fields) is Err ==> rgb_bytes(fields)->Err_0 == first_great(r, g, b),
{
    lemma_number_field(r);
    lemma_number_field(g);
    lemma_number_field(b);
}

proof fn lemma_number_field(n: nat)
    ensures
        ({
            let d = numeral::decimal(n);
            &&& plain_field(d)
            &&& !d.contains('.')
            &&& numeral::bounded_value(d, 10, 255) == if n <= 255 {
                Some(n)
            } else {
                None
            }
        }),
{
    let d = numeral::decimal(n);
    numeral::lemma_decimal_value(n);
    numeral::lemma_decimal_reads_back(n);
    assert forall|i: int| 0 <= i < d.len() implies '0' <= #[trigger] d[i] <= '9' by {
        assert(numeral::digit_value(d[i], 10) is Some);
    }
    assert(d.last() == d[d.len() - 1]);
}

/// `rgb(..)` holds two commas and `rgba(..)` three; with any other number of fields the text
/// is no colour.
pub proof fn law_number_of_channels(
    inner: Seq<char>,
    opaque: &str,
    with_alpha: &str,
    first: Result<ColorReading, String>,
    second: Result<ColorReading, String>,
)
    requires
        opaque@ == "rgb("@ + inner + ")"@,
        with_alpha@ == "rgba("@ + inner + ")"@,
        call_ensures(parse_color, (opaque,), first),
        call_ensures(parse_color, (with_alpha,), second),
    ensures
        first is Ok ==> text::split_on(inner, ',').len() == 3,
        second is Ok ==> text::split_on(inner, ',').len() == 4,
        first is Err || second is Err,
        text::split_on(inner, ',').len() != 3 ==> (first matches Err(m) && m@ == "invalid color "@
            + text::debug_quoted(opaque@) + ": "@ + "`rgb(...)` requires exactly three channels"@),
        text::split_on(inner, ',').len() != 4 ==> (second matches Err(m) && m@ == "invalid color "@
            + text::debug_quoted(with_alpha@) + ": "@
            + "`rgba(...)` requires exactly four channels"@),
{
    lemma_rgb_enclosed(inner);
    lemma_rgba_enclosed(inner);
}

/// Only text in one of the three forms is a colour, and the message of an error quotes what
/// was given.
pub proof fn law_other_forms_are_no_color(input: &str, res: Result<ColorReading, String>)
    requires
        call_ensures(parse_color, (input,), res),
    ensures
        res is Ok ==> {
            let s = text::trimmed(input@);
            ||| s.len() > 0 && s[0] == '#'
            ||| text::begins(s, "rgb("@) && s.last() == ')'
            ||| text::begins(s, "rgba("@) && s.last() == ')'
        },
        res matches Err(m) ==> exists|detail: Seq<char>|
            m@ == #[trigger] ("invalid color "@ + text::debug_quoted(input@) + ": "@ + detail),
{
    if res is Err {
        let detail = reading_of(text::trimmed(input@))->Err_0;
        assert(res->Err_0@ == "invalid color "@ + text::debug_quoted(input@) + ": "@ + detail);
    }
}

} // verus!
