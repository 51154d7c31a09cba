//! What holds of reading and writing key bindings.

use vstd::prelude::*;

use crate::keybinding::{
    self, Key, KeyBinding, KeyBindingParseError, KeyBindingParseErrorView, ModifierFlag, Modifiers,
};
use crate::numeral;
use crate::text;

verus! {

/// The bindings that the parser can produce: a character key is neither white
/// space, nor the separator, nor an ASCII capital.
pub open spec fn producible(binding: KeyBinding) -> bool {
    match binding.key {
        Key::Char(c) => !text::is_space(c) && c != '+' && !('A' <= c <= 'Z'),
        _ => true,
    }
}

/// Every binding that the parser produces is read back from its canonical form.
pub proof fn law_parse_display_round_trip(input: Seq<char>, binding: KeyBinding)
    requires
        keybinding::binding_from(input) == Ok::<_, KeyBindingParseErrorView>(binding),
    ensures
        keybinding::binding_from(binding.canonical()) == Ok::<_, KeyBindingParseErrorView>(
            binding,
        ),
{
    lemma_parsed_is_producible(input, binding);
    law_canonical_reads_back(binding);
}

/// The canonical form of a producible binding reads back as that binding.
pub proof fn law_canonical_reads_back(binding: KeyBinding)
    requires
        producible(binding),
    ensures
        keybinding::binding_from(binding.canonical()) == Ok::<_, KeyBindingParseErrorView>(
            binding,
        ),
{
    let s = binding.canonical();
    let token = binding.key.token();
    let tokens = keybinding::binding_tokens(s);
    lemma_canonical_tokens(binding);
    lemma_key_token(binding.key);
    lemma_modifier_list(binding.modifiers, s);
    assert(tokens.drop_last() =~= modifier_list(binding.modifiers));
    assert(tokens.last() == token);
    assert forall|i: int| 0 <= i < tokens.len() implies (#[trigger] tokens[i]).len() > 0 by {
        lemma_modifier_names();
    }
}

/// Parsing does not look at ASCII case: two inputs that differ only in it give
/// the same binding, or both give none.
pub proof fn law_parse_ignores_case(a: Seq<char>, b: Seq<char>)
    requires
        text::lowered(a) == text::lowered(b),
    ensures
        keybinding::binding_from(a) is Ok <==> keybinding::binding_from(b) is Ok,
        keybinding::binding_from(a) is Ok ==> keybinding::binding_from(a)->Ok_0
            == keybinding::binding_from(b)->Ok_0,
{
    lemma_lowered_binding(a);
    lemma_lowered_binding(b);
}

/// The pieces of `s` between `+` signs, each without the white space around it.
pub open spec fn written_tokens(s: Seq<char>) -> Seq<Seq<char>> {
    text::split_on(s, '+').map_values(|piece: Seq<char>| text::trimmed(piece))
}

/// The modifiers that tokens name, whatever their case and whichever name they
/// use.
pub open spec fn modifiers_named(tokens: Seq<Seq<char>>) -> Seq<Option<ModifierFlag>> {
    tokens.map_values(|token: Seq<char>| keybinding::modifier_named(text::lowered(token)))
}

/// Parsing looks at the key's token without its case, and at which modifiers are
/// named how often. So white space around tokens, ASCII case, the order of the
/// modifiers and the choice among a modifier's names do not matter: two inputs
/// that differ only in these give the same binding, or both give none.
pub proof fn law_parse_looks_at_meaning(a: Seq<char>, b: Seq<char>)
    requires
        text::lowered(written_tokens(a).last()) == text::lowered(written_tokens(b).last()),
        modifiers_named(written_tokens(a).drop_last()).to_multiset() == modifiers_named(
            written_tokens(b).drop_last(),
        ).to_multiset(),
    ensures
        keybinding::binding_from(a) is Ok <==> keybinding::binding_from(b) is Ok,
        keybinding::binding_from(a) is Ok ==> keybinding::binding_from(a)->Ok_0
            == keybinding::binding_from(b)->Ok_0,
{
    lemma_binding_meaning(a);
    lemma_binding_meaning(b);
    let m = modifiers_named(written_tokens(a).drop_last()).to_multiset();
    if keybinding::binding_from(a) is Ok && keybinding::binding_from(b) is Ok {
        let x = (keybinding::binding_from(a)->Ok_0).modifiers;
        let y = (keybinding::binding_from(b)->Ok_0).modifiers;
        assert(ModifierFlag::Ctrl.among(x) == (m.count(Some(ModifierFlag::Ctrl)) > 0));
        assert(ModifierFlag::Shift.among(x) == (m.count(Some(ModifierFlag::Shift)) > 0));
        assert(ModifierFlag::Alt.among(x) == (m.count(Some(ModifierFlag::Alt)) > 0));
        assert(ModifierFlag::Cmd.among(x) == (m.count(Some(ModifierFlag::Cmd)) > 0));
        assert(ModifierFlag::Ctrl.among(y) == (m.count(Some(ModifierFlag::Ctrl)) > 0));
        assert(ModifierFlag::Shift.among(y) == (m.count(Some(ModifierFlag::Shift)) > 0));
        assert(ModifierFlag::Alt.among(y) == (m.count(Some(ModifierFlag::Alt)) > 0));
        assert(ModifierFlag::Cmd.among(y) == (m.count(Some(ModifierFlag::Cmd)) > 0));
        assert(x == y);
    }
}

/// White space around tokens does not matter.
pub proof fn law_parse_ignores_space(a: Seq<char>, b: Seq<char>)
    requires
        written_tokens(a) == written_tokens(b),
    ensures
        keybinding::binding_from(a) is Ok <==> keybinding::binding_from(b) is Ok,
        keybinding::binding_from(a) is Ok ==> keybinding::binding_from(a)->Ok_0
            == keybinding::binding_from(b)->Ok_0,
{
    law_parse_looks_at_meaning(a, b);
}

/// The order of the modifiers does not matter.
pub proof fn law_parse_ignores_modifier_order(a: Seq<char>, b: Seq<char>)
    requires
        written_tokens(a).last() == written_tokens(b).last(),
        written_tokens(a).drop_last().to_multiset() == written_tokens(b).drop_last().to_multiset(),
    ensures
        keybinding::binding_from(a) is Ok <==> keybinding::binding_from(b) is Ok,
        keybinding::binding_from(a) is Ok ==> keybinding::binding_from(a)->Ok_0
            == keybinding::binding_from(b)->Ok_0,
{
    lemma_meanings_of_permutation(
        written_tokens(a).drop_last(),
        written_tokens(b).drop_last(),
    );
    law_parse_looks_at_meaning(a, b);
}

/// Which of its names a modifier is written with does not matter. The names of
/// one modifier are `ctrl` and `control`; `alt` and `option`; `cmd`, `meta` and
/// `super`.
pub proof fn law_parse_ignores_aliases(a: Seq<char>, b: Seq<char>)
    requires
        written_tokens(a).last() == written_tokens(b).last(),
        modifiers_named(written_tokens(a).drop_last()) == modifiers_named(
            written_tokens(b).drop_last(),
        ),
    ensures
        keybinding::modifier_named("control"@) == keybinding::modifier_named("ctrl"@),
        keybinding::modifier_named("option"@) == keybinding::modifier_named("alt"@),
        keybinding::modifier_named("meta"@) == keybinding::modifier_named("cmd"@),
        keybinding::modifier_named("super"@) == keybinding::modifier_named("cmd"@),
        keybinding::binding_from(a) is Ok <==> keybinding::binding_from(b) is Ok,
        keybinding::binding_from(a) is Ok ==> keybinding::binding_from(a)->Ok_0
            == keybinding::binding_from(b)->Ok_0,
{
    lemma_reveal_modifiers();
    law_parse_looks_at_meaning(a, b);
}

/// The canonical token of every key that is no character stands for that key.
pub proof fn law_key_token_reads_back(key: Key)
    requires
        !(key is Char),
    ensures
        keybinding::key_for(key.token()) == Some(key),
{
    lemma_key_token(key);
}

/// `f` and a number name a key exactly where the number is 1 to 24; it is then
/// the function key of that number. `f` alone is the character.
#[verifier::rlimit(30)]
pub proof fn law_function_keys(n: nat)
    ensures
        keybinding::key_for(seq!['f'] + numeral::decimal(n)) is Some <==> 1 <= n <= 24,
        1 <= n <= 24 ==> (keybinding::key_for(
            seq!['f'] + numeral::decimal(n),
        )->0).function_number() == Some(n),
        keybinding::key_for(seq!['f']) == Some(Key::Char('f')),
{
    let token = seq!['f'] + numeral::decimal(n);
    numeral::lemma_decimal_reads_back(n);
    numeral::lemma_decimal_value(n);
    assert(token.drop_first() =~= numeral::decimal(n));
    lemma_reveal_names();
    assert(keybinding::named_key(token) is None) by {
        assert(token[0] == 'f');
    }
    lemma_char_token('f');
    assert(Key::Char('f').token() =~= seq!['f']);
}

// ---------------------------------------------------------------------------
// Calls
// ---------------------------------------------------------------------------

/// A named key has its own name and a few short ones, and every name stands for one key:
/// the names of two words may have an underscore between them, and arrows go by their
/// direction alone.
#[verifier::rlimit(60)]
pub proof fn law_names_of_keys(token: &str, res: Option<Key>)
    requires
        call_ensures(keybinding::parse_key, (token,), res),
    ensures
        res == Some(Key::Escape) <==> token@ == "escape"@ || token@ == "esc"@,
        res == Some(Key::Tab) <==> token@ == "tab"@,
        res == Some(Key::Enter) <==> token@ == "enter"@ || token@ == "return"@,
        res == Some(Key::Backspace) <==> token@ == "backspace"@,
        res == Some(Key::Delete) <==> token@ == "delete"@ || token@ == "del"@,
        res == Some(Key::Home) <==> token@ == "home"@,
        res == Some(Key::End) <==> token@ == "end"@,
        res == Some(Key::PageUp) <==> token@ == "pageup"@ || token@ == "page_up"@ || token@ == "pgup"@,
        res == Some(Key::PageDown) <==> token@ == "pagedown"@ || token@ == "page_down"@ || token@ == "pgdn"@,
        res == Some(Key::ArrowUp) <==> token@ == "arrowup"@ || token@ == "arrow_up"@ || token@ == "up"@,
        res == Some(Key::ArrowDown) <==> token@ == "arrowdown"@ || token@ == "arrow_down"@ || token@ == "down"@,
        res == Some(Key::ArrowLeft) <==> token@ == "arrowleft"@ || token@ == "arrow_left"@ || token@ == "left"@,
        res == Some(Key::ArrowRight) <==> token@ == "arrowright"@ || token@ == "arrow_right"@ || token@ == "right"@,
        res == Some(Key::Space) <==> token@ == "space"@,
{
    lemma_reveal_names();
    if keybinding::named_key(token@) is Some {
        assert(token@[0] != 'f');
    }
}

/// The key that a name stands for is written by the name of its variant, and a function key
/// by `f` and its number.
pub proof fn law_key_and_token_agree(token: &str, key: Key, written: String, back: Option<Key>)
    requires
        call_ensures(Key::canonical_token, (key,), written),
        token@ == written@,
        call_ensures(keybinding::parse_key, (token,), back),
        !(key is Char),
    ensures
        back == Some(key),
{
    law_key_token_reads_back(key);
}

proof fn lemma_f_number(token: Seq<char>, n: nat)
    requires
        1 <= n <= 24,
        token.len() == if n < 10 {
            2int
        } else {
            3int
        },
        token[0] == 'f',
        n < 10 ==> token[1] as int == '0' as int + n,
        n >= 10 ==> token[1] as int == '0' as int + n / 10,
        n >= 10 ==> token[2] as int == '0' as int + n % 10,
    ensures
        keybinding::key_for(token) == keybinding::function_key_numbered(n),
        keybinding::function_key_numbered(n) is Some,
{
    let digits = token.drop_first();
    reveal_with_fuel(numeral::decimal, 3);
    assert(digits =~= numeral::decimal(n));
    numeral::lemma_decimal_reads_back(n);
}

/// `f1` to `f24` stand for the function keys of those numbers.
#[verifier::rlimit(60)]
pub proof fn law_names_of_function_keys(token: &str, res: Option<Key>)
    requires
        call_ensures(keybinding::parse_key, (token,), res),
    ensures
        token@ == "f1"@ ==> res == Some(Key::F1),
        token@ == "f2"@ ==> res == Some(Key::F2),
        token@ == "f3"@ ==> res == Some(Key::F3),
        token@ == "f4"@ ==> res == Some(Key::F4),
        token@ == "f5"@ ==> res == Some(Key::F5),
        token@ == "f6"@ ==> res == Some(Key::F6),
        token@ == "f7"@ ==> res == Some(Key::F7),
        token@ == "f8"@ ==> res == Some(Key::F8),
        token@ == "f9"@ ==> res == Some(Key::F9),
        token@ == "f10"@ ==> res == Some(Key::F10),
        token@ == "f11"@ ==> res == Some(Key::F11),
        token@ == "f12"@ ==> res == Some(Key::F12),
        token@ == "f13"@ ==> res == Some(Key::F13),
        token@ == "f14"@ ==> res == Some(Key::F14),
        token@ == "f15"@ ==> res == Some(Key::F15),
        token@ == "f16"@ ==> res == Some(Key::F16),
        token@ == "f17"@ ==> res == Some(Key::F17),
        token@ == "f18"@ ==> res == Some(Key::F18),
        token@ == "f19"@ ==> res == Some(Key::F19),
        token@ == "f20"@ ==> res == Some(Key::F20),
        token@ == "f21"@ ==> res == Some(Key::F21),
        token@ == "f22"@ ==> res == Some(Key::F22),
        token@ == "f23"@ ==> res == Some(Key::F23),
        token@ == "f24"@ ==> res == Some(Key::F24),
{
    reveal_strlit("f1");
    reveal_strlit("f2");
    reveal_strlit("f3");
    reveal_strlit("f4");
    reveal_strlit("f5");
    reveal_strlit("f6");
    reveal_strlit("f7");
    reveal_strlit("f8");
    reveal_strlit("f9");
    reveal_strlit("f10");
    reveal_strlit("f11");
    reveal_strlit("f12");
    reveal_strlit("f13");
    reveal_strlit("f14");
    reveal_strlit("f15");
    reveal_strlit("f16");
    reveal_strlit("f17");
    reveal_strlit("f18");
    reveal_strlit("f19");
    reveal_strlit("f20");
    reveal_strlit("f21");
    reveal_strlit("f22");
    reveal_strlit("f23");
    reveal_strlit("f24");
    if token@ == "f1"@ {
        lemma_f_number(token@, 1);
    }
    if token@ == "f2"@ {
        lemma_f_number(token@, 2);
    }
    if token@ == "f3"@ {
        lemma_f_number(token@, 3);
    }
    if token@ == "f4"@ {
        lemma_f_number(token@, 4);
    }
    if token@ == "f5"@ {
        lemma_f_number(token@, 5);
    }
    if token@ == "f6"@ {
        lemma_f_number(token@, 6);
    }
    if token@ == "f7"@ {
        lemma_f_number(token@, 7);
    }
    if token@ == "f8"@ {
        lemma_f_number(token@, 8);
    }
    if token@ == "f9"@ {
        lemma_f_number(token@, 9);
    }
    if token@ == "f10"@ {
        lemma_f_number(token@, 10);
    }
    if token@ == "f11"@ {
        lemma_f_number(token@, 11);
    }
    if token@ == "f12"@ {
        lemma_f_number(token@, 12);
    }
    if token@ == "f13"@ {
        lemma_f_number(token@, 13);
    }
    if token@ == "f14"@ {
        lemma_f_number(token@, 14);
    }
    if token@ == "f15"@ {
        lemma_f_number(token@, 15);
    }
    if token@ == "f16"@ {
        lemma_f_number(token@, 16);
    }
    if token@ == "f17"@ {
        lemma_f_number(token@, 17);
    }
    if token@ == "f18"@ {
        lemma_f_number(token@, 18);
    }
    if token@ == "f19"@ {
        lemma_f_number(token@, 19);
    }
    if token@ == "f20"@ {
        lemma_f_number(token@, 20);
    }
    if token@ == "f21"@ {
        lemma_f_number(token@, 21);
    }
    if token@ == "f22"@ {
        lemma_f_number(token@, 22);
    }
    if token@ == "f23"@ {
        lemma_f_number(token@, 23);
    }
    if token@ == "f24"@ {
        lemma_f_number(token@, 24);
    }
}

/// Any other single character stands for itself, and is written in lower case.
pub proof fn law_character_keys(
    token: &str,
    c: char,
    res: Option<Key>,
    key: Key,
    written: String,
)
    requires
        call_ensures(keybinding::parse_key, (token,), res),
        call_ensures(Key::canonical_token, (key,), written),
        key == Key::Char(c),
    ensures
        token@ == seq![c] ==> res == Some(Key::Char(c)),
        res matches Some(Key::Char(d)) ==> token@ == seq![d],
        written@.len() == 1,
        'A' <= c <= 'Z' ==> written@[0] as int - 'a' as int == c as int - 'A' as int,
        !('A' <= c <= 'Z') ==> written@[0] == c,
{
    lemma_table_lengths();
    if token@ == seq![c] {
        assert(token@.drop_first() =~= Seq::<char>::empty());
    }
    if let Some(Key::Char(d)) = res {
        assert(token@ =~= seq![d]);
    }
}

/// Whether one of the tokens before the last is written, in any case, as `a`, `b` or `c`.
pub open spec fn is_among(
    tokens: Seq<Seq<char>>,
    a: Seq<char>,
    b: Seq<char>,
    c: Seq<char>,
) -> bool {
    exists|i: int|
        0 <= i < tokens.len() - 1 && {
            let token = text::lowered(#[trigger] tokens[i]);
            token == a || token == b || token == c
        }
}

proof fn lemma_flag_is_named(s: Seq<char>, flag: ModifierFlag, a: Seq<char>, b: Seq<char>, c: Seq<char>)
    requires
        keybinding::binding_from(s) is Ok,
        forall|t: Seq<char>| #[trigger]
            keybinding::modifier_named(t) == Some(flag) <==> t == a || t == b || t == c,
    ensures
        flag.among((keybinding::binding_from(s)->Ok_0).modifiers) <==> is_among(
            written_tokens(s),
            a,
            b,
            c,
        ),
{
    broadcast use vstd::seq_lib::group_to_multiset_ensures;

    lemma_binding_meaning(s);
    let tokens = written_tokens(s);
    let named = modifiers_named(tokens.drop_last());
    let m = named.to_multiset();
    assert(flag.among((keybinding::binding_from(s)->Ok_0).modifiers) <==> m.count(Some(flag)) > 0);
    assert(m.count(Some(flag)) > 0 <==> named.contains(Some(flag)));
    if named.contains(Some(flag)) {
        let i = choose|i: int| 0 <= i < named.len() && named[i] == Some(flag);
        assert(tokens.drop_last()[i] == tokens[i]);
        assert(keybinding::modifier_named(text::lowered(tokens[i])) == Some(flag));
    }
    if is_among(tokens, a, b, c) {
        let i = choose|i: int|
            0 <= i < tokens.len() - 1 && {
                let token = text::lowered(#[trigger] tokens[i]);
                token == a || token == b || token == c
            };
        assert(keybinding::modifier_named(text::lowered(tokens[i])) == Some(flag));
        assert(named[i] == Some(flag));
    }
}

/// A binding that is read has exactly the modifiers that are named before its key: `ctrl`
/// or `control`, `shift`, `alt` or `option`, and `cmd`, `meta` or `super`. Its key is the
/// one that the last token stands for.
pub proof fn law_parse_sets_what_is_named(
    input: &str,
    binding: KeyBinding,
    key_token: &str,
    key: Option<Key>,
)
    requires
        call_ensures(KeyBinding::parse, (input,), Ok(binding)),
        key_token@ == text::lowered(written_tokens(input@).last()),
        call_ensures(keybinding::parse_key, (key_token,), key),
    ensures
        binding.modifiers.ctrl <==> is_among(written_tokens(input@), "ctrl"@, "control"@, "ctrl"@),
        binding.modifiers.shift <==> is_among(written_tokens(input@), "shift"@, "shift"@, "shift"@),
        binding.modifiers.alt <==> is_among(written_tokens(input@), "alt"@, "option"@, "alt"@),
        binding.modifiers.cmd <==> is_among(written_tokens(input@), "cmd"@, "meta"@, "super"@),
        key == Some(binding.key),
{
    let s = input@;
    lemma_reveal_modifiers();
    lemma_flag_is_named(s, ModifierFlag::Ctrl, "ctrl"@, "control"@, "ctrl"@);
    lemma_flag_is_named(s, ModifierFlag::Shift, "shift"@, "shift"@, "shift"@);
    lemma_flag_is_named(s, ModifierFlag::Alt, "alt"@, "option"@, "alt"@);
    lemma_flag_is_named(s, ModifierFlag::Cmd, "cmd"@, "meta"@, "super"@);
    lemma_binding_meaning(s);
    let m = binding.modifiers;
    assert(ModifierFlag::Ctrl.among(m) == m.ctrl && ModifierFlag::Shift.among(m) == m.shift);
    assert(ModifierFlag::Alt.among(m) == m.alt && ModifierFlag::Cmd.among(m) == m.cmd);
}

/// What is wrong with an input is reported: nothing at all where it is blank, an empty token
/// where one is, a missing key where the last token names a modifier, an unknown key where
/// the last token stands for none. The report repeats the input.
pub proof fn law_parse_reports_what_is_wrong(
    input: &str,
    res: Result<KeyBinding, KeyBindingParseError>,
)
    requires
        call_ensures(KeyBinding::parse, (input,), res),
    ensures
        res matches Err(e) ==> {
            let tokens = keybinding::binding_tokens(input@);
            &&& e is Empty <==> text::trimmed(input@).len() == 0
            &&& e is EmptyToken <==> text::trimmed(input@).len() > 0 && tokens.contains(
                Seq::<char>::empty(),
            )
            &&& match e {
                KeyBindingParseError::Empty => true,
                KeyBindingParseError::EmptyToken { input: i } => i@ == input@,
                KeyBindingParseError::UnknownModifier { input: i, token } => i@ == input@
                    && tokens.drop_last().contains(token@),
                KeyBindingParseError::DuplicateModifier { input: i, modifier } => i@ == input@
                    && (modifier@ == "ctrl"@ || modifier@ == "shift"@ || modifier@ == "alt"@
                    || modifier@ == "cmd"@),
                KeyBindingParseError::UnknownKey { input: i, token } => i@ == input@ && token@
                    == tokens.last(),
                KeyBindingParseError::MissingKey { input: i } => i@ == input@,
            }
        },
        text::trimmed(input@).len() == 0 ==> res is Err,
        keybinding::binding_tokens(input@).contains(Seq::<char>::empty()) ==> res is Err,
{
    let tokens = keybinding::binding_tokens(input@);
    if tokens.contains(Seq::<char>::empty()) {
        let i = choose|i: int| 0 <= i < tokens.len() && tokens[i] == Seq::<char>::empty();
        assert(tokens[i].len() == 0);
    }
    if exists|i: int| 0 <= i < tokens.len() && (#[trigger] tokens[i]).len() == 0 {
        let i = choose|i: int| 0 <= i < tokens.len() && (#[trigger] tokens[i]).len() == 0;
        assert(tokens[i] =~= Seq::<char>::empty());
    }
    lemma_modifier_error(tokens.drop_last(), input@);
}

proof fn lemma_modifier_error(tokens: Seq<Seq<char>>, input: Seq<char>)
    ensures
        match keybinding::modifiers_from(tokens, input) {
            Ok(_) => true,
            Err(KeyBindingParseErrorView::UnknownModifier { input: i, token }) => i == input
                && tokens.contains(token),
            Err(KeyBindingParseErrorView::DuplicateModifier { input: i, modifier }) => i == input
                && (modifier == "ctrl"@ || modifier == "shift"@ || modifier == "alt"@ || modifier
                == "cmd"@),
            Err(_) => false,
        },
    decreases tokens.len(),
{
    if tokens.len() > 0 {
        let before = tokens.drop_last();
        lemma_modifier_error(before, input);
        assert(tokens.contains(tokens.last()));
        assert forall|t: Seq<char>| before.contains(t) implies tokens.contains(t) by {
            let i = choose|i: int| 0 <= i < before.len() && before[i] == t;
            assert(tokens[i] == t);
        }
    }
}

/// A key alone is written as its token. Each modifier comes before what is written without
/// it, in the order `ctrl`, `shift`, `alt`, `cmd`.
pub proof fn law_modifiers_are_written_in_order(
    binding: KeyBinding,
    written: String,
    without: KeyBinding,
    shorter: String,
    token: String,
)
    requires
        call_ensures(KeyBinding::to_string, (&binding,), written),
        call_ensures(KeyBinding::to_string, (&without,), shorter),
        call_ensures(Key::canonical_token, (binding.key,), token),
        without.key == binding.key,
    ensures
        ({
            let m = binding.modifiers;
            let n = without.modifiers;
            &&& !m.ctrl && !m.shift && !m.alt && !m.cmd ==> written@ == token@
            &&& m.ctrl && n == (Modifiers { ctrl: false, ..m }) ==> written@ == "ctrl+"@ + shorter@
            &&& !m.ctrl && m.shift && n == (Modifiers { shift: false, ..m }) ==> written@
                == "shift+"@ + shorter@
            &&& !m.ctrl && !m.shift && m.alt && n == (Modifiers { alt: false, ..m }) ==> written@
                == "alt+"@ + shorter@
            &&& !m.ctrl && !m.shift && !m.alt && m.cmd && n == (Modifiers { cmd: false, ..m })
                ==> written@ == "cmd+"@ + shorter@
        }),
{
    let m = binding.modifiers;
    let e = Seq::<char>::empty();
    let t = token@;
    assert(e + e + e + e + t =~= t);
    let a = if m.alt { "alt+"@ } else { e };
    let c = if m.cmd { "cmd+"@ } else { e };
    let h = if m.shift { "shift+"@ } else { e };
    assert("ctrl+"@ + h + a + c + t =~= "ctrl+"@ + (e + h + a + c + t));
    assert(e + "shift+"@ + a + c + t =~= "shift+"@ + (e + e + a + c + t));
    assert(e + e + "alt+"@ + c + t =~= "alt+"@ + (e + e + e + c + t));
    assert(e + e + e + "cmd+"@ + t =~= "cmd+"@ + (e + e + e + e + t));
}

/// Putting modifiers together sets what either side sets. No modifier is set exactly where
/// the set is empty, and each single one is its own.
pub proof fn law_modifiers_join(
    a: Modifiers,
    b: Modifiers,
    joined: Modifiers,
    is_empty: bool,
)
    requires
        call_ensures(<Modifiers as std::ops::BitOr>::bitor, (a, b), joined),
        call_ensures(Modifiers::is_empty, (a,), is_empty),
    ensures
        joined.ctrl == (a.ctrl || b.ctrl),
        joined.shift == (a.shift || b.shift),
        joined.alt == (a.alt || b.alt),
        joined.cmd == (a.cmd || b.cmd),
        is_empty == !(a.ctrl || a.shift || a.alt || a.cmd),
{
}

/// The single modifiers set the flag that they are named after, and no other.
pub proof fn law_single_modifiers(
    ctrl: Modifiers,
    shift: Modifiers,
    alt: Modifiers,
    cmd: Modifiers,
    none: Modifiers,
)
    requires
        call_ensures(Modifiers::ctrl, (), ctrl),
        call_ensures(Modifiers::shift, (), shift),
        call_ensures(Modifiers::alt, (), alt),
        call_ensures(Modifiers::cmd, (), cmd),
        call_ensures(Modifiers::none, (), none),
    ensures
        ctrl.ctrl && !ctrl.shift && !ctrl.alt && !ctrl.cmd,
        !shift.ctrl && shift.shift && !shift.alt && !shift.cmd,
        !alt.ctrl && !alt.shift && alt.alt && !alt.cmd,
        !cmd.ctrl && !cmd.shift && !cmd.alt && cmd.cmd,
        !none.ctrl && !none.shift && !none.alt && !none.cmd,
{
}

// ---------------------------------------------------------------------------
// Meaning
// ---------------------------------------------------------------------------

/// When modifiers are read, and which are set, depends on how often each is
/// named.
proof fn lemma_modifiers_meaning(tokens: Seq<Seq<char>>, input: Seq<char>)
    ensures
        keybinding::modifiers_from(tokens, input) is Ok <==> {
            &&& modifiers_named(tokens).to_multiset().count(None) == 0
            &&& forall|flag: ModifierFlag|
                #[trigger] modifiers_named(tokens).to_multiset().count(Some(flag)) <= 1
        },
        keybinding::modifiers_from(tokens, input) is Ok ==> forall|flag: ModifierFlag|
            #[trigger] flag.among(keybinding::modifiers_from(tokens, input)->Ok_0) <==> (
            modifiers_named(tokens).to_multiset().count(Some(flag)) > 0),
    decreases tokens.len(),
{
    broadcast use vstd::seq_lib::group_to_multiset_ensures;

    let named = modifiers_named(tokens);
    if tokens.len() == 0 {
        assert(named =~= Seq::<Option<ModifierFlag>>::empty());
        assert(!named.contains(None));
        assert forall|flag: ModifierFlag| #[trigger]
            named.to_multiset().count(Some(flag)) == 0 by {
            assert(!named.contains(Some(flag)));
        }
    } else {
        let before = tokens.drop_last();
        let last = keybinding::modifier_named(text::lowered(tokens.last()));
        lemma_modifiers_meaning(before, input);
        assert(named =~= modifiers_named(before).push(last));
        let m0 = modifiers_named(before).to_multiset();
        let m1 = named.to_multiset();
        assert(m1 == m0.insert(last));
        assert forall|x: Option<ModifierFlag>| #[trigger] m1.count(x) == m0.count(x) + if x == last {
            1int
        } else {
            0
        } by {}
        if keybinding::modifiers_from(tokens, input) is Ok {
            let flag = last->0;
            assert forall|g: ModifierFlag| #[trigger] m1.count(Some(g)) <= 1 by {
                assert(m0.count(Some(g)) <= 1);
                assert(flag.among(keybinding::modifiers_from(before, input)->Ok_0) == (m0.count(
                    Some(flag),
                ) > 0));
            }
            assert forall|g: ModifierFlag| #[trigger]
                g.among(keybinding::modifiers_from(tokens, input)->Ok_0) <==> (m1.count(Some(g))
                > 0) by {
                assert(g.among(keybinding::modifiers_from(before, input)->Ok_0) == (m0.count(
                    Some(g),
                ) > 0));
            }
        } else if m1.count(None) == 0 && forall|g: ModifierFlag| #[trigger]
            m1.count(Some(g)) <= 1 {
            assert forall|g: ModifierFlag| #[trigger] m0.count(Some(g)) <= 1 by {
                assert(m1.count(Some(g)) <= 1);
            }
            assert(m0.count(None) == 0);
            let flag = last->0;
            assert(m1.count(last) >= 1);
            assert(m1.count(Some(flag)) <= 1);
            assert(flag.among(keybinding::modifiers_from(before, input)->Ok_0) == (m0.count(
                Some(flag),
            ) > 0));
            assert(false);
        }
    }
}

/// When a binding is read, and which, depends on its key's token and on the
/// modifiers that are named.
proof fn lemma_binding_meaning(s: Seq<char>)
    ensures
        ({
            let tokens = written_tokens(s);
            let key = text::lowered(tokens.last());
            let m = modifiers_named(tokens.drop_last()).to_multiset();
            &&& keybinding::binding_from(s) is Ok <==> {
                &&& keybinding::modifier_named(key) is None
                &&& keybinding::key_for(key) is Some
                &&& m.count(None) == 0
                &&& forall|flag: ModifierFlag| #[trigger] m.count(Some(flag)) <= 1
            }
            &&& keybinding::binding_from(s) is Ok ==> (keybinding::binding_from(s)->Ok_0).key
                == keybinding::key_for(key)->0
            &&& keybinding::binding_from(s) is Ok ==> forall|flag: ModifierFlag| #[trigger]
                flag.among((keybinding::binding_from(s)->Ok_0).modifiers) <==> (m.count(Some(flag))
                    > 0)
        }),
{
    broadcast use vstd::seq_lib::group_to_multiset_ensures;

    let tokens = written_tokens(s);
    let key = text::lowered(tokens.last());
    let m = modifiers_named(tokens.drop_last()).to_multiset();
    text::lemma_split_on_nonempty(s, '+');
    text::lemma_split_trimmed(s, '+');
    assert(keybinding::binding_tokens(s) == tokens);
    lemma_modifiers_meaning(tokens.drop_last(), s);
    lemma_empty_means_nothing();
    if text::trimmed(s).len() == 0 {
        assert(text::trimmed(s) =~= Seq::<char>::empty());
        assert(text::split_on(text::trimmed(s), '+') =~= seq![Seq::<char>::empty()]);
        assert(tokens =~= seq![text::trimmed(Seq::<char>::empty())]);
        assert(text::trimmed(Seq::<char>::empty()) =~= Seq::<char>::empty());
        assert(key =~= Seq::<char>::empty());
    } else if exists|i: int| 0 <= i < tokens.len() && (#[trigger] tokens[i]).len() == 0 {
        let i = choose|i: int| 0 <= i < tokens.len() && (#[trigger] tokens[i]).len() == 0;
        assert(text::lowered(tokens[i]) =~= Seq::<char>::empty());
        if i < tokens.len() - 1 {
            let named = modifiers_named(tokens.drop_last());
            assert(named[i] == None::<ModifierFlag>);
            assert(named.contains(None));
        }
    }
}

/// Empty text names neither a modifier nor a key.
proof fn lemma_empty_means_nothing()
    ensures
        keybinding::modifier_named(Seq::<char>::empty()) is None,
        keybinding::key_for(Seq::<char>::empty()) is None,
{
    lemma_reveal_names();
    lemma_reveal_modifiers();
}

/// Tokens in another order name the same modifiers as often.
proof fn lemma_meanings_of_permutation(a: Seq<Seq<char>>, b: Seq<Seq<char>>)
    requires
        a.to_multiset() == b.to_multiset(),
    ensures
        modifiers_named(a).to_multiset() == modifiers_named(b).to_multiset(),
    decreases a.len(),
{
    broadcast use vstd::seq_lib::group_to_multiset_ensures;

    assert(a.len() == a.to_multiset().len() && b.len() == b.to_multiset().len());
    if a.len() == 0 {
        assert(modifiers_named(a) =~= modifiers_named(b));
    } else {
        let x = a.last();
        assert(a.contains(x));
        assert(b.to_multiset().count(x) > 0);
        assert(b.contains(x));
        let j = choose|j: int| 0 <= j < b.len() && b[j] == x;
        assert(a.drop_last() =~= a.remove(a.len() - 1));
        lemma_meanings_of_permutation(a.drop_last(), b.remove(j));
        let na = modifiers_named(a);
        let nb = modifiers_named(b);
        assert(na.remove(a.len() - 1) =~= modifiers_named(a.drop_last()));
        assert(nb.remove(j) =~= modifiers_named(b.remove(j)));
        assert(na[a.len() - 1] == nb[j]);
        assert(na.contains(na[a.len() - 1]));
        assert(nb.contains(nb[j]));
        assert(na.to_multiset() =~= na.to_multiset().remove(nb[j]).insert(nb[j]));
        assert(nb.to_multiset() =~= nb.to_multiset().remove(nb[j]).insert(nb[j]));
    }
}

// ---------------------------------------------------------------------------
// Canonical tokens
// ---------------------------------------------------------------------------

/// The canonical names of the modifiers that are set, in canonical order.
spec fn modifier_list(m: Modifiers) -> Seq<Seq<char>> {
    let ctrl = if m.ctrl {
        seq!["ctrl"@]
    } else {
        Seq::empty()
    };
    let shift = if m.shift {
        seq!["shift"@]
    } else {
        Seq::empty()
    };
    let alt = if m.alt {
        seq!["alt"@]
    } else {
        Seq::empty()
    };
    let cmd = if m.cmd {
        seq!["cmd"@]
    } else {
        Seq::empty()
    };
    ctrl + shift + alt + cmd
}

/// A token that splitting and trimming leave alone.
spec fn plain(token: Seq<char>) -> bool {
    &&& token.len() > 0
    &&& !token.contains('+')
    &&& !text::is_space(token[0])
    &&& !text::is_space(token.last())
    &&& text::lowered(token) == token
}

proof fn lemma_modifier_names()
    ensures
        plain("ctrl"@),
        plain("shift"@),
        plain("alt"@),
        plain("cmd"@),
        "ctrl+"@ == "ctrl"@ + seq!['+'],
        "shift+"@ == "shift"@ + seq!['+'],
        "alt+"@ == "alt"@ + seq!['+'],
        "cmd+"@ == "cmd"@ + seq!['+'],
{
    reveal_strlit("ctrl");
    reveal_strlit("shift");
    reveal_strlit("alt");
    reveal_strlit("cmd");
    reveal_strlit("ctrl+");
    reveal_strlit("shift+");
    reveal_strlit("alt+");
    reveal_strlit("cmd+");
    assert("ctrl+"@ =~= "ctrl"@ + seq!['+']);
    assert("shift+"@ =~= "shift"@ + seq!['+']);
    assert("alt+"@ =~= "alt"@ + seq!['+']);
    assert("cmd+"@ =~= "cmd"@ + seq!['+']);
    assert(text::lowered("ctrl"@) =~= "ctrl"@);
    assert(text::lowered("shift"@) =~= "shift"@);
    assert(text::lowered("alt"@) =~= "alt"@);
    assert(text::lowered("cmd"@) =~= "cmd"@);
}

/// One step of splitting: a plain token, the separator and the rest.
proof fn lemma_split_step(set: bool, name: Seq<char>, sep: Seq<char>, rest: Seq<char>)
    requires
        plain(name),
        sep == name + seq!['+'],
        rest.len() > 0,
        !text::is_space(rest[0]),
    ensures
        ({
            let s = if set {
                sep
            } else {
                Seq::empty()
            } + rest;
            let list = if set {
                seq![name]
            } else {
                Seq::empty()
            };
            &&& text::split_on(s, '+') == list + text::split_on(rest, '+')
            &&& s.len() > 0
            &&& !text::is_space(s[0])
            &&& s.last() == rest.last()
        }),
{
    if set {
        text::lemma_split_on_prefix(name, '+', rest);
    } else {
        assert(Seq::<char>::empty() + rest =~= rest);
        assert(Seq::<Seq<char>>::empty() + text::split_on(rest, '+') =~= text::split_on(rest, '+'));
    }
}

/// A canonical form splits into the modifiers' names and the key's token.
#[verifier::spinoff_prover]
#[verifier::rlimit(40)]
proof fn lemma_canonical_pieces(binding: KeyBinding)
    requires
        plain(binding.key.token()),
    ensures
        text::split_on(binding.canonical(), '+') == modifier_list(binding.modifiers).push(
            binding.key.token(),
        ),
        binding.canonical().len() > 0,
        !text::is_space(binding.canonical()[0]),
        !text::is_space(binding.canonical().last()),
{
    let m = binding.modifiers;
    let token = binding.key.token();
    lemma_modifier_names();
    text::lemma_split_on_absent(token, '+');
    let e = Seq::<char>::empty();
    let cmd = if m.cmd { "cmd+"@ } else { e } + token;
    lemma_split_step(m.cmd, "cmd"@, "cmd+"@, token);
    let alt = if m.alt { "alt+"@ } else { e } + cmd;
    lemma_split_step(m.alt, "alt"@, "alt+"@, cmd);
    let shift = if m.shift { "shift+"@ } else { e } + alt;
    lemma_split_step(m.shift, "shift"@, "shift+"@, alt);
    let ctrl = if m.ctrl { "ctrl+"@ } else { e } + shift;
    lemma_split_step(m.ctrl, "ctrl"@, "ctrl+"@, shift);
    assert(binding.canonical() =~= ctrl);
    assert(text::split_on(ctrl, '+') =~= modifier_list(m).push(token));
}

/// Trimming leaves the names of modifiers and a plain token alone.
proof fn lemma_pieces_are_trimmed(m: Modifiers, token: Seq<char>, i: int)
    requires
        plain(token),
        0 <= i <= modifier_list(m).len(),
    ensures
        text::trimmed(modifier_list(m).push(token)[i]) == modifier_list(m).push(token)[i],
{
    lemma_modifier_names();
    let pieces = modifier_list(m).push(token);
    assert(plain(pieces[i]));
    text::lemma_trimmed_fixpoint(pieces[i]);
}

/// The tokens of a canonical form are the modifiers' names and the key's token.
proof fn lemma_canonical_tokens(binding: KeyBinding)
    requires
        producible(binding),
    ensures
        keybinding::binding_tokens(binding.canonical()) == modifier_list(
            binding.modifiers,
        ).push(binding.key.token()),
        text::trimmed(binding.canonical()).len() > 0,
{
    let s = binding.canonical();
    lemma_key_token(binding.key);
    lemma_canonical_pieces(binding);
    text::lemma_trimmed_fixpoint(s);
    let pieces = modifier_list(binding.modifiers).push(binding.key.token());
    assert forall|i: int| 0 <= i < pieces.len() implies text::trimmed(#[trigger] pieces[i])
        == pieces[i] by {
        lemma_pieces_are_trimmed(binding.modifiers, binding.key.token(), i);
    }
    assert(keybinding::binding_tokens(s) =~= pieces);
}

/// The canonical token of a producible key is plain, names no modifier and
/// stands for that key.
proof fn lemma_key_token(key: Key)
    requires
        producible(KeyBinding { modifiers: Modifiers::none(), key }),
    ensures
        plain(key.token()),
        keybinding::modifier_named(key.token()) is None,
        keybinding::key_for(key.token()) == Some(key),
{
    match key {
        Key::Char(c) => {
            lemma_char_token(c);
        },
        _ => {
            if key.function_number() is Some {
                lemma_function_token(key);
            } else {
                lemma_named_token(key);
            }
        },
    }
}

proof fn lemma_char_token(c: char)
    requires
        !text::is_space(c) && c != '+' && !('A' <= c <= 'Z'),
    ensures
        plain(Key::Char(c).token()),
        keybinding::modifier_named(Key::Char(c).token()) is None,
        keybinding::key_for(Key::Char(c).token()) == Some(Key::Char(c)),
{
    let token = Key::Char(c).token();
    assert(text::lowered(token) =~= token);
    lemma_table_lengths();
    assert(token.drop_first() =~= Seq::<char>::empty());
    assert(token.len() == 1);
}

/// No name in the tables is a single character.
proof fn lemma_table_lengths()
    ensures
        forall|t: Seq<char>|
            #![trigger keybinding::named_key(t)]
            t.len() == 1 ==> keybinding::named_key(t) is None,
        forall|t: Seq<char>|
            #![trigger keybinding::modifier_named(t)]
            t.len() == 1 ==> keybinding::modifier_named(t) is None,
{
    lemma_reveal_names();
    lemma_reveal_modifiers();
}

proof fn lemma_reveal_names()
    ensures
        "escape"@ == seq!['e', 's', 'c', 'a', 'p', 'e'],
        "esc"@ == seq!['e', 's', 'c'],
        "tab"@ == seq!['t', 'a', 'b'],
        "enter"@ == seq!['e', 'n', 't', 'e', 'r'],
        "return"@ == seq!['r', 'e', 't', 'u', 'r', 'n'],
        "backspace"@ == seq!['b', 'a', 'c', 'k', 's', 'p', 'a', 'c', 'e'],
        "delete"@ == seq!['d', 'e', 'l', 'e', 't', 'e'],
        "del"@ == seq!['d', 'e', 'l'],
        "home"@ == seq!['h', 'o', 'm', 'e'],
        "end"@ == seq!['e', 'n', 'd'],
        "pageup"@ == seq!['p', 'a', 'g', 'e', 'u', 'p'],
        "page_up"@ == seq!['p', 'a', 'g', 'e', '_', 'u', 'p'],
        "pgup"@ == seq!['p', 'g', 'u', 'p'],
        "pagedown"@ == seq!['p', 'a', 'g', 'e', 'd', 'o', 'w', 'n'],
        "page_down"@ == seq!['p', 'a', 'g', 'e', '_', 'd', 'o', 'w', 'n'],
        "pgdn"@ == seq!['p', 'g', 'd', 'n'],
        "arrowup"@ == seq!['a', 'r', 'r', 'o', 'w', 'u', 'p'],
        "arrow_up"@ == seq!['a', 'r', 'r', 'o', 'w', '_', 'u', 'p'],
        "up"@ == seq!['u', 'p'],
        "arrowdown"@ == seq!['a', 'r', 'r', 'o', 'w', 'd', 'o', 'w', 'n'],
        "arrow_down"@ == seq!['a', 'r', 'r', 'o', 'w', '_', 'd', 'o', 'w', 'n'],
        "down"@ == seq!['d', 'o', 'w', 'n'],
        "arrowleft"@ == seq!['a', 'r', 'r', 'o', 'w', 'l', 'e', 'f', 't'],
        "arrow_left"@ == seq!['a', 'r', 'r', 'o', 'w', '_', 'l', 'e', 'f', 't'],
        "left"@ == seq!['l', 'e', 'f', 't'],
        "arrowright"@ == seq!['a', 'r', 'r', 'o', 'w', 'r', 'i', 'g', 'h', 't'],
        "arrow_right"@ == seq!['a', 'r', 'r', 'o', 'w', '_', 'r', 'i', 'g', 'h', 't'],
        "right"@ == seq!['r', 'i', 'g', 'h', 't'],
        "space"@ == seq!['s', 'p', 'a', 'c', 'e'],
{
    reveal_strlit("escape");
    assert("escape"@ =~= seq!['e', 's', 'c', 'a', 'p', 'e']);
    reveal_strlit("esc");
    assert("esc"@ =~= seq!['e', 's', 'c']);
    reveal_strlit("tab");
    assert("tab"@ =~= seq!['t', 'a', 'b']);
    reveal_strlit("enter");
    assert("enter"@ =~= seq!['e', 'n', 't', 'e', 'r']);
    reveal_strlit("return");
    assert("return"@ =~= seq!['r', 'e', 't', 'u', 'r', 'n']);
    reveal_strlit("backspace");
    assert("backspace"@ =~= seq!['b', 'a', 'c', 'k', 's', 'p', 'a', 'c', 'e']);
    reveal_strlit("delete");
    assert("delete"@ =~= seq!['d', 'e', 'l', 'e', 't', 'e']);
    reveal_strlit("del");
    assert("del"@ =~= seq!['d', 'e', 'l']);
    reveal_strlit("home");
    assert("home"@ =~= seq!['h', 'o', 'm', 'e']);
    reveal_strlit("end");
    assert("end"@ =~= seq!['e', 'n', 'd']);
    reveal_strlit("pageup");
    assert("pageup"@ =~= seq!['p', 'a', 'g', 'e', 'u', 'p']);
    reveal_strlit("page_up");
    assert("page_up"@ =~= seq!['p', 'a', 'g', 'e', '_', 'u', 'p']);
    reveal_strlit("pgup");
    assert("pgup"@ =~= seq!['p', 'g', 'u', 'p']);
    reveal_strlit("pagedown");
    assert("pagedown"@ =~= seq!['p', 'a', 'g', 'e', 'd', 'o', 'w', 'n']);
    reveal_strlit("page_down");
    assert("page_down"@ =~= seq!['p', 'a', 'g', 'e', '_', 'd', 'o', 'w', 'n']);
    reveal_strlit("pgdn");
    assert("pgdn"@ =~= seq!['p', 'g', 'd', 'n']);
    reveal_strlit("arrowup");
    assert("arrowup"@ =~= seq!['a', 'r', 'r', 'o', 'w', 'u', 'p']);
    reveal_strlit("arrow_up");
    assert("arrow_up"@ =~= seq!['a', 'r', 'r', 'o', 'w', '_', 'u', 'p']);
    reveal_strlit("up");
    assert("up"@ =~= seq!['u', 'p']);
    reveal_strlit("arrowdown");
    assert("arrowdown"@ =~= seq!['a', 'r', 'r', 'o', 'w', 'd', 'o', 'w', 'n']);
    reveal_strlit("arrow_down");
    assert("arrow_down"@ =~= seq!['a', 'r', 'r', 'o', 'w', '_', 'd', 'o', 'w', 'n']);
    reveal_strlit("down");
    assert("down"@ =~= seq!['d', 'o', 'w', 'n']);
    reveal_strlit("arrowleft");
    assert("arrowleft"@ =~= seq!['a', 'r', 'r', 'o', 'w', 'l', 'e', 'f', 't']);
    reveal_strlit("arrow_left");
    assert("arrow_left"@ =~= seq!['a', 'r', 'r', 'o', 'w', '_', 'l', 'e', 'f', 't']);
    reveal_strlit("left");
    assert("left"@ =~= seq!['l', 'e', 'f', 't']);
    reveal_strlit("arrowright");
    assert("arrowright"@ =~= seq!['a', 'r', 'r', 'o', 'w', 'r', 'i', 'g', 'h', 't']);
    reveal_strlit("arrow_right");
    assert("arrow_right"@ =~= seq!['a', 'r', 'r', 'o', 'w', '_', 'r', 'i', 'g', 'h', 't']);
    reveal_strlit("right");
    assert("right"@ =~= seq!['r', 'i', 'g', 'h', 't']);
    reveal_strlit("space");
    assert("space"@ =~= seq!['s', 'p', 'a', 'c', 'e']);
}

proof fn lemma_reveal_modifiers()
    ensures
        "ctrl"@ == seq!['c', 't', 'r', 'l'],
        "control"@ == seq!['c', 'o', 'n', 't', 'r', 'o', 'l'],
        "shift"@ == seq!['s', 'h', 'i', 'f', 't'],
        "alt"@ == seq!['a', 'l', 't'],
        "option"@ == seq!['o', 'p', 't', 'i', 'o', 'n'],
        "cmd"@ == seq!['c', 'm', 'd'],
        "meta"@ == seq!['m', 'e', 't', 'a'],
        "super"@ == seq!['s', 'u', 'p', 'e', 'r'],
{
    reveal_strlit("ctrl");
    assert("ctrl"@ =~= seq!['c', 't', 'r', 'l']);
    reveal_strlit("control");
    assert("control"@ =~= seq!['c', 'o', 'n', 't', 'r', 'o', 'l']);
    reveal_strlit("shift");
    assert("shift"@ =~= seq!['s', 'h', 'i', 'f', 't']);
    reveal_strlit("alt");
    assert("alt"@ =~= seq!['a', 'l', 't']);
    reveal_strlit("option");
    assert("option"@ =~= seq!['o', 'p', 't', 'i', 'o', 'n']);
    reveal_strlit("cmd");
    assert("cmd"@ =~= seq!['c', 'm', 'd']);
    reveal_strlit("meta");
    assert("meta"@ =~= seq!['m', 'e', 't', 'a']);
    reveal_strlit("super");
    assert("super"@ =~= seq!['s', 'u', 'p', 'e', 'r']);
}

proof fn lemma_function_token(key: Key)
    requires
        key.function_number() is Some,
    ensures
        plain(key.token()),
        keybinding::modifier_named(key.token()) is None,
        keybinding::key_for(key.token()) == Some(key),
{
    let n = key.function_number()->0;
    let digits = numeral::decimal(n);
    let token = key.token();
    numeral::lemma_decimal_value(n);
    numeral::lemma_decimal_reads_back(n);
    lemma_reveal_modifiers();
    assert(token =~= seq!['f'] + digits);
    assert(token.drop_first() =~= digits);
    assert forall|i: int| 0 <= i < token.len() implies token[i] == 'f' || '0' <= #[trigger] token[i]
        <= '9' by {
        if i > 0 {
            assert(token[i] == digits[i - 1]);
            assert(numeral::digit_value(digits[i - 1], 10) is Some);
        }
    }
    assert(text::lowered(token) =~= token);
    assert(token[0] == 'f');
    assert(token.last() == digits.last());
}

proof fn lemma_named_token(key: Key)
    requires
        !(key is Char),
        key.function_number() is None,
    ensures
        plain(key.token()),
        keybinding::modifier_named(key.token()) is None,
        keybinding::key_for(key.token()) == Some(key),
{
    lemma_reveal_names();
    lemma_reveal_modifiers();
    let token = key.token();
    assert(text::lowered(token) =~= token);
    assert(token[0] != 'f');
}

/// Reading the canonical names of a modifier set gives the set.
proof fn lemma_modifier_list(m: Modifiers, input: Seq<char>)
    ensures
        keybinding::modifiers_from(modifier_list(m), input) == Ok::<
            _,
            KeyBindingParseErrorView,
        >(m),
{
    lemma_modifier_names();
    lemma_reveal_modifiers();
    assert(keybinding::modifier_named("ctrl"@) == Some(ModifierFlag::Ctrl));
    assert(keybinding::modifier_named("shift"@) == Some(ModifierFlag::Shift));
    assert(keybinding::modifier_named("alt"@) == Some(ModifierFlag::Alt));
    assert(keybinding::modifier_named("cmd"@) == Some(ModifierFlag::Cmd));
    let none = Modifiers::none();
    let l0 = Seq::<Seq<char>>::empty();
    let l1 = if m.ctrl { l0.push("ctrl"@) } else { l0 };
    let l2 = if m.shift { l1.push("shift"@) } else { l1 };
    let l3 = if m.alt { l2.push("alt"@) } else { l2 };
    let l4 = if m.cmd { l3.push("cmd"@) } else { l3 };
    assert(modifier_list(m) =~= l4);
    lemma_modifier_step(l0, m.ctrl, "ctrl"@, ModifierFlag::Ctrl, input);
    lemma_modifier_step(l1, m.shift, "shift"@, ModifierFlag::Shift, input);
    lemma_modifier_step(l2, m.alt, "alt"@, ModifierFlag::Alt, input);
    lemma_modifier_step(l3, m.cmd, "cmd"@, ModifierFlag::Cmd, input);
}

proof fn lemma_modifier_step(
    before: Seq<Seq<char>>,
    set: bool,
    name: Seq<char>,
    flag: ModifierFlag,
    input: Seq<char>,
)
    requires
        text::lowered(name) == name,
        keybinding::modifier_named(name) == Some(flag),
        keybinding::modifiers_from(before, input) is Ok,
        !flag.among(keybinding::modifiers_from(before, input)->Ok_0),
    ensures
        keybinding::modifiers_from(
            if set {
                before.push(name)
            } else {
                before
            },
            input,
        ) == Ok::<Modifiers, KeyBindingParseErrorView>(
            if set {
                flag.added_to(keybinding::modifiers_from(before, input)->Ok_0)
            } else {
                keybinding::modifiers_from(before, input)->Ok_0
            },
        ),
{
    assert(before.push(name).drop_last() =~= before);
}

/// What the parser produces is producible.
proof fn lemma_parsed_is_producible(input: Seq<char>, binding: KeyBinding)
    requires
        keybinding::binding_from(input) == Ok::<_, KeyBindingParseErrorView>(binding),
    ensures
        producible(binding),
{
    let trimmed = text::trimmed(input);
    let pieces = text::split_on(trimmed, '+');
    let tokens = keybinding::binding_tokens(input);
    text::lemma_split_on_nonempty(trimmed, '+');
    let last = pieces.len() - 1;
    let token = tokens.last();
    assert(token == text::trimmed(pieces[last]));
    text::lemma_split_on_pieces(trimmed, '+', last);
    text::lemma_trimmed_ends(pieces[last]);
    assert(tokens[last].len() > 0);
    assert(token.contains(token[0]));
}

// ---------------------------------------------------------------------------
// ASCII case
// ---------------------------------------------------------------------------

/// Lower-casing the input changes neither whether a binding is read nor which.
proof fn lemma_lowered_binding(s: Seq<char>)
    ensures
        keybinding::binding_from(s) is Ok <==> keybinding::binding_from(
            text::lowered(s),
        ) is Ok,
        keybinding::binding_from(s) is Ok ==> keybinding::binding_from(s)->Ok_0
            == keybinding::binding_from(text::lowered(s))->Ok_0,
{
    let low = text::lowered(s);
    let tokens = keybinding::binding_tokens(s);
    let low_tokens = keybinding::binding_tokens(low);
    text::lemma_lowered_trimmed(s);
    text::lemma_lowered_split(text::trimmed(s), '+');
    text::lemma_split_on_nonempty(text::trimmed(s), '+');
    assert forall|i: int| 0 <= i < tokens.len() implies low_tokens[i] == text::lowered(
        #[trigger] tokens[i],
    ) by {
        let piece = text::split_on(text::trimmed(s), '+')[i];
        text::lemma_lowered_trimmed(piece);
    }
    assert(low_tokens.len() == tokens.len());
    text::lemma_lowered_twice(tokens.last());
    lemma_lowered_modifiers(tokens.drop_last(), low_tokens.drop_last(), s, low);
    if exists|i: int| 0 <= i < tokens.len() && (#[trigger] tokens[i]).len() == 0 {
        let i = choose|i: int| 0 <= i < tokens.len() && (#[trigger] tokens[i]).len() == 0;
        assert(low_tokens[i].len() == 0);
    }
    if exists|i: int| 0 <= i < low_tokens.len() && (#[trigger] low_tokens[i]).len() == 0 {
        let i = choose|i: int| 0 <= i < low_tokens.len() && (#[trigger] low_tokens[i]).len() == 0;
        assert(tokens[i].len() == 0);
    }
}

proof fn lemma_lowered_modifiers(
    tokens: Seq<Seq<char>>,
    low_tokens: Seq<Seq<char>>,
    input: Seq<char>,
    low: Seq<char>,
)
    requires
        tokens.len() == low_tokens.len(),
        forall|i: int|
            0 <= i < tokens.len() ==> low_tokens[i] == text::lowered(#[trigger] tokens[i]),
    ensures
        keybinding::modifiers_from(tokens, input) is Ok
            <==> keybinding::modifiers_from(low_tokens, low) is Ok,
        keybinding::modifiers_from(tokens, input) is Ok
            ==> keybinding::modifiers_from(tokens, input)->Ok_0
            == keybinding::modifiers_from(low_tokens, low)->Ok_0,
    decreases tokens.len(),
{
    if tokens.len() > 0 {
        lemma_lowered_modifiers(tokens.drop_last(), low_tokens.drop_last(), input, low);
        text::lemma_lowered_twice(tokens.last());
        assert(low_tokens.last() == text::lowered(tokens[tokens.len() - 1]));
    }
}

} // verus!
