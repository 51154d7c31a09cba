use openspace::command::CommandId;
use openspace::keybinding::{
    parse_key, Key, KeyBinding, KeyBindingParseError, KeybindingProfile, KeybindingProfileId,
    Modifiers,
};

#[test]
fn parses_ctrl_shift_p() {
    let kb = KeyBinding::parse("ctrl+shift+p").expect("parse");
    assert_eq!(
        kb,
        KeyBinding::new(Modifiers::ctrl() | Modifiers::shift(), Key::Char('p'))
    );
}

#[test]
fn parses_cmd_w() {
    let kb = KeyBinding::parse("cmd+w").expect("parse");
    assert_eq!(kb, KeyBinding::new(Modifiers::cmd(), Key::Char('w')));
}

#[test]
fn meta_and_super_alias_to_cmd() {
    let from_meta = KeyBinding::parse("meta+w").expect("parse meta");
    let from_super = KeyBinding::parse("super+w").expect("parse super");
    let from_cmd = KeyBinding::parse("cmd+w").expect("parse cmd");
    assert_eq!(from_meta, from_cmd);
    assert_eq!(from_super, from_cmd);
}

#[test]
fn option_aliases_to_alt() {
    let from_option = KeyBinding::parse("option+a").expect("parse option");
    let from_alt = KeyBinding::parse("alt+a").expect("parse alt");
    assert_eq!(from_option, from_alt);
}

#[test]
fn control_aliases_to_ctrl() {
    let long = KeyBinding::parse("control+s").expect("parse control");
    let short = KeyBinding::parse("ctrl+s").expect("parse ctrl");
    assert_eq!(long, short);
}

#[test]
fn parses_f12_function_key() {
    let kb = KeyBinding::parse("f12").expect("parse");
    assert_eq!(kb, KeyBinding::new(Modifiers::none(), Key::F12));
}

#[test]
fn parses_ctrl_arrow_left_alias() {
    let snake = KeyBinding::parse("ctrl+arrow_left").expect("parse snake");
    let canonical = KeyBinding::parse("ctrl+arrowleft").expect("parse canonical");
    assert_eq!(snake, canonical);
    assert_eq!(snake, KeyBinding::new(Modifiers::ctrl(), Key::ArrowLeft));
}

#[test]
fn parses_escape_no_modifiers() {
    let kb = KeyBinding::parse("escape").expect("parse");
    assert_eq!(kb, KeyBinding::new(Modifiers::none(), Key::Escape));
}

#[test]
fn parser_is_case_insensitive() {
    let upper = KeyBinding::parse("CTRL+SHIFT+P").expect("upper");
    let mixed = KeyBinding::parse("Ctrl+Shift+P").expect("mixed");
    let lower = KeyBinding::parse("ctrl+shift+p").expect("lower");
    assert_eq!(upper, mixed);
    assert_eq!(mixed, lower);
}

#[test]
fn whitespace_around_tokens_is_ignored() {
    let kb = KeyBinding::parse("  ctrl  +  shift  +  p  ").expect("parse");
    assert_eq!(
        kb,
        KeyBinding::new(Modifiers::ctrl() | Modifiers::shift(), Key::Char('p'))
    );
}

#[test]
fn rejects_empty_input() {
    let err = KeyBinding::parse("").expect_err("must reject");
    assert!(matches!(err, KeyBindingParseError::Empty));
    let err_ws = KeyBinding::parse("   ").expect_err("must reject ws");
    assert!(matches!(err_ws, KeyBindingParseError::Empty));
}

#[test]
fn rejects_trailing_plus() {
    let err = KeyBinding::parse("ctrl+").expect_err("must reject");
    assert!(matches!(err, KeyBindingParseError::EmptyToken { .. }));
}

#[test]
fn rejects_leading_plus() {
    let err = KeyBinding::parse("+a").expect_err("must reject");
    assert!(matches!(err, KeyBindingParseError::EmptyToken { .. }));
}

#[test]
fn rejects_unknown_modifier() {
    let err = KeyBinding::parse("hyper+a").expect_err("must reject");
    match err {
        KeyBindingParseError::UnknownModifier { token, .. } => {
            assert_eq!(token, "hyper");
        }
        other => panic!("expected UnknownModifier, got {other:?}"),
    }
}

#[test]
fn rejects_unknown_key() {
    let err = KeyBinding::parse("ctrl+wibble").expect_err("must reject");
    match err {
        KeyBindingParseError::UnknownKey { token, .. } => {
            assert_eq!(token, "wibble");
        }
        other => panic!("expected UnknownKey, got {other:?}"),
    }
}

#[test]
fn rejects_two_non_modifier_tokens() {
    let err = KeyBinding::parse("a+b").expect_err("must reject");
    assert!(matches!(err, KeyBindingParseError::UnknownModifier { .. }));
}

#[test]
fn rejects_duplicate_modifier() {
    let err = KeyBinding::parse("ctrl+ctrl+a").expect_err("must reject");
    match err {
        KeyBindingParseError::DuplicateModifier { modifier, .. } => {
            assert_eq!(modifier, "ctrl");
        }
        other => panic!("expected DuplicateModifier, got {other:?}"),
    }
}

#[test]
fn rejects_duplicate_modifier_via_alias() {
    let err = KeyBinding::parse("cmd+meta+a").expect_err("must reject");
    match err {
        KeyBindingParseError::DuplicateModifier { modifier, .. } => {
            assert_eq!(modifier, "cmd");
        }
        other => panic!("expected DuplicateModifier, got {other:?}"),
    }
}

#[test]
fn rejects_lone_modifier_as_missing_key() {
    let err = KeyBinding::parse("ctrl").expect_err("must reject");
    assert!(matches!(err, KeyBindingParseError::MissingKey { .. }));
    let err_alias = KeyBinding::parse("cmd+meta").expect_err("must reject alias");
    assert!(matches!(err_alias, KeyBindingParseError::MissingKey { .. }));
}

#[test]
fn rejects_function_key_out_of_range() {
    assert!(matches!(
        KeyBinding::parse("f0"),
        Err(KeyBindingParseError::UnknownKey { .. })
    ));
    assert!(matches!(
        KeyBinding::parse("f25"),
        Err(KeyBindingParseError::UnknownKey { .. })
    ));
}

#[test]
fn display_emits_canonical_lowercase_form() {
    let kb = KeyBinding::new(
        Modifiers::ctrl() | Modifiers::shift() | Modifiers::alt() | Modifiers::cmd(),
        Key::Char('p'),
    );
    assert_eq!(kb.to_string(), "ctrl+shift+alt+cmd+p");
}

#[test]
fn display_emits_named_keys_without_underscores() {
    let kb = KeyBinding::new(Modifiers::ctrl(), Key::ArrowLeft);
    assert_eq!(kb.to_string(), "ctrl+arrowleft");
}

#[test]
fn display_omits_separator_when_no_modifiers() {
    let kb = KeyBinding::new(Modifiers::none(), Key::F12);
    assert_eq!(kb.to_string(), "f12");
}

#[test]
fn round_trip_holds_for_listed_acceptance_inputs() {
    let inputs = [
        "ctrl+shift+p",
        "cmd+w",
        "f12",
        "ctrl+arrowleft",
        "escape",
        "alt+enter",
        "ctrl+shift+alt+cmd+p",
    ];
    for input in inputs {
        let kb = KeyBinding::parse(input).expect("parse acceptance input");
        let displayed = kb.to_string();
        let again = KeyBinding::parse(&displayed).expect("parse displayed");
        assert_eq!(kb, again, "round-trip failed for {input:?}");
        assert_eq!(displayed, input, "canonical form mismatch for {input:?}");
    }
}

#[test]
fn round_trip_holds_for_every_modifier_set_and_key() {
    let mut keys = vec![
        Key::Escape,
        Key::Tab,
        Key::Enter,
        Key::Backspace,
        Key::Delete,
        Key::Home,
        Key::End,
        Key::PageUp,
        Key::PageDown,
        Key::ArrowUp,
        Key::ArrowDown,
        Key::ArrowLeft,
        Key::ArrowRight,
        Key::Space,
        Key::F1,
        Key::F12,
        Key::F24,
    ];
    for c in ('a'..='z').chain('0'..='9') {
        keys.push(Key::Char(c));
    }
    for bits in 0..16u8 {
        let modifiers = Modifiers {
            ctrl: bits & 1 != 0,
            shift: bits & 2 != 0,
            alt: bits & 4 != 0,
            cmd: bits & 8 != 0,
        };
        for key in &keys {
            let kb = KeyBinding::new(modifiers, *key);
            assert_eq!(KeyBinding::parse(&kb.to_string()), Ok(kb));
        }
    }
}

#[test]
fn capital_keys_are_shown_in_lower_case() {
    let kb = KeyBinding::new(Modifiers::ctrl(), Key::Char('P'));
    assert_eq!(kb.to_string(), "ctrl+p");
}

#[test]
fn parse_errors_are_worded() {
    let message = |input: &str| KeyBinding::parse(input).expect_err("must reject").to_string();
    assert_eq!(message(""), "empty key binding");
    assert_eq!(message("a++b"), "malformed key binding \"a++b\": empty token");
    assert_eq!(message("Hyper+a"), "unknown modifier \"Hyper\" in \"Hyper+a\"");
    assert_eq!(message("cmd+meta+a"), "duplicate modifier \"cmd\" in \"cmd+meta+a\"");
    assert_eq!(message("ctrl+\u{7}x"), "unknown key \"\\u{7}x\" in \"ctrl+\\u{7}x\"");
    assert_eq!(message("ctrl"), "missing key in \"ctrl\"");
}

#[test]
fn modifiers_combine_and_report_emptiness() {
    assert!(Modifiers::none().is_empty());
    assert_eq!(Modifiers::default(), Modifiers::none());
    let mut m = Modifiers::ctrl();
    m |= Modifiers::alt();
    assert!(!m.is_empty());
    assert_eq!(m, Modifiers { ctrl: true, shift: false, alt: true, cmd: false });
}

#[test]
fn profiles_start_without_bindings() {
    let mut profile = KeybindingProfile::new("default");
    assert_eq!(profile.id, KeybindingProfileId::new("default"));
    assert_eq!(profile.id.to_string(), "default");
    assert!(profile.bindings.is_empty());
    let save = KeyBinding::parse("ctrl+s").expect("parse");
    profile.bindings.insert(CommandId::new("editor.save"), vec![save]);
    assert_eq!(profile.bindings.len(), 1);
    let named = KeybindingProfile::new("vim".to_string());
    assert_eq!(named.id.as_str(), "vim");
}

#[test]
fn spelling_of_a_binding_does_not_matter() {
    let plain = KeyBinding::parse("ctrl+alt+cmd+pageup").expect("parse");
    for text in [
        "  ctrl + alt\t+cmd+ pageup ",
        "CTRL+Alt+cMd+PAGEUP",
        "cmd+alt+ctrl+pageup",
        "control+option+meta+pageup",
        " Super + OPTION+ control +PageUp",
    ] {
        assert_eq!(KeyBinding::parse(text), Ok(plain), "{text}");
    }
    for text in ["ctrl++a", "control+ctrl+a", "meta+super+a", " + a"] {
        assert!(KeyBinding::parse(text).is_err(), "{text}");
    }
}

#[test]
fn function_keys_are_numbered_from_1_to_24() {
    for n in 0..300u32 {
        let parsed = KeyBinding::parse(&format!("f{n}"));
        assert_eq!(parsed.is_ok(), (1..=24).contains(&n), "f{n}");
        if let Ok(binding) = parsed {
            assert_eq!(binding.to_string(), format!("f{n}"));
        }
    }
    assert_eq!(KeyBinding::parse("f").map(|b| b.key), Ok(Key::Char('f')));
    for n in 0..300u32 {
        assert_eq!(parse_key(&format!("f{n}")).is_some(), (1..=24).contains(&n));
    }
    for key in [Key::Escape, Key::PageDown, Key::ArrowLeft, Key::Space, Key::F1, Key::F24] {
        assert_eq!(parse_key(&key.canonical_token()), Some(key));
    }
}
