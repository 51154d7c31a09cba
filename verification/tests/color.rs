use openspace::theme::color::{parse_color, AlphaReading, Color, ColorReading};

/// Reads a decimal alpha the way the theme loader does.
fn read_alpha(field: &str) -> AlphaReading {
    match field.parse::<f32>() {
        Err(_) => AlphaReading::NotANumber,
        Ok(value) => {
            if value.is_nan() || !(0.0..=1.0).contains(&value) {
                AlphaReading::OutOfRange
            } else {
                AlphaReading::Byte((value * 255.0).round() as u8)
            }
        }
    }
}

fn deserialize(input: &str) -> Result<Color, String> {
    match parse_color(input)? {
        ColorReading::Complete(color) => Ok(color),
        ColorReading::DecimalAlpha(pending) => pending.finish(input, read_alpha(&pending.alpha)),
    }
}

#[test]
fn hex_rgb_form_defaults_alpha_to_opaque() {
    let color = deserialize("#1A2B3C").expect("parse");
    assert_eq!(color, Color::new(0x1A, 0x2B, 0x3C, 0xFF));
}

#[test]
fn hex_rgba_form_preserves_alpha() {
    let color = deserialize("#1A2B3C7F").expect("parse");
    assert_eq!(color, Color::new(0x1A, 0x2B, 0x3C, 0x7F));
}

#[test]
fn hex_form_is_case_insensitive() {
    let upper = deserialize("#AABBCC").expect("parse upper");
    let lower = deserialize("#aabbcc").expect("parse lower");
    assert_eq!(upper, lower);
}

#[test]
fn rgb_form_accepts_decimal_channels() {
    let color = deserialize("rgb(10, 20, 30)").expect("parse");
    assert_eq!(color, Color::new(10, 20, 30, 0xFF));
}

#[test]
fn rgba_form_accepts_integer_alpha() {
    let color = deserialize("rgba(10, 20, 30, 200)").expect("parse");
    assert_eq!(color, Color::new(10, 20, 30, 200));
}

#[test]
fn rgba_form_accepts_float_alpha() {
    let color = deserialize("rgba(10, 20, 30, 0.5)").expect("parse");
    assert_eq!(color, Color::new(10, 20, 30, 128));
}

#[test]
fn rgba_float_alpha_clamped_endpoints() {
    let zero = deserialize("rgba(0, 0, 0, 0.0)").expect("parse");
    let one = deserialize("rgba(0, 0, 0, 1.0)").expect("parse");
    assert_eq!(zero.a, 0);
    assert_eq!(one.a, 255);
}

#[test]
fn whitespace_around_input_is_tolerated() {
    let color = deserialize("   #112233   ").expect("parse");
    assert_eq!(color, Color::new(0x11, 0x22, 0x33, 0xFF));
}

#[test]
fn rejects_unknown_format() {
    let message = deserialize("hsl(0, 0%, 0%)").expect_err("must reject");
    assert!(
        message.contains("hsl(0, 0%, 0%)"),
        "diagnostic must quote the offending input, got: {message}"
    );
}

#[test]
fn rejects_short_hex() {
    let err = deserialize("#FFF").expect_err("must reject");
    assert!(err.contains("\"#FFF\""));
}

#[test]
fn rejects_non_hex_characters() {
    let err = deserialize("#ZZZZZZ").expect_err("must reject");
    assert!(err.contains("\"#ZZZZZZ\""));
}

#[test]
fn rejects_rgb_channel_out_of_range() {
    let err = deserialize("rgb(300, 0, 0)").expect_err("must reject");
    assert!(err.contains("\"rgb(300, 0, 0)\""));
}

#[test]
fn rejects_rgba_float_alpha_out_of_range() {
    let err = deserialize("rgba(0, 0, 0, 1.5)").expect_err("must reject");
    assert!(err.contains("\"rgba(0, 0, 0, 1.5)\""));
}

#[test]
fn rejects_rgba_with_wrong_arity() {
    let err = deserialize("rgba(0, 0, 0)").expect_err("must reject");
    assert!(err.contains("four channels"));
}

#[test]
fn serialize_emits_canonical_uppercase_rgba() {
    let color = Color::new(0x1A, 0x2B, 0x3C, 0x4D);
    let json = serde_json::to_string(&color.to_string()).expect("serialize");
    assert_eq!(json, "\"#1A2B3C4D\"");
}

#[test]
fn serialize_pads_single_digit_channels() {
    let color = Color::new(0x01, 0x02, 0x03, 0x04);
    assert_eq!(color.to_string(), "#01020304");
}

#[test]
fn canonical_form_reads_back_for_sampled_colours() {
    for r in (0..=255u8).step_by(17) {
        for a in (0..=255u8).step_by(5) {
            let color = Color::new(r, a, r ^ a, a);
            assert_eq!(deserialize(&color.to_string()), Ok(color));
        }
    }
}

#[test]
fn rgb_form_is_opaque_for_every_byte() {
    for v in 0..=255u8 {
        let input = format!("rgb({v}, {}, {})", 255 - v, v / 2);
        assert_eq!(deserialize(&input), Ok(Color::new(v, 255 - v, v / 2, 0xFF)));
        assert_eq!(Color::rgb(v, 1, 2), Color::new(v, 1, 2, 0xFF));
    }
}

#[test]
fn colour_errors_are_worded() {
    let message = |input: &str| deserialize(input).expect_err("must reject");
    assert_eq!(
        message("#GG0000"),
        "invalid color \"#GG0000\": red channel \"GG\" is not a hex byte"
    );
    assert_eq!(
        message("#0000"),
        "invalid color \"#0000\": hex form must be `#RRGGBB` or `#RRGGBBAA`"
    );
    assert_eq!(
        message("rgb(1, 2)"),
        "invalid color \"rgb(1, 2)\": `rgb(...)` requires exactly three channels"
    );
    assert_eq!(
        message("rgba(1, 2, 3, 256)"),
        "invalid color \"rgba(1, 2, 3, 256)\": alpha channel \"256\" must be 0..=255"
    );
    assert_eq!(
        message("rgba(1, 2, 3, 0.x)"),
        "invalid color \"rgba(1, 2, 3, 0.x)\": alpha \"0.x\" is not a number"
    );
    assert_eq!(
        message("rgba(1, 2, 3, 1.5)"),
        "invalid color \"rgba(1, 2, 3, 1.5)\": float alpha \"1.5\" must be in 0.0..=1.0"
    );
    assert_eq!(
        message("red"),
        "invalid color \"red\": expected `#RRGGBB`, `#RRGGBBAA`, `rgb(r, g, b)`, or `rgba(r, g, b, a)`"
    );
}

#[test]
fn hex_bytes_are_counted_in_utf8() {
    let split = deserialize("#0\u{e9}123").expect_err("must reject");
    assert!(split.contains("hex form must be"), "got: {split}");
    let whole = deserialize("#\u{e9}1234").expect_err("must reject");
    assert!(whole.contains("is not a hex byte"), "got: {whole}");
}
