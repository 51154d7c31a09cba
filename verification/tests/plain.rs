use openspace::numeral::{decimal_text, parse_unsigned, push_hex_byte, signed_decimal_text};
use openspace::text::{chars_of, cut_at_last, lower, space, split, string_of, trim};
use openspace::time::{Duration, Timestamp};

#[test]
fn white_space_is_what_std_says() {
    for code in 0..=0x10FFFFu32 {
        if let Some(c) = char::from_u32(code) {
            assert_eq!(space(c), c.is_whitespace(), "U+{code:04X}");
        }
    }
}

#[test]
fn trimming_and_splitting_agree_with_std() {
    for s in ["", " ", "a", "\u{3000} a b \u{85}", "+", "a++b", "ctrl+", "+a", "x:y:z"] {
        assert_eq!(string_of(&trim(&chars_of(s))), s.trim());
        for sep in ['+', ':'] {
            let pieces: Vec<String> = split(&chars_of(s), sep).iter().map(string_of).collect();
            let expected: Vec<String> = s.split(sep).map(str::to_string).collect();
            assert_eq!(pieces, expected);
            let cut = cut_at_last(&chars_of(s), sep).map(|(a, b)| (string_of(&a), string_of(&b)));
            let expected = s.rsplit_once(sep).map(|(a, b)| (a.to_string(), b.to_string()));
            assert_eq!(cut, expected);
        }
        assert_eq!(string_of(&lower(&chars_of(s))), s.to_ascii_lowercase());
    }
    assert_eq!(string_of(&lower(&chars_of("\u{c9}A"))), "\u{c9}a");
}

#[test]
fn numerals_agree_with_std() {
    for s in ["", "+", "-", "0", "+7", "007", "255", "256", "-1", "1a", "65535", "65536", "++1"] {
        let chars = chars_of(s);
        assert_eq!(
            parse_unsigned(&chars, 10, 255),
            s.parse::<u8>().ok().map(u64::from),
            "{s:?}"
        );
        assert_eq!(
            parse_unsigned(&chars, 10, 65535),
            s.parse::<u16>().ok().map(u64::from),
            "{s:?}"
        );
        assert_eq!(
            parse_unsigned(&chars, 16, 255),
            u8::from_str_radix(s, 16).ok().map(u64::from),
            "{s:?}"
        );
    }
    for n in [0u128, 9, 10, 1_000_007, u128::MAX] {
        assert_eq!(decimal_text(n), n.to_string());
    }
    for n in [0i64, -1, 42, i64::MIN, i64::MAX] {
        assert_eq!(signed_decimal_text(n), n.to_string());
    }
    let mut s = String::new();
    for b in [0u8, 9, 10, 0xAB, 255] {
        push_hex_byte(&mut s, b);
    }
    assert_eq!(s, "00090AABFF");
}

#[test]
fn instants_exist_where_the_calendar_has_them() {
    let min = chrono::DateTime::<chrono::Utc>::MIN_UTC.timestamp();
    let max = chrono::DateTime::<chrono::Utc>::MAX_UTC.timestamp();
    for (secs, nanos) in [
        (0, 0),
        (0, 999_999_999),
        (0, 1_000_000_000),
        (0, 1_999_999_999),
        (59, 1_000_000_000),
        (59, 1_999_999_999),
        (59, 2_000_000_000),
        (-1, 1_500_000_000),
        (min, 0),
        (min - 1, 0),
        (max, 999_999_999),
        (max + 1, 0),
        (i64::MAX, 0),
        (i64::MIN, u32::MAX),
    ] {
        let expected = chrono::DateTime::<chrono::Utc>::from_timestamp(secs, nanos);
        let found = Timestamp::from_timestamp(secs, nanos);
        assert_eq!(found.is_some(), expected.is_some(), "{secs} {nanos}");
        if let Some(t) = found {
            assert_eq!((t.timestamp(), t.subsec_nanos()), (secs, nanos));
        }
    }
    assert_eq!(Timestamp::unix_epoch().timestamp(), 0);
}

#[test]
fn spans_are_those_of_the_calendar() {
    let min = chrono::DateTime::<chrono::Utc>::MIN_UTC.timestamp();
    let max = chrono::DateTime::<chrono::Utc>::MAX_UTC.timestamp();
    let instants = [
        (0, 0),
        (0, 5),
        (10, 999_999_999),
        (59, 1_500_000_000),
        (60, 0),
        (119, 1_000_000_000),
        (min, 0),
        (max, 0),
        (-1, 500_000_000),
    ];
    for (a_secs, a_nanos) in instants {
        for (b_secs, b_nanos) in instants {
            let a = Timestamp::from_timestamp(a_secs, a_nanos).expect("in range");
            let b = Timestamp::from_timestamp(b_secs, b_nanos).expect("in range");
            let span = chrono::DateTime::<chrono::Utc>::from_timestamp(b_secs, b_nanos)
                .expect("in range")
                - chrono::DateTime::<chrono::Utc>::from_timestamp(a_secs, a_nanos)
                    .expect("in range");
            let expected = span.to_std().map(|d| d.as_nanos()).unwrap_or(0);
            assert_eq!(b.saturating_since(&a), Duration { nanos: expected });
        }
    }
}

#[test]
fn durations_count_nanoseconds() {
    assert_eq!(Duration::zero().nanos, 0);
    assert_eq!(Duration::from_secs(2).nanos, 2_000_000_000);
    assert_eq!(Duration::from_millis(3).nanos, 3_000_000);
}
