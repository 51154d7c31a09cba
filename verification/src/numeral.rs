//! Numerals: reading and writing integers as text.

use vstd::prelude::*;

verus! {

/// The value of `c` as a digit in base `radix`, where it is one.
pub open spec fn digit_value(c: char, radix: nat) -> Option<nat> {
    let v = if '0' <= c <= '9' {
        c as int - '0' as int
    } else if 'a' <= c <= 'z' {
        c as int - 'a' as int + 10
    } else if 'A' <= c <= 'Z' {
        c as int - 'A' as int + 10
    } else {
        radix as int
    };
    if v < radix {
        Some(v as nat)
    } else {
        None
    }
}

/// Whether every character is a digit in base `radix`.
pub open spec fn all_digits(s: Seq<char>, radix: nat) -> bool {
    forall|i: int| 0 <= i < s.len() ==> digit_value(#[trigger] s[i], radix) is Some
}

/// The number that a sequence of digits in base `radix` denotes.
pub open spec fn digits_value(s: Seq<char>, radix: nat) -> nat
    decreases s.len(),
{
    if s.len() == 0 {
        0
    } else {
        radix * digits_value(s.drop_last(), radix) + digit_value(s.last(), radix).unwrap_or(0)
    }
}

/// The number that an unsigned numeral denotes: an optional `+`, then at least
/// one digit.
pub open spec fn unsigned_value(s: Seq<char>, radix: nat) -> Option<nat> {
    let digits = if s.len() > 0 && s[0] == '+' {
        s.drop_first()
    } else {
        s
    };
    if digits.len() > 0 && all_digits(digits, radix) {
        Some(digits_value(digits, radix))
    } else {
        None
    }
}

/// The number that `s` denotes, where that is at most `max`.
pub open spec fn bounded_value(s: Seq<char>, radix: nat, max: nat) -> Option<nat> {
    match unsigned_value(s, radix) {
        Some(n) => if n <= max {
            Some(n)
        } else {
            None
        },
        None => None,
    }
}

/// The decimal digit for `d`.
pub open spec fn digit_char(d: nat) -> char {
    ('0' as int + d) as char
}

/// The decimal numeral of `n`, without leading zeros.
pub open spec fn decimal(n: nat) -> Seq<char>
    decreases n,
{
    if n < 10 {
        seq![digit_char(n)]
    } else {
        decimal(n / 10).push(digit_char(n % 10))
    }
}

/// The decimal numeral of `n`, with a leading `-` where it is negative.
pub open spec fn signed_decimal(n: int) -> Seq<char> {
    if n < 0 {
        seq!['-'] + decimal((-n) as nat)
    } else {
        decimal(n as nat)
    }
}

/// The digit value of one character.
pub fn digit(c: char, radix: u64) -> (res: Option<u64>)
    requires
        radix <= 36,
    ensures
        match res {
            Some(d) => digit_value(c, radix as nat) == Some(d as nat) && d < radix,
            None => digit_value(c, radix as nat) is None,
        },
{
    let v: u64 = if '0' <= c && c <= '9' {
        c as u64 - '0' as u64
    } else if 'a' <= c && c <= 'z' {
        c as u64 - 'a' as u64 + 10
    } else if 'A' <= c && c <= 'Z' {
        c as u64 - 'A' as u64 + 10
    } else {
        radix
    };
    if v < radix {
        Some(v)
    } else {
        None
    }
}

/// A longer run of digits denotes no smaller number.
proof fn lemma_digits_value_grows(s: Seq<char>, radix: nat, i: int)
    requires
        0 <= i <= s.len(),
        radix >= 1,
    ensures
        digits_value(s.take(i), radix) <= digits_value(s, radix),
    decreases s.len() - i,
{
    if i < s.len() {
        lemma_digits_value_grows(s, radix, i + 1);
        let t = s.take(i + 1);
        assert(t.drop_last() =~= s.take(i));
        let v = digits_value(s.take(i), radix);
        assert(v <= radix * v) by (nonlinear_arith)
            requires
                radix >= 1,
                v >= 0,
        ;
    } else {
        assert(s.take(i) =~= s);
    }
}

/// Reads an unsigned numeral in base `radix` whose value is at most `max`.
pub fn parse_unsigned(v: &Vec<char>, radix: u64, max: u64) -> (res: Option<u64>)
    requires
        1 <= radix <= 36,
        max <= 0xffff_ffff,
    ensures
        match res {
            Some(n) => bounded_value(v@, radix as nat, max as nat) == Some(n as nat) && n <= max,
            None => bounded_value(v@, radix as nat, max as nat) is None,
        },
{
    let start: usize = if v.len() > 0 && v[0] == '+' {
        1
    } else {
        0
    };
    let ghost digits = v@.skip(start as int);
    assert(digits =~= if v@.len() > 0 && v@[0] == '+' {
        v@.drop_first()
    } else {
        v@
    });
    if start == v.len() {
        return None;
    }
    let mut n: u64 = 0;
    assert(digits.take(0) =~= Seq::<char>::empty());
    for i in start..v.len()
        invariant
            start <= v@.len(),
            digits == v@.skip(start as int),
            digits == if v@.len() > 0 && v@[0] == '+' {
                v@.drop_first()
            } else {
                v@
            },
            digits.len() > 0,
            1 <= radix <= 36,
            max <= 0xffff_ffff,
            n <= max,
            n == digits_value(digits.take(i - start), radix as nat),
            forall|j: int|
                0 <= j < i - start ==> digit_value(#[trigger] digits[j], radix as nat) is Some,
    {
        let ghost k = i - start;
        assert(digits[k] == v@[i as int]);
        match digit(v[i], radix) {
            None => {
                return None;
            },
            Some(d) => {
                let ghost next = digits.take(k + 1);
                assert(next.drop_last() =~= digits.take(k));
                assert(n * radix + d <= 0xffff_ffff * 36 + 36) by (nonlinear_arith)
                    requires
                        0 <= n <= 0xffff_ffff,
                        0 <= radix <= 36,
                        0 <= d <= 36,
                ;
                assert(n * radix >= 0) by (nonlinear_arith)
                    requires
                        n >= 0,
                        radix >= 0,
                ;
                assert(n * radix == radix * n) by (nonlinear_arith);
                let m: u64 = n * radix + d;
                assert(m == digits_value(next, radix as nat));
                if m > max {
                    proof {
                        lemma_digits_value_grows(digits, radix as nat, k + 1);
                    }
                    return None;
                }
                n = m;
            },
        }
    }
    assert(digits.take(digits.len() as int) =~= digits);
    Some(n)
}

/// The digits of a decimal numeral are decimal digits and denote its number.
pub proof fn lemma_decimal_value(n: nat)
    ensures
        decimal(n).len() > 0,
        all_digits(decimal(n), 10),
        digits_value(decimal(n), 10) == n,
    decreases n,
{
    if n < 10 {
        assert(decimal(n).drop_last() =~= Seq::<char>::empty());
        assert(digits_value(decimal(n).drop_last(), 10) == 0);
    } else {
        lemma_decimal_value(n / 10);
        assert(decimal(n).drop_last() =~= decimal(n / 10));
        assert forall|i: int| 0 <= i < decimal(n).len() implies digit_value(
            #[trigger] decimal(n)[i],
            10,
        ) is Some by {
            if i < decimal(n / 10).len() {
                assert(decimal(n)[i] == decimal(n / 10)[i]);
            }
        }
    }
}

/// Reading a decimal numeral gives back the number it was written for.
pub proof fn lemma_decimal_reads_back(n: nat)
    ensures
        unsigned_value(decimal(n), 10) == Some(n),
{
    lemma_decimal_value(n);
    assert(digit_value(decimal(n)[0], 10) is Some);
}

/// Appends the decimal numeral of `n`.
pub fn push_decimal(s: &mut String, n: u128)
    ensures
        final(s)@ == old(s)@ + decimal(n as nat),
    decreases n,
{
    if n >= 10 {
        push_decimal(s, n / 10);
    }
    let d: u8 = (n % 10) as u8;
    s.push((48 + d) as char);
    assert(s@ =~= old(s)@ + decimal(n as nat));
}

/// The decimal numeral of `n`.
pub fn decimal_text(n: u128) -> (res: String)
    ensures
        res@ == decimal(n as nat),
{
    let mut s = String::new();
    push_decimal(&mut s, n);
    assert(s@ =~= decimal(n as nat));
    s
}

/// The decimal numeral of a signed `n`.
pub fn signed_decimal_text(n: i64) -> (res: String)
    ensures
        res@ == signed_decimal(n as int),
{
    let mut s = String::new();
    if n < 0 {
        s.push('-');
        let magnitude: u128 = (-(n as i128)) as u128;
        push_decimal(&mut s, magnitude);
    } else {
        push_decimal(&mut s, n as u128);
    }
    assert(s@ =~= signed_decimal(n as int));
    s
}

/// The number that a signed decimal numeral denotes: an optional sign, then at
/// least one digit.
pub open spec fn signed_value(s: Seq<char>) -> Option<int> {
    if s.len() > 0 && s[0] == '-' {
        let digits = s.drop_first();
        if digits.len() > 0 && all_digits(digits, 10) {
            Some(-(digits_value(digits, 10) as int))
        } else {
            None
        }
    } else {
        match unsigned_value(s, 10) {
            Some(n) => Some(n as int),
            None => None,
        }
    }
}

/// What [`str::parse`] says about a text that is no `i64`.
pub uninterp spec fn no_i64_text(s: Seq<char>) -> Seq<char>;

/// Calls [`str::parse`] for an `i64`. A text is accepted if and only if it is an
/// optional sign, then decimal digits, and the number fits; the result is that
/// number. The message of the error is a function of the text.
#[verifier::external_body]
pub(crate) fn parse_i64(s: &str) -> (res: Result<i64, String>)
    ensures
        match res {
            Ok(n) => signed_value(s@) == Some(n as int),
            Err(message) => message@ == no_i64_text(s@) && !(signed_value(s@) matches Some(n)
                && i64::MIN <= n <= i64::MAX),
        },
{
    s.parse::<i64>().map_err(|err| err.to_string())
}

/// Reading a signed decimal numeral gives back the number it was written for.
pub proof fn lemma_signed_reads_back(n: int)
    ensures
        signed_value(signed_decimal(n)) == Some(n),
{
    if n < 0 {
        lemma_decimal_value((-n) as nat);
        assert(signed_decimal(n).drop_first() =~= decimal((-n) as nat));
    } else {
        lemma_decimal_value(n as nat);
        lemma_decimal_reads_back(n as nat);
        assert(digit_value(decimal(n as nat)[0], 10) is Some);
    }
}

// ---------------------------------------------------------------------------
// Hexadecimal
// ---------------------------------------------------------------------------

/// The hexadecimal digit for `d`, in upper or lower case.
pub open spec fn hex_char(d: nat, upper: bool) -> char {
    if d < 10 {
        ('0' as int + d) as char
    } else if upper {
        ('A' as int + d - 10) as char
    } else {
        ('a' as int + d - 10) as char
    }
}

/// The last `width` hexadecimal digits of `n`, padded with zeros.
pub open spec fn hex_padded(n: nat, width: nat, upper: bool) -> Seq<char>
    decreases width,
{
    if width == 0 {
        Seq::empty()
    } else {
        hex_padded(n / 16, (width - 1) as nat, upper).push(hex_char(n % 16, upper))
    }
}

/// `16` to the power `width`.
pub open spec fn hex_bound(width: nat) -> nat
    decreases width,
{
    if width == 0 {
        1
    } else {
        16 * hex_bound((width - 1) as nat)
    }
}

/// Padded digits denote the number they were written for, where it fits.
pub proof fn lemma_hex_padded_value(n: nat, width: nat, upper: bool)
    ensures
        hex_padded(n, width, upper).len() == width,
        all_digits(hex_padded(n, width, upper), 16),
        n < hex_bound(width) ==> digits_value(hex_padded(n, width, upper), 16) == n,
    decreases width,
{
    if width > 0 {
        let w = (width - 1) as nat;
        let s = hex_padded(n, width, upper);
        lemma_hex_padded_value(n / 16, w, upper);
        assert(s.drop_last() =~= hex_padded(n / 16, w, upper));
        assert(digit_value(hex_char(n % 16, upper), 16) == Some((n % 16) as nat));
        assert forall|i: int| 0 <= i < s.len() implies digit_value(#[trigger] s[i], 16) is Some by {
            if i < w {
                assert(s[i] == hex_padded(n / 16, w, upper)[i]);
            }
        }
    }
}

/// Padded digits can be written in two groups.
pub proof fn lemma_hex_padded_split(n: nat, high: nat, low: nat, upper: bool)
    ensures
        hex_padded(n, high + low, upper) == hex_padded(n / hex_bound(low), high, upper)
            + hex_padded(n, low, upper),
    decreases low,
{
    let joined = hex_padded(n / hex_bound(low), high, upper) + hex_padded(n, low, upper);
    if low == 0 {
        assert(n / 1 == n);
        assert(hex_padded(n, high + low, upper) =~= joined);
    } else {
        let l = (low - 1) as nat;
        lemma_hex_padded_split(n / 16, high, l, upper);
        lemma_hex_bound_positive(l);
        assert(n / hex_bound(low) == (n / 16) / hex_bound(l)) by {
            vstd::arithmetic::div_mod::lemma_div_denominator(n as int, 16, hex_bound(l) as int);
        }
        assert((high + low - 1) as nat == high + l);
        assert(hex_padded(n, high + low, upper) =~= joined);
    }
}

pub proof fn lemma_hex_bound_positive(width: nat)
    ensures
        hex_bound(width) > 0,
    decreases width,
{
    if width > 0 {
        lemma_hex_bound_positive((width - 1) as nat);
    }
}

/// Appends the two hexadecimal digits of a byte, in upper case.
pub fn push_hex_byte(s: &mut String, b: u8)
    ensures
        final(s)@ == old(s)@ + hex_padded(b as nat, 2, true),
{
    let high = hex_digit(b / 16);
    let low = hex_digit(b % 16);
    s.push(high);
    s.push(low);
    proof {
        reveal_with_fuel(hex_padded, 3);
        assert((b as nat / 16) % 16 == b as nat / 16);
        assert(s@ =~= old(s)@ + hex_padded(b as nat, 2, true));
    }
}

fn hex_digit(d: u8) -> (res: char)
    requires
        d < 16,
    ensures
        res == hex_char(d as nat, true),
{
    if d < 10 {
        (48 + d) as char
    } else {
        (55 + d) as char
    }
}

// ---------------------------------------------------------------------------
// Single-precision numbers
// ---------------------------------------------------------------------------

/// An IEEE 754 binary32 encoding without its sign.
pub open spec fn magnitude(bits: u32) -> int {
    bits as int % 0x8000_0000
}

/// Whether two IEEE 754 binary32 encodings denote equal numbers: neither is a
/// NaN, and they have the same bits or are both zero.
pub open spec fn equal_singles(a: u32, b: u32) -> bool {
    &&& magnitude(a) <= 0x7f80_0000
    &&& magnitude(b) <= 0x7f80_0000
    &&& a == b || (magnitude(a) == 0 && magnitude(b) == 0)
}

/// Whether two IEEE 754 binary32 encodings denote equal numbers.
pub fn same_single(a: u32, b: u32) -> (res: bool)
    ensures
        res == equal_singles(a, b),
{
    let a0: u32 = a % 0x8000_0000;
    let b0: u32 = b % 0x8000_0000;
    a0 <= 0x7f80_0000 && b0 <= 0x7f80_0000 && (a == b || (a0 == 0 && b0 == 0))
}

} // verus!
