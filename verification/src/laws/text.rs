//! What holds of text, numerals, times and identifiers.

use vstd::prelude::*;
use vstd::string::*;

use crate::id::{
    AttachmentId, BufferId, ChatId, PaneId, PermissionGrantId, SessionId, TerminalPaneId, TurnId,
    WorkspaceId,
};
use crate::numeral;
use crate::text;
use crate::time::{Duration, Timestamp};

verus! {

// ---------------------------------------------------------------------------
// Text
// ---------------------------------------------------------------------------

/// Text is compared character by character.
pub proof fn law_same_text_is_equality(a: &str, b: &str, v: Vec<char>, same: bool, spelled: bool)
    requires
        call_ensures(text::same_text, (a, b), same),
        call_ensures(text::chars_of, (a,), v),
        call_ensures(text::spells, (&v, b), spelled),
    ensures
        same <==> a@.len() == b@.len() && forall|i: int| 0 <= i < a@.len() ==> a@[i] == b@[i],
        spelled == same,
        v@ == a@,
{
    if a@.len() == b@.len() && forall|i: int| 0 <= i < a@.len() ==> a@[i] == b@[i] {
        assert(a@ =~= b@);
    }
}

/// Among ASCII characters those that leave a gap are white space: tab, line feed, vertical
/// tab, form feed, carriage return and space. Beyond ASCII there are the next-line
/// character, the no-break spaces, the fixed-width spaces and the two separators.
pub proof fn law_white_space(c: char, res: bool)
    requires
        call_ensures(text::space, (c,), res),
    ensures
        ({
            let code = c as int;
            &&& code < 0x80 ==> (res <==> code == 9 || code == 10 || code == 11 || code == 12
                || code == 13 || code == 32)
            &&& 0x80 <= code < 0x2000 ==> (res <==> code == 0x85 || code == 0xa0 || code == 0x1680)
            &&& 0x2000 <= code <= 0x200a ==> res
            &&& 0x200a < code ==> (res <==> code == 0x2028 || code == 0x2029 || code == 0x202f
                || code == 0x205f || code == 0x3000)
        }),
{
}

/// Whether every character is white space.
pub open spec fn is_blank(s: Seq<char>) -> bool {
    forall|i: int| 0 <= i < s.len() ==> text::is_space(#[trigger] s[i])
}

proof fn lemma_trimmed_start(s: Seq<char>) -> (n: int)
    ensures
        0 <= n <= s.len(),
        text::trimmed_start(s) == s.skip(n),
        is_blank(s.take(n)),
        n < s.len() ==> !text::is_space(s[n]),
    decreases s.len(),
{
    if s.len() > 0 && text::is_space(s[0]) {
        let rest = s.drop_first();
        let m = lemma_trimmed_start(rest);
        assert(rest.skip(m) =~= s.skip(m + 1));
        assert forall|i: int| 0 <= i < m + 1 implies text::is_space(
            #[trigger] s.take(m + 1)[i],
        ) by {
            if i > 0 {
                assert(rest.take(m)[i - 1] == s[i]);
            }
        }
        m + 1
    } else {
        assert(s.skip(0) =~= s);
        0
    }
}

proof fn lemma_trimmed_end(s: Seq<char>) -> (n: int)
    ensures
        0 <= n <= s.len(),
        text::trimmed_end(s) == s.take(n),
        is_blank(s.skip(n)),
        n > 0 ==> !text::is_space(s[n - 1]),
    decreases s.len(),
{
    if s.len() > 0 && text::is_space(s.last()) {
        let rest = s.drop_last();
        let n = lemma_trimmed_end(rest);
        assert(rest.take(n) =~= s.take(n));
        assert forall|i: int| 0 <= i < s.len() - n implies text::is_space(
            #[trigger] s.skip(n)[i],
        ) by {
            if i < rest.len() - n {
                assert(rest.skip(n)[i] == s[n + i]);
            }
        }
        n
    } else {
        assert(s.take(s.len() as int) =~= s);
        s.len() as int
    }
}

/// Trimming takes white space off both ends, all of it and nothing else.
pub proof fn law_trim_takes_the_ends(v: Vec<char>, res: Vec<char>)
    requires
        call_ensures(text::trim, (&v,), res),
    ensures
        exists|front: Seq<char>, back: Seq<char>|
            v@ == #[trigger] (front + res@ + back) && is_blank(front) && is_blank(back),
        res@.len() > 0 ==> !text::is_space(res@[0]) && !text::is_space(res@.last()),
{
    let n = lemma_trimmed_start(v@);
    let rest = v@.skip(n);
    let m = lemma_trimmed_end(rest);
    let front = v@.take(n);
    let back = rest.skip(m);
    assert(v@ =~= front + res@ + back);
    assert(is_blank(front) && is_blank(back));
}

/// The pieces with the separator between them.
pub open spec fn joined(pieces: Seq<Seq<char>>, sep: char) -> Seq<char>
    decreases pieces.len(),
{
    if pieces.len() == 0 {
        Seq::empty()
    } else if pieces.len() == 1 {
        pieces[0]
    } else {
        joined(pieces.drop_last(), sep) + seq![sep] + pieces.last()
    }
}

proof fn lemma_joined_grows(pieces: Seq<Seq<char>>, sep: char, c: char)
    requires
        pieces.len() > 0,
    ensures
        joined(pieces.drop_last().push(pieces.last().push(c)), sep) == joined(pieces, sep).push(c),
        joined(pieces.push(Seq::empty()), sep) == joined(pieces, sep).push(sep),
{
    let longer = pieces.drop_last().push(pieces.last().push(c));
    assert(longer.drop_last() =~= pieces.drop_last());
    if pieces.len() > 1 {
        assert(joined(longer, sep) =~= joined(pieces, sep).push(c));
    } else {
        assert(longer[0] == pieces[0].push(c));
    }
    assert(pieces.push(Seq::empty()).drop_last() =~= pieces);
    assert(joined(pieces.push(Seq::empty()), sep) =~= joined(pieces, sep).push(sep));
}

proof fn lemma_split_joins(s: Seq<char>, sep: char)
    ensures
        joined(text::split_on(s, sep), sep) == s,
    decreases s.len(),
{
    text::lemma_split_on_nonempty(s, sep);
    if s.len() > 0 {
        let head = text::split_on(s.drop_last(), sep);
        text::lemma_split_on_nonempty(s.drop_last(), sep);
        lemma_split_joins(s.drop_last(), sep);
        lemma_joined_grows(head, sep, s.last());
        assert(s.drop_last().push(s.last()) =~= s);
    } else {
        assert(s =~= Seq::empty());
    }
}

/// The pieces that text is split into hold no separator, and make the text again with
/// separators between them.
pub proof fn law_split_pieces_make_the_text(v: Vec<char>, sep: char, res: Vec<Vec<char>>, i: int)
    requires
        call_ensures(text::split, (&v, sep), res),
    ensures
        joined(text::texts(res@), sep) == v@,
        res@.len() > 0,
        0 <= i < res@.len() ==> !res@[i]@.contains(sep),
{
    lemma_split_joins(v@, sep);
    if 0 <= i < res@.len() {
        text::lemma_split_on_pieces(v@, sep, i);
        assert(text::texts(res@)[i] == res@[i]@);
    }
}

proof fn lemma_cut_first(s: Seq<char>, sep: char)
    ensures
        match text::cut_first(s, sep) {
            Some((before, after)) => s == before + seq![sep] + after && !before.contains(sep),
            None => !s.contains(sep),
        },
    decreases s.len(),
{
    if s.contains(sep) {
        let i = s.index_of_first(sep)->0;
        s.index_of_first_ensures(sep);
        let before = s.take(i);
        let after = s.skip(i + 1);
        assert(s =~= before + seq![sep] + after);
        assert(!before.contains(sep)) by {
            if before.contains(sep) {
                let k = choose|k: int| 0 <= k < before.len() && before[k] == sep;
                assert(s[k] == sep);
            }
        }
        text::lemma_cut_first_joined(before, sep, after);
    } else {
        text::lemma_cut_first_absent(s, sep);
    }
}

proof fn lemma_cut_last(s: Seq<char>, sep: char)
    ensures
        match text::cut_last(s, sep) {
            Some((before, after)) => s == before + seq![sep] + after && !after.contains(sep),
            None => !s.contains(sep),
        },
    decreases s.len(),
{
    if s.len() > 0 {
        lemma_cut_last(s.drop_last(), sep);
        let front = s.drop_last();
        match text::cut_last(s, sep) {
            Some((before, after)) => {
                assert(front.push(s.last()) =~= s);
                if s.last() == sep {
                    assert(s =~= before + seq![sep] + after);
                } else {
                    let (b0, a0) = text::cut_last(front, sep).unwrap();
                    assert(front == b0 + seq![sep] + a0);
                    assert((b0 + seq![sep] + a0).push(s.last()) =~= b0 + seq![sep] + a0.push(
                        s.last(),
                    ));
                    assert forall|k: int| 0 <= k < after.len() implies after[k] != sep by {
                        if k < a0.len() {
                            assert(a0.contains(a0[k]));
                        }
                    }
                }
            },
            None => {
                if s.contains(sep) {
                    let k = choose|k: int| 0 <= k < s.len() && s[k] == sep;
                    assert(front[k] == sep);
                }
            },
        }
    }
}

/// Text is cut where the separator stands: at its first place what comes before holds none,
/// at its last place what comes after. Text without it is not cut.
pub proof fn law_cuts_are_at_the_separator(
    v: Vec<char>,
    sep: char,
    first: Option<(Vec<char>, Vec<char>)>,
    last: Option<(Vec<char>, Vec<char>)>,
)
    requires
        call_ensures(text::cut_at_first, (&v, sep), first),
        call_ensures(text::cut_at_last, (&v, sep), last),
    ensures
        first is Some <==> v@.contains(sep),
        last is Some <==> v@.contains(sep),
        first matches Some((before, after)) ==> v@ == before@ + seq![sep] + after@
            && !before@.contains(sep),
        last matches Some((before, after)) ==> v@ == before@ + seq![sep] + after@
            && !after@.contains(sep),
{
    lemma_cut_first(v@, sep);
    lemma_cut_last(v@, sep);
    if let Some((before, after)) = first {
        assert(v@[before@.len() as int] == sep);
    }
    if let Some((before, after)) = last {
        assert(v@[before@.len() as int] == sep);
    }
}

/// Text begins with a prefix where something makes it the text when put behind, and ends
/// with a suffix where something does when put before.
pub proof fn law_prefixes_and_suffixes(
    v: Vec<char>,
    part: &str,
    begins: bool,
    ends: bool,
)
    requires
        call_ensures(text::begins_with, (&v, part), begins),
        call_ensures(text::ends_with, (&v, part), ends),
    ensures
        begins <==> exists|rest: Seq<char>| v@ == #[trigger] (part@ + rest),
        ends <==> exists|rest: Seq<char>| v@ == #[trigger] (rest + part@),
{
    let n = part@.len() as int;
    if begins {
        assert(v@ =~= part@ + v@.skip(n));
    }
    if exists|rest: Seq<char>| v@ == #[trigger] (part@ + rest) {
        let rest = choose|rest: Seq<char>| v@ == #[trigger] (part@ + rest);
        assert(v@.take(n) =~= part@);
    }
    if ends {
        assert(v@ =~= v@.take(v@.len() - n) + part@);
    }
    if exists|rest: Seq<char>| v@ == #[trigger] (rest + part@) {
        let rest = choose|rest: Seq<char>| v@ == #[trigger] (rest + part@);
        assert(v@.skip(v@.len() - n) =~= part@);
    }
}

/// Lower-casing moves the ASCII capitals to the small letters in the same place of the
/// alphabet, and leaves everything else.
pub proof fn law_lower_case(v: Vec<char>, res: Vec<char>, i: int, c: char, low: char)
    requires
        call_ensures(text::lower, (&v,), res),
        call_ensures(text::lower_char, (c,), low),
        0 <= i < v@.len(),
    ensures
        res@.len() == v@.len(),
        v@[i] == c ==> res@[i] == low,
        0x41 <= c as int <= 0x5a ==> low as int - 0x61 == c as int - 0x41,
        !(0x41 <= c as int <= 0x5a) ==> low == c,
{
}

// ---------------------------------------------------------------------------
// Numerals
// ---------------------------------------------------------------------------

/// The number that decimal digits denote, most significant first.
pub open spec fn number(s: Seq<char>) -> int
    decreases s.len(),
{
    if s.len() == 0 {
        0
    } else {
        10 * number(s.drop_last()) + (s.last() as int - 0x30)
    }
}

/// Whether every character is a decimal digit.
pub open spec fn is_digits(s: Seq<char>) -> bool {
    forall|i: int| 0 <= i < s.len() ==> 0x30 <= #[trigger] s[i] as int <= 0x39
}

proof fn lemma_decimal(n: nat)
    ensures
        numeral::decimal(n).len() > 0,
        is_digits(numeral::decimal(n)),
        number(numeral::decimal(n)) == n,
        n > 0 ==> numeral::decimal(n)[0] as int > 0x30,
        n == 0 ==> numeral::decimal(n).len() == 1,
    decreases n,
{
    let s = numeral::decimal(n);
    if n < 10 {
        assert(s.drop_last() =~= Seq::<char>::empty());
        assert(number(s.drop_last()) == 0);
    } else {
        lemma_decimal(n / 10);
        assert(s.drop_last() =~= numeral::decimal(n / 10));
        assert forall|i: int| 0 <= i < s.len() implies 0x30 <= #[trigger] s[i] as int <= 0x39 by {
            if i < s.len() - 1 {
                assert(s[i] == numeral::decimal(n / 10)[i]);
            }
        }
        assert(s[0] == numeral::decimal(n / 10)[0]);
    }
}

/// A number is written in decimal digits that denote it, without leading zeros; a negative
/// one behind a minus sign.
pub proof fn law_decimal_denotes_its_number(
    n: u128,
    written: String,
    m: i64,
    signed: String,
)
    requires
        call_ensures(numeral::decimal_text, (n,), written),
        call_ensures(numeral::signed_decimal_text, (m,), signed),
    ensures
        is_digits(written@),
        number(written@) == n,
        written@.len() > 0,
        written@.len() > 1 ==> written@[0] as int != 0x30,
        m >= 0 ==> is_digits(signed@) && number(signed@) == m && signed@.len() > 0,
        m < 0 ==> signed@.len() > 1 && signed@[0] == '-' && is_digits(signed@.skip(1)) && number(
            signed@.skip(1),
        ) == -m,
{
    lemma_decimal(n as nat);
    if m >= 0 {
        lemma_decimal(m as nat);
    } else {
        lemma_decimal((-m) as nat);
        assert(signed@.skip(1) =~= numeral::decimal((-m) as nat));
    }
}

proof fn lemma_digits_are_read(s: Seq<char>)
    ensures
        numeral::all_digits(s, 10) <==> is_digits(s),
        is_digits(s) ==> numeral::digits_value(s, 10) == number(s),
    decreases s.len(),
{
    if s.len() > 0 {
        lemma_digits_are_read(s.drop_last());
        assert forall|i: int| 0 <= i < s.len() implies (numeral::digit_value(
            #[trigger] s[i],
            10,
        ) is Some <==> 0x30 <= s[i] as int <= 0x39) by {}
        if is_digits(s) {
            assert forall|i: int| 0 <= i < s.drop_last().len() implies 0x30
                <= #[trigger] s.drop_last()[i] as int <= 0x39 by {
                assert(s[i] == s.drop_last()[i]);
            }
            assert(numeral::digit_value(s.last(), 10) == Some((s.last() as int - 0x30) as nat));
        }
        if numeral::all_digits(s, 10) {
            assert forall|i: int| 0 <= i < s.len() implies 0x30 <= #[trigger] s[i] as int
                <= 0x39 by {
                assert(numeral::digit_value(s[i], 10) is Some);
            }
        }
    }
}

/// A decimal numeral is read where it is digits, with at most a plus sign before them, and
/// denotes no more than the limit; what is read is what it denotes.
pub proof fn law_unsigned_numerals_are_read(v: Vec<char>, max: u64, res: Option<u64>)
    requires
        call_ensures(numeral::parse_unsigned, (&v, 10, max), res),
    ensures
        ({
            let digits = if v@.len() > 0 && v@[0] == '+' {
                v@.skip(1)
            } else {
                v@
            };
            let good = digits.len() > 0 && is_digits(digits) && number(digits) <= max;
            &&& res is Some <==> good
            &&& res matches Some(n) ==> n == number(digits)
        }),
{
    let digits = if v@.len() > 0 && v@[0] == '+' {
        v@.skip(1)
    } else {
        v@
    };
    if v@.len() > 0 {
        assert(v@.skip(1) =~= v@.drop_first());
    }
    lemma_digits_are_read(digits);
}

/// A digit stands for its place: `0` to `9`, then the letters, whatever their case, as far
/// as the base goes.
pub proof fn law_digits_stand_for_their_place(c: char, radix: u64, res: Option<u64>)
    requires
        radix <= 36,
        call_ensures(numeral::digit, (c, radix), res),
    ensures
        ({
            let code = c as int;
            let place = if 0x30 <= code <= 0x39 {
                code - 0x30
            } else if 0x61 <= code <= 0x7a {
                code - 0x61 + 10
            } else if 0x41 <= code <= 0x5a {
                code - 0x41 + 10
            } else {
                36
            };
            &&& res is Some <==> place < radix
            &&& res matches Some(d) ==> d == place
        }),
{
}

/// A byte is written as two hexadecimal digits in upper case, the high one first.
pub proof fn law_hex_bytes(s: &mut String, b: u8, high: Option<u64>, low: Option<u64>)
    requires
        call_ensures(numeral::push_hex_byte, (s, b), ()),
        final(s)@.len() == old(s)@.len() + 2 ==> call_ensures(
            numeral::digit,
            (final(s)@[old(s)@.len() as int], 16),
            high,
        ) && call_ensures(numeral::digit, (final(s)@[old(s)@.len() as int + 1], 16), low),
    ensures
        final(s)@.len() == old(s)@.len() + 2,
        final(s)@.take(old(s)@.len() as int) == old(s)@,
        high matches Some(h) && low matches Some(l) && 16 * h + l == b,
        !(0x61 <= final(s)@[old(s)@.len() as int] as int <= 0x7a),
        !(0x61 <= final(s)@[old(s)@.len() as int + 1] as int <= 0x7a),
{
    reveal_with_fuel(numeral::hex_padded, 3);
    assert(final(s)@.take(old(s)@.len() as int) =~= old(s)@);
    let n = b as nat;
    assert((n / 16) % 16 == n / 16);
    let pair = numeral::hex_padded(n, 2, true);
    assert(pair.len() == 2);
    assert(pair[0] == numeral::hex_char((n / 16) % 16, true));
    assert(pair[1] == numeral::hex_char(n % 16, true));
    assert(final(s)@[old(s)@.len() as int] == pair[0]);
    assert(final(s)@[old(s)@.len() as int + 1] == pair[1]);
    assert(16 * (n / 16) + n % 16 == n);
}

// ---------------------------------------------------------------------------
// Times and identifiers
// ---------------------------------------------------------------------------

/// A second is a thousand milliseconds and a billion nanoseconds.
pub proof fn law_durations_scale(secs: u64, millis: u64, a: Duration, b: Duration, none: Duration)
    requires
        call_ensures(Duration::from_secs, (secs,), a),
        call_ensures(Duration::from_millis, (millis,), b),
        call_ensures(Duration::zero, (), none),
    ensures
        a.nanos == 1_000_000_000 * secs,
        1_000 * b.nanos == 1_000_000_000 * millis,
        millis == 1000 * secs ==> a == b,
        none.nanos == 0,
{
}

/// An instant keeps the seconds and nanoseconds that it is made of, and the epoch is where
/// both are zero.
pub proof fn law_instants_keep_their_parts(
    secs: i64,
    nanos: u32,
    t: Timestamp,
    read_secs: i64,
    read_nanos: u32,
    epoch: Timestamp,
)
    requires
        call_ensures(Timestamp::from_timestamp, (secs, nanos), Some(t)),
        call_ensures(Timestamp::timestamp, (&t,), read_secs),
        call_ensures(Timestamp::subsec_nanos, (&t,), read_nanos),
        call_ensures(Timestamp::unix_epoch, (), epoch),
    ensures
        read_secs == secs,
        read_nanos == nanos,
        epoch.secs() == 0 && epoch.nanos() == 0,
{
}

/// The time between two instants that are no leap seconds is the difference of their
/// seconds and nanoseconds, or none at all where the later one is given as the earlier.
pub proof fn law_time_between_instants(t: Timestamp, earlier: Timestamp, res: Duration)
    requires
        call_ensures(Timestamp::saturating_since, (&t, &earlier), res),
        t.nanos() < 1_000_000_000,
        earlier.nanos() < 1_000_000_000,
    ensures
        ({
            let between = (t.secs() - earlier.secs()) * 1_000_000_000 + (t.nanos()
                - earlier.nanos());
            &&& between >= 0 ==> res.nanos == between
            &&& between < 0 ==> res.nanos == 0
        }),
{
}

/// Every kind of identifier keeps its UUID.
pub proof fn law_identifiers_keep_their_uuid(
    uuid: u128,
    workspace: WorkspaceId,
    chat: ChatId,
    turn: TurnId,
    buffer: BufferId,
    terminal: TerminalPaneId,
    pane: PaneId,
    session: SessionId,
    attachment: AttachmentId,
    grant: PermissionGrantId,
    read: Seq<&u128>,
)
    requires
        read.len() == 9,
        call_ensures(WorkspaceId::from_uuid, (uuid,), workspace),
        call_ensures(WorkspaceId::as_uuid, (&workspace,), read[0]),
        call_ensures(ChatId::from_uuid, (uuid,), chat),
        call_ensures(ChatId::as_uuid, (&chat,), read[1]),
        call_ensures(TurnId::from_uuid, (uuid,), turn),
        call_ensures(TurnId::as_uuid, (&turn,), read[2]),
        call_ensures(BufferId::from_uuid, (uuid,), buffer),
        call_ensures(BufferId::as_uuid, (&buffer,), read[3]),
        call_ensures(TerminalPaneId::from_uuid, (uuid,), terminal),
        call_ensures(TerminalPaneId::as_uuid, (&terminal,), read[4]),
        call_ensures(PaneId::from_uuid, (uuid,), pane),
        call_ensures(PaneId::as_uuid, (&pane,), read[5]),
        call_ensures(SessionId::from_uuid, (uuid,), session),
        call_ensures(SessionId::as_uuid, (&session,), read[6]),
        call_ensures(AttachmentId::from_uuid, (uuid,), attachment),
        call_ensures(AttachmentId::as_uuid, (&attachment,), read[7]),
        call_ensures(PermissionGrantId::from_uuid, (uuid,), grant),
        call_ensures(PermissionGrantId::as_uuid, (&grant,), read[8]),
    ensures
        forall|i: int| 0 <= i < 9 ==> *#[trigger] read[i] == uuid,
{
    assert forall|i: int| 0 <= i < 9 implies *#[trigger] read[i] == uuid by {
        assert(i == 0 || i == 1 || i == 2 || i == 3 || i == 4 || i == 5 || i == 6 || i == 7 || i
            == 8);
    }
}

} // verus!
