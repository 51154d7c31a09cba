//! Text as sequences of characters: trimming, splitting and case folding.

use vstd::prelude::*;
use vstd::string::*;

verus! {

/// `String::push` appends one character to the end of the string.
pub assume_specification[ String::push ](s: &mut String, c: char)
    ensures
        final(s)@ == old(s)@.push(c),
;

/// How `{:?}` renders a string: quoted, with the escapes that std chooses.
pub uninterp spec fn debug_quoted(s: Seq<char>) -> Seq<char>;

/// Calls std's `Debug` formatting of `str`. The rendering is a function of the
/// text alone; which characters it escapes is left to std.
#[verifier::external_body]
pub(crate) fn debug_text(s: &str) -> (res: String)
    ensures
        res@ == debug_quoted(s@),
{
    format!("{:?}", s)
}

// ---------------------------------------------------------------------------
// Characters and strings
// ---------------------------------------------------------------------------

/// The characters of a string slice, in order.
pub fn chars_of(s: &str) -> (v: Vec<char>)
    ensures
        v@ == s@,
{
    let mut v: Vec<char> = Vec::new();
    for c in it: s.chars()
        invariant
            v@ == it.seq().take(it.index()),
            it.seq() == s@,
    {
        v.push(c);
    }
    v
}

/// The string made of a sequence of characters.
pub fn string_of(v: &Vec<char>) -> (s: String)
    ensures
        s@ == v@,
{
    let mut s = String::new();
    for i in 0..v.len()
        invariant
            s@ == v@.take(i as int),
    {
        s.push(v[i]);
    }
    s
}

/// The characters from `from` up to, not including, `to`.
pub fn slice_of(v: &Vec<char>, from: usize, to: usize) -> (res: Vec<char>)
    requires
        from <= to <= v@.len(),
    ensures
        res@ == v@.subrange(from as int, to as int),
{
    let mut res: Vec<char> = Vec::new();
    for i in from..to
        invariant
            from <= to <= v@.len(),
            res@ == v@.subrange(from as int, i as int),
    {
        res.push(v[i]);
    }
    res
}

/// Whether the characters `v` spell out `s`.
pub fn spells(v: &Vec<char>, s: &str) -> (res: bool)
    ensures
        res == (v@ == s@),
{
    let w = chars_of(s);
    if v.len() != w.len() {
        return false;
    }
    for i in 0..v.len()
        invariant
            v@.len() == w@.len(),
            w@ == s@,
            forall|j: int| 0 <= j < i ==> v@[j] == w@[j],
    {
        if v[i] != w[i] {
            return false;
        }
    }
    assert(v@ =~= w@);
    true
}

/// Whether two strings hold the same text.
pub fn same_text(a: &str, b: &str) -> (res: bool)
    ensures
        res == (a@ == b@),
{
    let v = chars_of(a);
    spells(&v, b)
}

/// The text of an optional string.
pub open spec fn optional(s: Option<String>) -> Option<Seq<char>> {
    match s {
        Some(s) => Some(s@),
        None => None,
    }
}

/// The texts held by a sequence of character vectors.
pub open spec fn texts(v: Seq<Vec<char>>) -> Seq<Seq<char>> {
    v.map_values(|p: Vec<char>| p@)
}

pub proof fn lemma_texts_push(v: Seq<Vec<char>>, p: Vec<char>)
    ensures
        texts(v.push(p)) == texts(v).push(p@),
{
    assert(texts(v.push(p)) =~= texts(v).push(p@));
}

// ---------------------------------------------------------------------------
// Trimming
// ---------------------------------------------------------------------------

/// The characters with Unicode's `White_Space` property.
pub open spec fn is_space(c: char) -> bool {
    ||| '\u{9}' <= c <= '\u{d}'
    ||| c == '\u{20}'
    ||| c == '\u{85}'
    ||| c == '\u{a0}'
    ||| c == '\u{1680}'
    ||| '\u{2000}' <= c <= '\u{200a}'
    ||| c == '\u{2028}'
    ||| c == '\u{2029}'
    ||| c == '\u{202f}'
    ||| c == '\u{205f}'
    ||| c == '\u{3000}'
}

/// Whether `c` is white space in Unicode's sense.
pub fn space(c: char) -> (res: bool)
    ensures
        res == is_space(c),
{
    ('\u{9}' <= c && c <= '\u{d}') || c == '\u{20}' || c == '\u{85}' || c == '\u{a0}'
        || c == '\u{1680}' || ('\u{2000}' <= c && c <= '\u{200a}') || c == '\u{2028}'
        || c == '\u{2029}' || c == '\u{202f}' || c == '\u{205f}' || c == '\u{3000}'
}

/// `s` without its leading white space.
pub open spec fn trimmed_start(s: Seq<char>) -> Seq<char>
    decreases s.len(),
{
    if s.len() > 0 && is_space(s[0]) {
        trimmed_start(s.drop_first())
    } else {
        s
    }
}

/// `s` without its trailing white space.
pub open spec fn trimmed_end(s: Seq<char>) -> Seq<char>
    decreases s.len(),
{
    if s.len() > 0 && is_space(s.last()) {
        trimmed_end(s.drop_last())
    } else {
        s
    }
}

/// `s` without its leading and trailing white space.
pub open spec fn trimmed(s: Seq<char>) -> Seq<char> {
    trimmed_end(trimmed_start(s))
}

/// Removes leading and trailing white space.
pub fn trim(v: &Vec<char>) -> (res: Vec<char>)
    ensures
        res@ == trimmed(v@),
{
    let mut from: usize = 0;
    assert(v@.skip(0) =~= v@);
    while from < v.len() && space(v[from])
        invariant
            from <= v@.len(),
            trimmed_start(v@.skip(from as int)) == trimmed_start(v@),
        decreases v@.len() - from,
    {
        assert(v@.skip(from as int).drop_first() =~= v@.skip(from + 1));
        from = from + 1;
    }
    assert(trimmed_start(v@) == v@.skip(from as int));
    let mut to: usize = v.len();
    assert(v@.subrange(from as int, to as int) =~= v@.skip(from as int));
    while from < to && space(v[to - 1])
        invariant
            from <= to <= v@.len(),
            trimmed_end(v@.subrange(from as int, to as int)) == trimmed(v@),
        decreases to,
    {
        assert(v@.subrange(from as int, to as int).drop_last() =~= v@.subrange(
            from as int,
            to - 1,
        ));
        to = to - 1;
    }
    slice_of(v, from, to)
}

/// Text that neither starts nor ends with white space is its own trimming.
pub proof fn lemma_trimmed_fixpoint(s: Seq<char>)
    requires
        s.len() > 0 ==> !is_space(s[0]) && !is_space(s.last()),
    ensures
        trimmed(s) == s,
{
}

/// Trimmed text neither starts nor ends with white space, and every character
/// of it stands in the text that was trimmed.
pub proof fn lemma_trimmed_ends(s: Seq<char>)
    ensures
        trimmed(s).len() > 0 ==> !is_space(trimmed(s)[0]) && !is_space(trimmed(s).last()),
        forall|c: char| trimmed(s).contains(c) ==> s.contains(c),
{
    lemma_trimmed_start(s);
    lemma_trimmed_end(trimmed_start(s));
}

proof fn lemma_trimmed_start(s: Seq<char>)
    ensures
        trimmed_start(s).len() > 0 ==> !is_space(trimmed_start(s)[0]),
        forall|c: char| trimmed_start(s).contains(c) ==> s.contains(c),
    decreases s.len(),
{
    if s.len() > 0 && is_space(s[0]) {
        lemma_trimmed_start(s.drop_first());
        assert forall|c: char| s.drop_first().contains(c) implies s.contains(c) by {
            let i = choose|i: int| 0 <= i < s.drop_first().len() && s.drop_first()[i] == c;
            assert(s[i + 1] == c);
        }
    }
}

proof fn lemma_trimmed_end(s: Seq<char>)
    ensures
        trimmed_end(s).len() > 0 ==> !is_space(trimmed_end(s).last()) && trimmed_end(s)[0] == s[0],
        forall|c: char| trimmed_end(s).contains(c) ==> s.contains(c),
    decreases s.len(),
{
    if s.len() > 0 && is_space(s.last()) {
        lemma_trimmed_end(s.drop_last());
        assert forall|c: char| s.drop_last().contains(c) implies s.contains(c) by {
            let i = choose|i: int| 0 <= i < s.drop_last().len() && s.drop_last()[i] == c;
            assert(s[i] == c);
        }
    }
}

// ---------------------------------------------------------------------------
// Splitting
// ---------------------------------------------------------------------------

/// The pieces of `s` between the occurrences of `sep`. There is always at
/// least one piece, and pieces may be empty.
pub open spec fn split_on(s: Seq<char>, sep: char) -> Seq<Seq<char>>
    decreases s.len(),
{
    if s.len() == 0 {
        seq![Seq::empty()]
    } else {
        let head = split_on(s.drop_last(), sep);
        if s.last() == sep {
            head.push(Seq::empty())
        } else {
            head.drop_last().push(head.last().push(s.last()))
        }
    }
}

pub proof fn lemma_split_on_nonempty(s: Seq<char>, sep: char)
    ensures
        split_on(s, sep).len() > 0,
    decreases s.len(),
{
    if s.len() > 0 {
        lemma_split_on_nonempty(s.drop_last(), sep);
    }
}

/// Text without the separator is a single piece.
pub proof fn lemma_split_on_absent(s: Seq<char>, sep: char)
    requires
        !s.contains(sep),
    ensures
        split_on(s, sep) == seq![s],
    decreases s.len(),
{
    if s.len() > 0 {
        assert(s.last() != sep);
        assert forall|c: char| s.drop_last().contains(c) implies s.contains(c) by {
            let i = choose|i: int| 0 <= i < s.drop_last().len() && s.drop_last()[i] == c;
            assert(s[i] == c);
        }
        lemma_split_on_absent(s.drop_last(), sep);
        assert(s.drop_last().push(s.last()) =~= s);
        assert(split_on(s, sep) =~= seq![s]);
    } else {
        assert(s =~= Seq::empty());
    }
}

/// A separator-free `b`, the separator and `a` split into `b` and the pieces of
/// `a`.
pub proof fn lemma_split_on_prefix(b: Seq<char>, sep: char, a: Seq<char>)
    requires
        !b.contains(sep),
    ensures
        split_on(b + seq![sep] + a, sep) == seq![b] + split_on(a, sep),
    decreases a.len(),
{
    let s = b + seq![sep] + a;
    if a.len() == 0 {
        lemma_split_on_absent(b, sep);
        assert(s.drop_last() =~= b);
        assert(a =~= Seq::empty());
        assert(split_on(s, sep) =~= seq![b] + split_on(a, sep));
    } else {
        let a0 = a.drop_last();
        lemma_split_on_prefix(b, sep, a0);
        lemma_split_on_nonempty(a0, sep);
        assert(s.drop_last() =~= b + seq![sep] + a0);
        assert(s.last() == a.last());
        assert(split_on(s, sep) =~= seq![b] + split_on(a, sep));
    }
}

/// No piece holds the separator.
pub proof fn lemma_split_on_pieces(s: Seq<char>, sep: char, i: int)
    requires
        0 <= i < split_on(s, sep).len(),
    ensures
        !split_on(s, sep)[i].contains(sep),
    decreases s.len(),
{
    lemma_split_on_nonempty(s, sep);
    if s.len() > 0 {
        lemma_split_on_nonempty(s.drop_last(), sep);
        let head = split_on(s.drop_last(), sep);
        if i < head.len() {
            lemma_split_on_pieces(s.drop_last(), sep, i);
        }
        if s.last() != sep && i == head.len() - 1 {
            let piece = head.last().push(s.last());
            assert forall|k: int| 0 <= k < piece.len() implies piece[k] != sep by {
                if k < head.last().len() {
                    assert(head.last().contains(head.last()[k]));
                }
            }
        }
    }
}

/// White space at the end of text does not matter to its trimming.
proof fn lemma_trimmed_after_space(s: Seq<char>, c: char)
    requires
        is_space(c),
    ensures
        trimmed(s.push(c)) == trimmed(s),
        trimmed_start(s).len() > 0 ==> trimmed_start(s.push(c)) == trimmed_start(s).push(c),
        trimmed_start(s).len() == 0 ==> trimmed_start(s.push(c)).len() == 0,
    decreases s.len(),
{
    let t = s.push(c);
    if s.len() > 0 && is_space(s[0]) {
        lemma_trimmed_after_space(s.drop_first(), c);
        assert(t.drop_first() =~= s.drop_first().push(c));
    } else if s.len() > 0 {
        assert(t.drop_last() =~= s);
    } else {
        assert(t.drop_first() =~= Seq::<char>::empty());
        assert(trimmed_start(t) == trimmed_start(t.drop_first()));
        assert(s =~= Seq::<char>::empty());
    }
}

/// A character that is no separator joins the first piece of what follows it.
proof fn lemma_split_on_front(c: char, s: Seq<char>, sep: char)
    requires
        c != sep,
    ensures
        split_on(s, sep).len() > 0,
        split_on(seq![c] + s, sep) == split_on(s, sep).update(0, seq![c] + split_on(s, sep)[0]),
    decreases s.len(),
{
    let t = seq![c] + s;
    lemma_split_on_nonempty(s, sep);
    if s.len() == 0 {
        assert(t.drop_last() =~= Seq::<char>::empty());
        assert(s =~= Seq::<char>::empty());
        assert(Seq::<char>::empty().push(c) =~= seq![c] + Seq::<char>::empty());
        assert(split_on(t, sep) =~= split_on(s, sep).update(0, seq![c] + split_on(s, sep)[0]));
    } else {
        lemma_split_on_front(c, s.drop_last(), sep);
        assert(t.drop_last() =~= seq![c] + s.drop_last());
        assert(t.last() == s.last());
        let head = split_on(s.drop_last(), sep);
        if s.last() != sep && head.len() == 1 {
            assert((seq![c] + head[0]).push(s.last()) =~= seq![c] + head[0].push(s.last()));
        }
        assert(split_on(t, sep) =~= split_on(s, sep).update(0, seq![c] + split_on(s, sep)[0]));
    }
}

/// Trimming text before it is split does not matter to its trimmed pieces.
pub proof fn lemma_split_trimmed(s: Seq<char>, sep: char)
    requires
        !is_space(sep),
    ensures
        split_on(trimmed(s), sep).map_values(|p: Seq<char>| trimmed(p)) == split_on(
            s,
            sep,
        ).map_values(|p: Seq<char>| trimmed(p)),
{
    lemma_split_trimmed_start(s, sep);
    lemma_split_trimmed_end(trimmed_start(s), sep);
}

proof fn lemma_split_trimmed_start(s: Seq<char>, sep: char)
    requires
        !is_space(sep),
    ensures
        split_on(trimmed_start(s), sep).map_values(|p: Seq<char>| trimmed(p)) == split_on(
            s,
            sep,
        ).map_values(|p: Seq<char>| trimmed(p)),
    decreases s.len(),
{
    let f = |p: Seq<char>| trimmed(p);
    if s.len() > 0 && is_space(s[0]) {
        let r = s.drop_first();
        lemma_split_trimmed_start(r, sep);
        lemma_split_on_front(s[0], r, sep);
        assert(s =~= seq![s[0]] + r);
        let first = split_on(r, sep)[0];
        assert((seq![s[0]] + first).drop_first() =~= first);
        assert(split_on(s, sep).map_values(f) =~= split_on(r, sep).map_values(f));
    }
}

proof fn lemma_split_trimmed_end(s: Seq<char>, sep: char)
    requires
        !is_space(sep),
    ensures
        split_on(trimmed_end(s), sep).map_values(|p: Seq<char>| trimmed(p)) == split_on(
            s,
            sep,
        ).map_values(|p: Seq<char>| trimmed(p)),
    decreases s.len(),
{
    let f = |p: Seq<char>| trimmed(p);
    if s.len() > 0 && is_space(s.last()) {
        let r = s.drop_last();
        lemma_split_trimmed_end(r, sep);
        lemma_split_on_nonempty(r, sep);
        lemma_trimmed_after_space(split_on(r, sep).last(), s.last());
        assert(split_on(s, sep).map_values(f) =~= split_on(r, sep).map_values(f));
    }
}

/// Splits at every occurrence of `sep`.
pub fn split(v: &Vec<char>, sep: char) -> (res: Vec<Vec<char>>)
    ensures
        texts(res@) == split_on(v@, sep),
        res@.len() > 0,
{
    let mut done: Vec<Vec<char>> = Vec::new();
    let mut current: Vec<char> = Vec::new();
    for i in 0..v.len()
        invariant
            texts(done@).push(current@) == split_on(v@.take(i as int), sep),
    {
        let ghost before = texts(done@).push(current@);
        assert(v@.take(i + 1).drop_last() =~= v@.take(i as int));
        assert(before.drop_last() =~= texts(done@));
        if v[i] == sep {
            done.push(current);
            current = Vec::new();
            assert(texts(done@) =~= before);
        } else {
            current.push(v[i]);
        }
    }
    done.push(current);
    assert(v@.take(v@.len() as int) =~= v@);
    assert(texts(done@) =~= split_on(v@, sep));
    done
}

/// `s` cut at the first occurrence of `sep`: what stands before it and what
/// stands after it.
pub open spec fn cut_first(s: Seq<char>, sep: char) -> Option<(Seq<char>, Seq<char>)>
    decreases s.len(),
{
    if s.len() == 0 {
        None
    } else if s[0] == sep {
        Some((Seq::empty(), s.drop_first()))
    } else {
        match cut_first(s.drop_first(), sep) {
            Some((before, after)) => Some((seq![s[0]] + before, after)),
            None => None,
        }
    }
}

/// Text without the separator is not cut.
pub proof fn lemma_cut_first_absent(s: Seq<char>, sep: char)
    requires
        !s.contains(sep),
    ensures
        cut_first(s, sep) is None,
    decreases s.len(),
{
    if s.len() > 0 {
        assert(s.contains(s[0]));
        assert forall|c: char| s.drop_first().contains(c) implies s.contains(c) by {
            let i = choose|i: int| 0 <= i < s.drop_first().len() && s.drop_first()[i] == c;
            assert(s[i + 1] == c);
        }
        lemma_cut_first_absent(s.drop_first(), sep);
    }
}

/// A separator-free `b`, the separator and `a` are cut into `b` and `a`.
pub proof fn lemma_cut_first_joined(b: Seq<char>, sep: char, a: Seq<char>)
    requires
        !b.contains(sep),
    ensures
        cut_first(b + seq![sep] + a, sep) == Some((b, a)),
    decreases b.len(),
{
    let s = b + seq![sep] + a;
    if b.len() == 0 {
        assert(b =~= Seq::<char>::empty());
        assert(s.drop_first() =~= a);
    } else {
        let rest = b.drop_first();
        assert(b.contains(b[0]));
        assert forall|c: char| rest.contains(c) implies b.contains(c) by {
            let i = choose|i: int| 0 <= i < rest.len() && rest[i] == c;
            assert(b[i + 1] == c);
        }
        lemma_cut_first_joined(rest, sep, a);
        assert(s.drop_first() =~= rest + seq![sep] + a);
        assert(seq![s[0]] + rest =~= b);
    }
}

/// Cuts at the first occurrence of `sep`.
pub fn cut_at_first(v: &Vec<char>, sep: char) -> (res: Option<(Vec<char>, Vec<char>)>)
    ensures
        match res {
            Some((before, after)) => cut_first(v@, sep) == Some((before@, after@)),
            None => cut_first(v@, sep) is None,
        },
{
    let mut i: usize = 0;
    assert(v@.skip(0) =~= v@);
    while i < v.len()
        invariant
            i <= v@.len(),
            forall|k: int| 0 <= k < i ==> v@[k] != sep,
        decreases v@.len() - i,
    {
        if v[i] == sep {
            let before = slice_of(v, 0, i);
            let after = slice_of(v, i + 1, v.len());
            proof {
                assert(v@ =~= before@ + seq![sep] + after@);
                lemma_cut_first_joined(before@, sep, after@);
            }
            return Some((before, after));
        }
        i = i + 1;
    }
    proof {
        lemma_cut_first_absent(v@, sep);
    }
    None
}

/// `s` cut at the last occurrence of `sep`: what stands before it and what
/// stands after it.
pub open spec fn cut_last(s: Seq<char>, sep: char) -> Option<(Seq<char>, Seq<char>)>
    decreases s.len(),
{
    if s.len() == 0 {
        None
    } else if s.last() == sep {
        Some((s.drop_last(), Seq::empty()))
    } else {
        match cut_last(s.drop_last(), sep) {
            Some((before, after)) => Some((before, after.push(s.last()))),
            None => None,
        }
    }
}

/// Text without the separator cannot be cut at it.
pub proof fn lemma_cut_last_absent(s: Seq<char>, sep: char)
    requires
        !s.contains(sep),
    ensures
        cut_last(s, sep) is None,
    decreases s.len(),
{
    if s.len() > 0 {
        assert(s.contains(s.last()));
        assert forall|c: char| s.drop_last().contains(c) implies s.contains(c) by {
            let i = choose|i: int| 0 <= i < s.drop_last().len() && s.drop_last()[i] == c;
            assert(s[i] == c);
        }
        lemma_cut_last_absent(s.drop_last(), sep);
    }
}

/// Cuts at the last occurrence of `sep`.
pub fn cut_at_last(v: &Vec<char>, sep: char) -> (res: Option<(Vec<char>, Vec<char>)>)
    ensures
        match res {
            Some((before, after)) => cut_last(v@, sep) == Some((before@, after@)),
            None => cut_last(v@, sep) is None,
        },
{
    let mut i: usize = v.len();
    assert(v@.take(i as int) =~= v@);
    while i > 0
        invariant
            i <= v@.len(),
            cut_last(v@, sep) == match cut_last(v@.take(i as int), sep) {
                Some((before, after)) => Some((before, after + v@.skip(i as int))),
                None => None,
            },
        decreases i,
    {
        let ghost head = v@.take(i as int);
        assert(head.drop_last() =~= v@.take(i - 1));
        if v[i - 1] == sep {
            assert(Seq::<char>::empty() + v@.skip(i as int) =~= v@.skip(i as int));
            let before = slice_of(v, 0, i - 1);
            let after = slice_of(v, i, v.len());
            assert(before@ =~= v@.take(i - 1));
            assert(after@ =~= v@.skip(i as int));
            return Some((before, after));
        }
        proof {
            if let Some((before, after)) = cut_last(v@.take(i - 1), sep) {
                assert(after.push(v@[i - 1]) + v@.skip(i as int) =~= after + v@.skip(i - 1));
            }
        }
        i = i - 1;
    }
    None
}

// ---------------------------------------------------------------------------
// Prefixes and suffixes
// ---------------------------------------------------------------------------

/// Whether `s` starts with `prefix`.
pub open spec fn begins(s: Seq<char>, prefix: Seq<char>) -> bool {
    prefix.len() <= s.len() && s.take(prefix.len() as int) == prefix
}

/// Whether `s` ends with `suffix`.
pub open spec fn ends(s: Seq<char>, suffix: Seq<char>) -> bool {
    suffix.len() <= s.len() && s.skip(s.len() - suffix.len()) == suffix
}

/// Whether the characters start with `prefix`.
pub fn begins_with(v: &Vec<char>, prefix: &str) -> (res: bool)
    ensures
        res == begins(v@, prefix@),
{
    let p = chars_of(prefix);
    if p.len() > v.len() {
        return false;
    }
    let head = slice_of(v, 0, p.len());
    assert(head@ =~= v@.take(p@.len() as int));
    spells(&head, prefix)
}

/// Whether the characters end with `suffix`.
pub fn ends_with(v: &Vec<char>, suffix: &str) -> (res: bool)
    ensures
        res == ends(v@, suffix@),
{
    let p = chars_of(suffix);
    if p.len() > v.len() {
        return false;
    }
    let tail = slice_of(v, v.len() - p.len(), v.len());
    assert(tail@ =~= v@.skip(v@.len() - p@.len()));
    spells(&tail, suffix)
}

// ---------------------------------------------------------------------------
// ASCII case
// ---------------------------------------------------------------------------

/// The lower-case form of an ASCII capital; any other character as it is.
pub open spec fn ascii_lower(c: char) -> char {
    if 'A' <= c <= 'Z' {
        (c as int + 32) as char
    } else {
        c
    }
}

/// `s` with every ASCII capital in lower case.
pub open spec fn lowered(s: Seq<char>) -> Seq<char> {
    s.map_values(|c: char| ascii_lower(c))
}

/// Lower-cases one ASCII capital.
pub fn lower_char(c: char) -> (res: char)
    ensures
        res == ascii_lower(c),
{
    if 'A' <= c && c <= 'Z' {
        let code: u8 = c as u8;
        (code + 32) as char
    } else {
        c
    }
}

/// Lower-cases every ASCII capital.
pub fn lower(v: &Vec<char>) -> (res: Vec<char>)
    ensures
        res@ == lowered(v@),
{
    let mut res: Vec<char> = Vec::new();
    for i in 0..v.len()
        invariant
            res@ == lowered(v@.take(i as int)),
    {
        let c = lower_char(v[i]);
        res.push(c);
        assert(res@ =~= lowered(v@.take(i + 1)));
    }
    assert(v@.take(v@.len() as int) =~= v@);
    res
}

/// Lower-casing twice is lower-casing once.
pub proof fn lemma_lowered_twice(s: Seq<char>)
    ensures
        lowered(lowered(s)) == lowered(s),
{
    assert(lowered(lowered(s)) =~= lowered(s));
}

/// Lower-casing and trimming can be swapped.
pub proof fn lemma_lowered_trimmed(s: Seq<char>)
    ensures
        trimmed(lowered(s)) == lowered(trimmed(s)),
{
    lemma_lowered_trimmed_start(s);
    lemma_lowered_trimmed_end(trimmed_start(s));
}

proof fn lemma_lowered_trimmed_start(s: Seq<char>)
    ensures
        trimmed_start(lowered(s)) == lowered(trimmed_start(s)),
    decreases s.len(),
{
    if s.len() > 0 {
        assert(lowered(s)[0] == ascii_lower(s[0]));
        assert(lowered(s).drop_first() =~= lowered(s.drop_first()));
        lemma_lowered_trimmed_start(s.drop_first());
    }
}

proof fn lemma_lowered_trimmed_end(s: Seq<char>)
    ensures
        trimmed_end(lowered(s)) == lowered(trimmed_end(s)),
    decreases s.len(),
{
    if s.len() > 0 {
        assert(lowered(s).last() == ascii_lower(s.last()));
        assert(lowered(s).drop_last() =~= lowered(s.drop_last()));
        lemma_lowered_trimmed_end(s.drop_last());
    }
}

/// Lower-casing and splitting at a separator that is no ASCII letter can be
/// swapped.
pub proof fn lemma_lowered_split(s: Seq<char>, sep: char)
    requires
        !('A' <= sep <= 'Z'),
        !('a' <= sep <= 'z'),
    ensures
        split_on(lowered(s), sep) == split_on(s, sep).map_values(|p: Seq<char>| lowered(p)),
    decreases s.len(),
{
    let f = |p: Seq<char>| lowered(p);
    if s.len() == 0 {
        assert(lowered(s) =~= Seq::empty());
        assert(lowered(Seq::empty()) =~= Seq::empty());
        assert(split_on(lowered(s), sep) =~= split_on(s, sep).map_values(f));
    } else {
        lemma_lowered_split(s.drop_last(), sep);
        lemma_split_on_nonempty(s.drop_last(), sep);
        assert(lowered(s).drop_last() =~= lowered(s.drop_last()));
        assert(lowered(s).last() == ascii_lower(s.last()));
        let head = split_on(s.drop_last(), sep);
        if s.last() == sep {
            assert(lowered(Seq::empty()) =~= Seq::empty());
        } else {
            assert(lowered(head.last().push(s.last())) =~= lowered(head.last()).push(
                ascii_lower(s.last()),
            ));
        }
        assert(split_on(lowered(s), sep) =~= split_on(s, sep).map_values(f));
    }
}

} // verus!
