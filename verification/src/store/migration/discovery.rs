//! Finding migrations in a directory.

use vstd::prelude::*;
use vstd::string::*;

use crate::numeral;
use crate::persistence::error::{PersistenceError, PersistenceErrorView};
use crate::store::migration;
use crate::store::migration::{Migration, MigrationView};
use crate::text;

verus! {

// ---------------------------------------------------------------------------
// File names
// ---------------------------------------------------------------------------

/// Whether a file name has the extension `sql`: something, then `.sql`.
pub open spec fn is_sql_name(name: Seq<char>) -> bool {
    name.len() > 4 && text::ends(name, ".sql"@)
}

/// Whether a file name has the extension `sql`.
pub fn has_sql_extension(name: &str) -> (res: bool)
    ensures
        res == is_sql_name(name@),
{
    let chars = text::chars_of(name);
    chars.len() > 4 && text::ends_with(&chars, ".sql")
}

/// The part of a file name before the first `_`.
pub open spec fn version_prefix(name: Seq<char>) -> Seq<char> {
    text::split_on(name, '_')[0]
}

/// What is wrong with a prefix that is no positive version.
pub open spec fn prefix_fault(prefix: Seq<char>) -> Seq<char> {
    match numeral::signed_value(prefix) {
        Some(n) => if i64::MIN <= n <= i64::MAX {
            "not a positive integer"@
        } else {
            numeral::no_i64_text(prefix)
        },
        None => numeral::no_i64_text(prefix),
    }
}

/// The version that a file name starts with, or why it has none.
pub open spec fn version_of(name: Seq<char>) -> Result<i64, PersistenceErrorView> {
    let prefix = version_prefix(name);
    if prefix.len() == 0 {
        Err(
            PersistenceErrorView::MigrationFailed(
                "migration filename has no version prefix: "@ + name,
            ),
        )
    } else if numeral::signed_value(prefix) matches Some(n) && 1 <= n <= i64::MAX {
        Ok(numeral::signed_value(prefix).unwrap() as i64)
    } else {
        Err(
            PersistenceErrorView::MigrationFailed(
                "migration filename "@ + name + " has unparseable version prefix "@
                    + text::debug_quoted(prefix) + ": "@ + prefix_fault(prefix),
            ),
        )
    }
}

/// Reads the version that a file name starts with.
pub fn parse_version_prefix(file_name: &str) -> (res: Result<i64, PersistenceError>)
    ensures
        match res {
            Ok(version) => version_of(file_name@) == Ok::<i64, PersistenceErrorView>(version),
            Err(e) => version_of(file_name@) == Err::<i64, PersistenceErrorView>(e@),
        },
{
    let chars = text::chars_of(file_name);
    let pieces = text::split(&chars, '_');
    proof {
        text::lemma_split_on_nonempty(file_name@, '_');
        assert(text::texts(pieces@)[0] == pieces@[0]@);
    }
    let prefix = text::string_of(&pieces[0]);
    if pieces[0].len() == 0 {
        return Err(
            PersistenceError::MigrationFailed(
                "migration filename has no version prefix: ".to_owned().concat(file_name),
            ),
        );
    }
    let fault = match numeral::parse_i64(prefix.as_str()) {
        Ok(version) => {
            if version >= 1 {
                return Ok(version);
            }
            "not a positive integer".to_owned()
        },
        Err(message) => message,
    };
    let quoted = text::debug_text(prefix.as_str());
    let message = "migration filename ".to_owned().concat(file_name).concat(
        " has unparseable version prefix ",
    ).concat(quoted.as_str()).concat(": ").concat(fault.as_str());
    Err(PersistenceError::MigrationFailed(message))
}

// ---------------------------------------------------------------------------
// Directory listings
// ---------------------------------------------------------------------------

/// One step of walking a directory.
#[derive(Debug, PartialEq, Eq)]
pub enum ListedEntry {
    /// A file.
    File {
        /// Its name, with what is no text replaced.
        name: String,
        /// Whether the name is text.
        is_text: bool,
        /// Its path, as shown in messages.
        path: String,
        /// Its contents, or why they cannot be read. Only those of files with
        /// the extension `sql` matter.
        contents: Result<String, String>,
    },
    /// The walk failed here.
    Failed(String),
}

/// What an entry of the directory `dir` contributes.
pub open spec fn migration_in(dir: Seq<char>, entry: ListedEntry) -> Result<
    Option<MigrationView>,
    PersistenceErrorView,
> {
    match entry {
        ListedEntry::Failed(err) => Err(
            PersistenceErrorView::IoError(
                "iterating migrations directory "@ + dir + ": "@ + err@,
            ),
        ),
        ListedEntry::File { name, is_text, path, contents } => if !is_sql_name(name@) {
            Ok(None)
        } else if !is_text {
            Err(
                PersistenceErrorView::MigrationFailed(
                    "migration filename is not valid utf-8: "@ + path@,
                ),
            )
        } else {
            match version_of(name@) {
                Err(e) => Err(e),
                Ok(version) => match contents {
                    Err(err) => Err(
                        PersistenceErrorView::IoError(
                            "reading migration "@ + path@ + ": "@ + err@,
                        ),
                    ),
                    Ok(sql) => Ok(Some(MigrationView { version, file_name: name@, sql: sql@ })),
                },
            }
        },
    }
}

/// The migrations in a directory, in the order of the walk, or the first fault.
pub open spec fn migrations_in(dir: Seq<char>, entries: Seq<ListedEntry>) -> Result<
    Seq<MigrationView>,
    PersistenceErrorView,
>
    decreases entries.len(),
{
    if entries.len() == 0 {
        Ok(Seq::empty())
    } else {
        match migrations_in(dir, entries.drop_last()) {
            Err(e) => Err(e),
            Ok(before) => match migration_in(dir, entries.last()) {
                Err(e) => Err(e),
                Ok(None) => Ok(before),
                Ok(Some(m)) => Ok(before.push(m)),
            },
        }
    }
}

fn examine(dir: &str, entry: &ListedEntry) -> (res: Result<Option<Migration>, PersistenceError>)
    ensures
        match res {
            Err(e) => migration_in(dir@, *entry) == Err::<
                Option<MigrationView>,
                PersistenceErrorView,
            >(e@),
            Ok(None) => migration_in(dir@, *entry) == Ok::<
                Option<MigrationView>,
                PersistenceErrorView,
            >(None),
            Ok(Some(m)) => migration_in(dir@, *entry) == Ok::<
                Option<MigrationView>,
                PersistenceErrorView,
            >(Some(m@)),
        },
{
    match entry {
        ListedEntry::Failed(err) => Err(
            PersistenceError::IoError(
                "iterating migrations directory ".to_owned().concat(dir).concat(": ").concat(
                    err.as_str(),
                ),
            ),
        ),
        ListedEntry::File { name, is_text, path, contents } => {
            if !has_sql_extension(name.as_str()) {
                return Ok(None);
            }
            if !*is_text {
                return Err(
                    PersistenceError::MigrationFailed(
                        "migration filename is not valid utf-8: ".to_owned().concat(path.as_str()),
                    ),
                );
            }
            match parse_version_prefix(name.as_str()) {
                Err(e) => Err(e),
                Ok(version) => match contents {
                    Err(err) => Err(
                        PersistenceError::IoError(
                            "reading migration ".to_owned().concat(path.as_str()).concat(
                                ": ",
                            ).concat(err.as_str()),
                        ),
                    ),
                    Ok(sql) => Ok(
                        Some(Migration { version, file_name: name.clone(), sql: sql.clone() }),
                    ),
                },
            }
        },
    }
}

/// A prefix of the walk that fails makes the whole walk fail in the same way.
proof fn lemma_first_fault_stays(dir: Seq<char>, entries: Seq<ListedEntry>, n: int)
    requires
        0 <= n <= entries.len(),
        migrations_in(dir, entries.take(n)) is Err,
    ensures
        migrations_in(dir, entries) == migrations_in(dir, entries.take(n)),
    decreases entries.len() - n,
{
    if n < entries.len() {
        assert(entries.take(n + 1).drop_last() =~= entries.take(n));
        lemma_first_fault_stays(dir, entries, n + 1);
    } else {
        assert(entries.take(n) =~= entries);
    }
}

// ---------------------------------------------------------------------------
// Order
// ---------------------------------------------------------------------------

/// How many of the first migrations have a version of at most `version`, up to
/// the first that has a greater one.
pub open spec fn place_of(s: Seq<MigrationView>, version: i64) -> nat
    decreases s.len(),
{
    if s.len() == 0 {
        0
    } else if s.last().version <= version {
        s.len()
    } else {
        place_of(s.drop_last(), version)
    }
}

/// The migrations in ascending order of version; those of one version stay in
/// their order.
pub open spec fn sorted(s: Seq<MigrationView>) -> Seq<MigrationView>
    decreases s.len(),
{
    if s.len() == 0 {
        s
    } else {
        let before = sorted(s.drop_last());
        before.insert(place_of(before, s.last().version) as int, s.last())
    }
}

/// The first place at or after `i` whose version recurs right behind it.
pub open spec fn first_repeat(s: Seq<MigrationView>, i: int) -> Option<int>
    decreases s.len() - i,
{
    if i + 1 >= s.len() {
        None
    } else if s[i].version == s[i + 1].version {
        Some(i)
    } else {
        first_repeat(s, i + 1)
    }
}

/// The message about two migrations of one version.
pub open spec fn duplicate_message(a: MigrationView, b: MigrationView) -> Seq<char> {
    "duplicate migration version "@ + numeral::signed_decimal(a.version as int) + ": "@
        + a.file_name + " and "@ + b.file_name
}

/// The migrations of a listed directory in ascending order, or why there are
/// none.
pub open spec fn discovered(
    dir: Seq<char>,
    listing: Result<Vec<ListedEntry>, String>,
) -> Result<Seq<MigrationView>, PersistenceErrorView> {
    match listing {
        Err(err) => Err(
            PersistenceErrorView::IoError("reading migrations directory "@ + dir + ": "@ + err@),
        ),
        Ok(entries) => match migrations_in(dir, entries@) {
            Err(e) => Err(e),
            Ok(found) => match first_repeat(sorted(found), 0) {
                Some(i) => Err(
                    PersistenceErrorView::MigrationFailed(
                        duplicate_message(sorted(found)[i], sorted(found)[i + 1]),
                    ),
                ),
                None => Ok(sorted(found)),
            },
        },
    }
}

fn insert_in_order(sorted_so_far: &mut Vec<Migration>, m: Migration)
    ensures
        migration::views(final(sorted_so_far)@) == migration::views(old(sorted_so_far)@).insert(
            place_of(migration::views(old(sorted_so_far)@), m.version) as int,
            m@,
        ),
{
    let ghost all = migration::views(sorted_so_far@);
    let mut i: usize = sorted_so_far.len();
    assert(all.take(i as int) =~= all);
    while i > 0 && sorted_so_far[i - 1].version > m.version
        invariant
            i <= sorted_so_far.len(),
            all == migration::views(sorted_so_far@),
            place_of(all.take(i as int), m.version) == place_of(all, m.version),
        decreases i,
    {
        assert(all.take(i as int).drop_last() =~= all.take(i - 1));
        assert(all.take(i as int).last() == sorted_so_far@[i - 1]@);
        i -= 1;
    }
    proof {
        if i > 0 {
            assert(all.take(i as int).last() == sorted_so_far@[i - 1]@);
        }
        assert(place_of(all, m.version) == i);
    }
    sorted_so_far.insert(i, m);
    assert(migration::views(sorted_so_far@) =~= all.insert(i as int, m@));
}

/// Orders the migrations of a listed directory.
pub fn discover_migrations(dir: &str, listing: Result<Vec<ListedEntry>, String>) -> (res: Result<
    Vec<Migration>,
    PersistenceError,
>)
    ensures
        match res {
            Ok(found) => discovered(dir@, listing) == Ok::<
                Seq<MigrationView>,
                PersistenceErrorView,
            >(migration::views(found@)),
            Err(e) => discovered(dir@, listing) == Err::<
                Seq<MigrationView>,
                PersistenceErrorView,
            >(e@),
        },
{
    let entries = match listing {
        Err(err) => {
            return Err(
                PersistenceError::IoError(
                    "reading migrations directory ".to_owned().concat(dir).concat(": ").concat(
                        err.as_str(),
                    ),
                ),
            );
        },
        Ok(entries) => entries,
    };
    let mut found: Vec<Migration> = Vec::new();
    let ghost mut walked: Seq<MigrationView> = Seq::empty();
    assert(migration::views(found@) =~= sorted(walked));
    let mut i: usize = 0;
    while i < entries.len()
        invariant
            i <= entries.len(),
            listing == Ok::<Vec<ListedEntry>, String>(entries),
            migrations_in(dir@, entries@.take(i as int)) == Ok::<
                Seq<MigrationView>,
                PersistenceErrorView,
            >(walked),
            migration::views(found@) == sorted(walked),
        decreases entries.len() - i,
    {
        proof {
            assert(entries@.take(i + 1).drop_last() =~= entries@.take(i as int));
            assert(entries@.take(i + 1).last() == entries@[i as int]);
        }
        match examine(dir, &entries[i]) {
            Err(e) => {
                proof {
                    lemma_first_fault_stays(dir@, entries@, i + 1);
                }
                return Err(e);
            },
            Ok(None) => {},
            Ok(Some(m)) => {
                proof {
                    assert(walked.push(m@).drop_last() =~= walked);
                    walked = walked.push(m@);
                }
                insert_in_order(&mut found, m);
            },
        }
        i += 1;
    }
    assert(entries@.take(i as int) =~= entries@);
    let mut j: usize = 0;
    while j < found.len() && j + 1 < found.len()
        invariant
            j <= found.len(),
            migration::views(found@) == sorted(walked),
            first_repeat(sorted(walked), j as int) == first_repeat(sorted(walked), 0),
            migrations_in(dir@, entries@) == Ok::<Seq<MigrationView>, PersistenceErrorView>(walked),
            listing == Ok::<Vec<ListedEntry>, String>(entries),
        decreases found.len() - j,
    {
        proof {
            assert(sorted(walked)[j as int] == found@[j as int]@);
            assert(sorted(walked)[j + 1] == found@[j + 1]@);
        }
        if found[j].version == found[j + 1].version {
            let message = "duplicate migration version ".to_owned().concat(
                numeral::signed_decimal_text(found[j].version).as_str(),
            ).concat(": ").concat(found[j].file_name.as_str()).concat(" and ").concat(
                found[j + 1].file_name.as_str(),
            );
            return Err(PersistenceError::MigrationFailed(message));
        }
        j += 1;
    }
    Ok(found)
}

// ---------------------------------------------------------------------------
// Laws
// ---------------------------------------------------------------------------

/// Whether versions never descend.
pub open spec fn ordered(s: Seq<MigrationView>) -> bool {
    forall|i: int, j: int|
        0 <= i < j < s.len() ==> (#[trigger] s[i]).version <= (#[trigger] s[j]).version
}

/// The migrations of one version.
pub open spec fn of_version(s: Seq<MigrationView>, version: i64) -> Seq<MigrationView> {
    s.filter(|m: MigrationView| m.version == version)
}

proof fn lemma_place(s: Seq<MigrationView>, version: i64)
    requires
        ordered(s),
    ensures
        place_of(s, version) <= s.len(),
        forall|i: int| 0 <= i < place_of(s, version) ==> (#[trigger] s[i]).version <= version,
        forall|i: int| place_of(s, version) <= i < s.len() ==> (#[trigger] s[i]).version > version,
    decreases s.len(),
{
    if s.len() > 0 && s.last().version > version {
        let front = s.drop_last();
        assert forall|i: int, j: int| 0 <= i < j < front.len() implies (#[trigger] front[i]).version
            <= (#[trigger] front[j]).version by {
            assert(front[i] == s[i] && front[j] == s[j]);
        }
        lemma_place(front, version);
        assert forall|i: int| 0 <= i < place_of(s, version) implies (#[trigger] s[i]).version
            <= version by {
            assert(front[i] == s[i]);
        }
        assert forall|i: int| place_of(s, version) <= i < s.len() implies (#[trigger] s[i]).version
            > version by {
            if i < front.len() {
                assert(front[i] == s[i]);
            }
        }
    }
}

proof fn lemma_none_of_version(s: Seq<MigrationView>, version: i64)
    requires
        forall|i: int| 0 <= i < s.len() ==> (#[trigger] s[i]).version != version,
    ensures
        of_version(s, version) == Seq::<MigrationView>::empty(),
    decreases s.len(),
{
    reveal(Seq::filter);
    if s.len() > 0 {
        assert forall|i: int| 0 <= i < s.drop_last().len() implies (#[trigger]
        s.drop_last()[i]).version != version by {
            assert(s.drop_last()[i] == s[i]);
        }
        lemma_none_of_version(s.drop_last(), version);
    }
}

proof fn lemma_of_version_push(s: Seq<MigrationView>, m: MigrationView, version: i64)
    ensures
        of_version(s.push(m), version) == if m.version == version {
            of_version(s, version).push(m)
        } else {
            of_version(s, version)
        },
{
    reveal(Seq::filter);
    assert(s.push(m).drop_last() =~= s);
}

/// Sorting orders the migrations by version, loses none, and keeps those of one
/// version in the order in which they were found.
pub proof fn law_sorting_is_stable(s: Seq<MigrationView>, version: i64)
    ensures
        ordered(sorted(s)),
        sorted(s).len() == s.len(),
        of_version(sorted(s), version) == of_version(s, version),
    decreases s.len(),
{
    if s.len() > 0 {
        let m = s.last();
        let before = sorted(s.drop_last());
        law_sorting_is_stable(s.drop_last(), version);
        lemma_place(before, m.version);
        let p = place_of(before, m.version) as int;
        let all = before.insert(p, m);
        assert forall|i: int, j: int| 0 <= i < j < all.len() implies (#[trigger] all[i]).version <= (
        #[trigger] all[j]).version by {
            let a = if i < p {
                i
            } else {
                i - 1
            };
            let b = if j < p {
                j
            } else {
                j - 1
            };
            if i != p && j != p {
                assert(all[i] == before[a] && all[j] == before[b]);
            } else if i == p {
                assert(all[j] == before[b]);
            } else {
                assert(all[i] == before[a]);
            }
        }
        let low = before.take(p);
        let high = before.skip(p);
        assert(all =~= low.push(m) + high);
        assert(before =~= low + high);
        let same = |x: MigrationView| x.version == version;
        Seq::filter_distributes_over_add(low.push(m), high, same);
        Seq::filter_distributes_over_add(low, high, same);
        lemma_of_version_push(low, m, version);
        lemma_of_version_push(s.drop_last(), m, version);
        assert(s.drop_last().push(m) =~= s);
        if m.version == version {
            assert forall|i: int| 0 <= i < high.len() implies (#[trigger] high[i]).version
                != version by {
                assert(high[i] == before[p + i]);
            }
            lemma_none_of_version(high, version);
            assert(of_version(all, version) =~= of_version(s, version));
        }
    }
}

proof fn lemma_first_repeat(s: Seq<MigrationView>, i: int)
    requires
        0 <= i,
        ordered(s),
    ensures
        match first_repeat(s, i) {
            Some(k) => i <= k && k + 1 < s.len() && s[k].version == s[k + 1].version,
            None => forall|a: int, b: int|
                i <= a < b < s.len() ==> (#[trigger] s[a]).version < (#[trigger] s[b]).version,
        },
    decreases s.len() - i,
{
    if i + 1 < s.len() && s[i].version != s[i + 1].version {
        lemma_first_repeat(s, i + 1);
        if first_repeat(s, i) is None {
            assert forall|a: int, b: int| i <= a < b < s.len() implies (#[trigger] s[a]).version < (
            #[trigger] s[b]).version by {
                if a == i && b > i + 1 {
                    assert(s[i].version <= s[i + 1].version < s[b].version);
                }
            }
        }
    }
}

proof fn lemma_found_are_positive(dir: Seq<char>, entries: Seq<ListedEntry>)
    ensures
        migrations_in(dir, entries) matches Ok(found) ==> forall|i: int|
            0 <= i < found.len() ==> (#[trigger] found[i]).version >= 1,
    decreases entries.len(),
{
    if entries.len() > 0 {
        lemma_found_are_positive(dir, entries.drop_last());
    }
}

proof fn lemma_member_of_version(s: Seq<MigrationView>, i: int)
    requires
        0 <= i < s.len(),
    ensures
        of_version(s, s[i].version).len() >= 1,
{
    broadcast use Seq::lemma_filter_contains;

    let same = |m: MigrationView| m.version == s[i].version;
    assert(s.filter(same).contains(s[i]));
}

proof fn lemma_sorted_keeps_versions(s: Seq<MigrationView>, i: int) -> (k: int)
    requires
        0 <= i < sorted(s).len(),
    ensures
        0 <= k < s.len(),
        s[k].version == sorted(s)[i].version,
{
    let v = sorted(s)[i].version;
    law_sorting_is_stable(s, v);
    lemma_member_of_version(sorted(s), i);
    if forall|k: int| 0 <= k < s.len() ==> (#[trigger] s[k]).version != v {
        lemma_none_of_version(s, v);
    }
    choose|k: int| 0 <= k < s.len() && (#[trigger] s[k]).version == v
}

/// What is discovered has positive versions that strictly ascend.
pub proof fn law_discovered_ascends(dir: Seq<char>, listing: Result<Vec<ListedEntry>, String>)
    ensures
        discovered(dir, listing) matches Ok(found) ==> migration::ascending(found),
{
    if let Ok(entries) = listing {
        lemma_found_are_positive(dir, entries@);
        if let Ok(walked) = migrations_in(dir, entries@) {
            law_sorting_is_stable(walked, 0);
            lemma_first_repeat(sorted(walked), 0);
            assert forall|i: int| 0 <= i < sorted(walked).len() implies (#[trigger]
            sorted(walked)[i]).version >= 1 by {
                let k = lemma_sorted_keeps_versions(walked, i);
            }
        }
    }
}

proof fn lemma_pair_of_version(s: Seq<MigrationView>, i: int, j: int)
    requires
        0 <= i < j < s.len(),
        s[i].version == s[j].version,
    ensures
        of_version(s, s[i].version).len() >= 2,
{
    let same = |m: MigrationView| m.version == s[i].version;
    let low = s.take(j);
    let high = s.skip(j);
    assert(s =~= low + high);
    Seq::filter_distributes_over_add(low, high, same);
    assert(low[i] == s[i] && high[0] == s[j]);
    lemma_member_of_version(low, i);
    lemma_member_of_version(high, 0);
}

proof fn lemma_single_of_version(s: Seq<MigrationView>, version: i64)
    requires
        forall|a: int, b: int|
            0 <= a < b < s.len() ==> (#[trigger] s[a]).version < (#[trigger] s[b]).version,
    ensures
        of_version(s, version).len() <= 1,
    decreases s.len(),
{
    reveal(Seq::filter);
    if s.len() > 0 {
        let front = s.drop_last();
        assert forall|a: int, b: int| 0 <= a < b < front.len() implies (#[trigger] front[a]).version
            < (#[trigger] front[b]).version by {
            assert(front[a] == s[a] && front[b] == s[b]);
        }
        lemma_single_of_version(front, version);
        if s.last().version == version {
            assert forall|i: int| 0 <= i < front.len() implies (#[trigger] front[i]).version
                != version by {
                assert(front[i] == s[i]);
            }
            lemma_none_of_version(front, version);
        }
    }
}

/// Two migrations of one version are refused.
pub proof fn law_duplicate_versions_are_refused(
    dir: Seq<char>,
    entries: Vec<ListedEntry>,
    found: Seq<MigrationView>,
    i: int,
    j: int,
)
    requires
        migrations_in(dir, entries@) == Ok::<Seq<MigrationView>, PersistenceErrorView>(found),
        0 <= i < j < found.len(),
        found[i].version == found[j].version,
    ensures
        discovered(dir, Ok(entries)) matches Err(PersistenceErrorView::MigrationFailed(_)),
{
    let v = found[i].version;
    law_sorting_is_stable(found, v);
    lemma_pair_of_version(found, i, j);
    lemma_first_repeat(sorted(found), 0);
    if first_repeat(sorted(found), 0) is None {
        lemma_single_of_version(sorted(found), v);
    }
}

/// Files with another extension do not matter, wherever they are listed.
pub proof fn law_other_files_do_not_matter(
    dir: Seq<char>,
    before: Seq<ListedEntry>,
    other: ListedEntry,
    after: Seq<ListedEntry>,
)
    requires
        other matches ListedEntry::File { name, .. } && !is_sql_name(name@),
    ensures
        migrations_in(dir, before + seq![other] + after) == migrations_in(dir, before + after),
    decreases after.len(),
{
    let with = before + seq![other] + after;
    let without = before + after;
    if after.len() == 0 {
        assert(with.drop_last() =~= before);
        assert(without =~= before);
    } else {
        law_other_files_do_not_matter(dir, before, other, after.drop_last());
        assert(with.drop_last() =~= before + seq![other] + after.drop_last());
        assert(without.drop_last() =~= before + after.drop_last());
    }
}

} // verus!
