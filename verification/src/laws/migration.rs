//! What holds of finding and applying migrations.

use vstd::prelude::*;
use vstd::string::*;

use crate::numeral;
use crate::persistence::error::{PersistenceError, PersistenceErrorView};
use crate::store::migration;
use crate::store::migration::discovery;
use crate::store::migration::discovery::ListedEntry;
use crate::store::migration::runner;
use crate::store::migration::runner::{
    ApplyFailure, MigrationAction, MigrationEvent, MigrationRunner,
};
use crate::store::migration::{Migration, MigrationView};
use crate::store::report;
use crate::store::sql;
use crate::store::sql::SqlFailure;
use crate::text;

verus! {

// ---------------------------------------------------------------------------
// Finding
// ---------------------------------------------------------------------------

/// A file has the extension where its name is something and then `.sql`.
pub proof fn law_sql_files_end_in_sql(name: &str, res: bool)
    requires
        call_ensures(discovery::has_sql_extension, (name,), res),
    ensures
        res <==> exists|stem: Seq<char>| stem.len() > 0 && name@ == #[trigger] (stem + ".sql"@),
{
    reveal_strlit(".sql");
    if res {
        let stem = name@.take(name@.len() - 4);
        assert(name@ =~= stem + ".sql"@);
        assert(stem.len() > 0);
    }
    if exists|stem: Seq<char>| stem.len() > 0 && name@ == #[trigger] (stem + ".sql"@) {
        let stem = choose|stem: Seq<char>| stem.len() > 0 && name@ == #[trigger] (stem + ".sql"@);
        assert(name@.skip(name@.len() - 4) =~= ".sql"@);
    }
}

/// The version of a file is the positive number that stands before the first underscore of
/// its name. A name without one is refused.
pub proof fn law_version_is_the_number_before_the_underscore(
    name: &str,
    n: nat,
    rest: Seq<char>,
    res: Result<i64, PersistenceError>,
)
    requires
        call_ensures(discovery::parse_version_prefix, (name,), res),
    ensures
        name@ == numeral::decimal(n) + seq!['_'] + rest ==> (res is Ok <==> 1 <= n <= i64::MAX),
        name@ == numeral::decimal(n) + seq!['_'] + rest && res is Ok ==> res->Ok_0 == n,
        res matches Ok(version) ==> version >= 1,
        name@.len() == 0 || name@[0] == '_' ==> res is Err,
        res matches Err(e) ==> e is MigrationFailed,
{
    if name@ == numeral::decimal(n) + seq!['_'] + rest {
        let digits = numeral::decimal(n);
        numeral::lemma_decimal_value(n);
        numeral::lemma_signed_reads_back(n as int);
        assert(!digits.contains('_')) by {
            if digits.contains('_') {
                let i = choose|i: int| 0 <= i < digits.len() && digits[i] == '_';
                assert(numeral::digit_value(digits[i], 10) is Some);
            }
        }
        text::lemma_split_on_prefix(digits, '_', rest);
        assert((seq![digits] + text::split_on(rest, '_'))[0] == digits);
    }
    if name@.len() == 0 {
        assert(name@ =~= Seq::<char>::empty());
        assert(text::split_on(name@, '_')[0].len() == 0);
    } else if name@[0] == '_' {
        let e = Seq::<char>::empty();
        assert(name@ =~= e + seq!['_'] + name@.skip(1));
        text::lemma_split_on_prefix(e, '_', name@.skip(1));
        assert((seq![e] + text::split_on(name@.skip(1), '_'))[0] == e);
    }
}

/// Whether a migration is a file of the listing: one whose name ends in `.sql`, with that
/// name and that content.
pub open spec fn is_listed(entries: Seq<ListedEntry>, m: MigrationView) -> bool {
    exists|i: int|
        0 <= i < entries.len() && (#[trigger] entries[i] matches ListedEntry::File {
            name,
            is_text,
            path,
            contents,
        } && is_text && name@ == m.file_name && (contents matches Ok(sql) && sql@ == m.sql))
}

proof fn lemma_walk(dir: Seq<char>, entries: Seq<ListedEntry>)
    requires
        discovery::migrations_in(dir, entries) is Ok,
    ensures
        ({
            let found = discovery::migrations_in(dir, entries)->Ok_0;
            &&& forall|k: int| 0 <= k < found.len() ==> is_listed(entries, #[trigger] found[k])
            &&& forall|i: int|
                0 <= i < entries.len() ==> {
                    &&& (#[trigger] entries[i]) is File
                    &&& discovery::is_sql_name(entries[i]->name@) ==> {
                        &&& entries[i]->is_text
                        &&& entries[i]->contents is Ok
                        &&& discovery::version_of(entries[i]->name@) is Ok
                        &&& found.contains(
                            MigrationView {
                                version: discovery::version_of(entries[i]->name@)->Ok_0,
                                file_name: entries[i]->name@,
                                sql: entries[i]->contents->Ok_0@,
                            },
                        )
                    }
                }
        }),
    decreases entries.len(),
{
    if entries.len() > 0 {
        let front = entries.drop_last();
        lemma_walk(dir, front);
        let before = discovery::migrations_in(dir, front)->Ok_0;
        let found = discovery::migrations_in(dir, entries)->Ok_0;
        let last = entries.last();
        assert(entries[entries.len() - 1] == last);
        assert forall|k: int| 0 <= k < found.len() implies is_listed(
            entries,
            #[trigger] found[k],
        ) by {
            if k < before.len() {
                assert(found[k] == before[k]);
                assert(is_listed(front, before[k]));
                let i = choose|i: int|
                    0 <= i < front.len() && (#[trigger] front[i] matches ListedEntry::File {
                        name,
                        is_text,
                        path,
                        contents,
                    } && is_text && name@ == before[k].file_name && (contents matches Ok(sql)
                        && sql@ == before[k].sql));
                assert(entries[i] == front[i]);
            }
        }
        assert forall|i: int| 0 <= i < entries.len() implies {
            &&& (#[trigger] entries[i]) is File
            &&& discovery::is_sql_name(entries[i]->name@) ==> {
                &&& entries[i]->is_text
                &&& entries[i]->contents is Ok
                &&& discovery::version_of(entries[i]->name@) is Ok
                &&& found.contains(
                    MigrationView {
                        version: discovery::version_of(entries[i]->name@)->Ok_0,
                        file_name: entries[i]->name@,
                        sql: entries[i]->contents->Ok_0@,
                    },
                )
            }
        } by {
            if i < front.len() {
                assert(entries[i] == front[i]);
                if discovery::is_sql_name(entries[i]->name@) {
                    let m = MigrationView {
                        version: discovery::version_of(entries[i]->name@)->Ok_0,
                        file_name: entries[i]->name@,
                        sql: entries[i]->contents->Ok_0@,
                    };
                    assert(before.contains(m));
                    let k = choose|k: int| 0 <= k < before.len() && before[k] == m;
                    assert(found[k] == m);
                }
            } else if discovery::is_sql_name(last->name@) {
                assert(found[before.len() as int] == found.last());
            }
        }
    }
}

proof fn lemma_sorted_members(s: Seq<MigrationView>, m: MigrationView)
    ensures
        discovery::sorted(s).contains(m) <==> s.contains(m),
{
    broadcast use Seq::lemma_filter_contains;

    let v = m.version;
    discovery::law_sorting_is_stable(s, v);
    let same = |x: MigrationView| x.version == v;
    let t = discovery::sorted(s);
    if t.contains(m) {
        let i = choose|i: int| 0 <= i < t.len() && t[i] == m;
        assert(t.filter(same).contains(t[i]));
        assert(discovery::of_version(s, v).contains(m));
        lemma_filtered_is_member(s, v, m);
    }
    if s.contains(m) {
        let i = choose|i: int| 0 <= i < s.len() && s[i] == m;
        assert(s.filter(same).contains(s[i]));
        assert(discovery::of_version(t, v).contains(m));
        lemma_filtered_is_member(t, v, m);
    }
}

proof fn lemma_filtered_is_member(s: Seq<MigrationView>, version: i64, m: MigrationView)
    requires
        discovery::of_version(s, version).contains(m),
    ensures
        s.contains(m),
    decreases s.len(),
{
    reveal(Seq::filter);
    let front = s.drop_last();
    if s.len() > 0 {
        let f = discovery::of_version(s, version);
        let i = choose|i: int| 0 <= i < f.len() && f[i] == m;
        if discovery::of_version(front, version).contains(m) {
            lemma_filtered_is_member(front, version, m);
            let k = choose|k: int| 0 <= k < front.len() && front[k] == m;
            assert(s[k] == m);
        } else {
            let g = discovery::of_version(front, version);
            if i < g.len() {
                assert(g[i] == m);
            }
            assert(s.last() == m);
            assert(s[s.len() - 1] == m);
        }
    }
}

/// What is found in a directory is what is listed there: every file whose name ends in
/// `.sql`, by its name and with its content and version, and nothing else. Versions are
/// positive and strictly ascend.
pub proof fn law_found_is_what_is_listed(
    dir: &str,
    entries: Vec<ListedEntry>,
    found: Vec<Migration>,
    i: int,
    k: int,
    name: &str,
    version: Result<i64, PersistenceError>,
    is_sql: bool,
)
    requires
        call_ensures(discovery::discover_migrations, (dir, Ok(entries)), Ok(found)),
        0 <= i < entries@.len(),
        entries@[i] matches ListedEntry::File { name: n, .. } ==> n@ == name@,
        call_ensures(discovery::parse_version_prefix, (name,), version),
        call_ensures(discovery::has_sql_extension, (name,), is_sql),
    ensures
        entries@[i] is File,
        is_sql ==> exists|j: int|
            0 <= j < found@.len() && (#[trigger] found@[j]).file_name@ == name@ && (
            entries@[i]->contents matches Ok(sql) && sql@ == found@[j].sql@) && (version matches Ok(
                v,
            ) && v == found@[j].version),
        0 <= k < found@.len() ==> is_listed(entries@, found@[k]@),
        0 <= k < found@.len() ==> found@[k].version >= 1,
        0 < k < found@.len() ==> found@[k - 1].version < found@[k].version,
{
    let walked = discovery::migrations_in(dir@, entries@)->Ok_0;
    let views = migration::views(found@);
    lemma_walk(dir@, entries@);
    discovery::law_discovered_ascends(dir@, Ok(entries));
    assert(entries@[i] is File);
    if is_sql {
        let m = MigrationView {
            version: discovery::version_of(name@)->Ok_0,
            file_name: name@,
            sql: entries@[i]->contents->Ok_0@,
        };
        assert(walked.contains(m));
        lemma_sorted_members(walked, m);
        let j = choose|j: int| 0 <= j < views.len() && views[j] == m;
        assert(views[j] == found@[j]@);
        assert(found@[j].file_name@ == name@);
    }
    if 0 <= k < found@.len() {
        assert(views[k] == found@[k]@);
        assert(views.contains(views[k]));
        lemma_sorted_members(walked, views[k]);
        let j = choose|j: int| 0 <= j < walked.len() && walked[j] == views[k];
        assert(is_listed(entries@, walked[j]));
        if k > 0 {
            assert(views[k - 1].version < views[k].version);
            assert(views[k - 1] == found@[k - 1]@);
        }
    }
}

/// A directory that cannot be listed is an input or output error. One that cannot be listed to
/// its end is an error too, and so is a migration that cannot be read or has a name that is no
/// text.
pub proof fn law_unreadable_directory_is_an_error(
    dir: &str,
    listing: Result<Vec<ListedEntry>, String>,
    res: Result<Vec<Migration>, PersistenceError>,
)
    requires
        call_ensures(discovery::discover_migrations, (dir, listing), res),
    ensures
        listing is Err ==> (res matches Err(e) && e is IoError),
        listing matches Ok(entries) ==> forall|i: int|
            0 <= i < entries@.len() && (#[trigger] entries@[i]) is Failed ==> res is Err,
        listing matches Ok(entries) ==> forall|i: int|
            0 <= i < entries@.len() && (#[trigger] entries@[i]) is File && discovery::is_sql_name(
                entries@[i]->name@,
            ) && (entries@[i]->contents is Err || !entries@[i]->is_text) ==> res is Err,
{
    if let Ok(entries) = listing {
        if res is Ok {
            lemma_walk(dir@, entries@);
        }
    }
}

// ---------------------------------------------------------------------------
// Applying
// ---------------------------------------------------------------------------

/// A run starts by making sure of its own table, counts its rows, and puts a version there
/// where it is empty. More than one row ends the run.
pub proof fn law_run_prepares_its_table(
    runner: &mut MigrationRunner,
    rows: i64,
    which: nat,
    res: Result<(), PersistenceError>,
    before: MigrationAction,
    after: MigrationAction,
)
    requires
        call_ensures(MigrationRunner::next_action, (&*old(runner),), before),
        call_ensures(
            MigrationRunner::advance,
            (
                runner,
                if which == 0 {
                    MigrationEvent::MetaCreated(Ok(()))
                } else if which == 1 {
                    MigrationEvent::MetaCounted(Ok(rows))
                } else {
                    MigrationEvent::MetaSeeded(Ok(()))
                },
            ),
            res,
        ),
        call_ensures(MigrationRunner::next_action, (&*final(runner),), after),
    ensures
        which == 0 ==> after is CountMeta,
        which == 1 && rows == 0 ==> after is SeedMeta,
        which == 1 && rows == 1 ==> after is ReadVersion,
        which == 1 && rows != 0 && rows != 1 ==> after is Finished && (res matches Err(e)
            && e is MigrationFailed),
        which > 1 ==> after is ReadVersion,
        final(runner).known() == old(runner).known(),
{
}

/// A database that is newer than every known migration is refused. Otherwise the first
/// migration above its version comes next; there is none left exactly where it has the
/// highest version.
pub proof fn law_first_pending_migration_comes_next(
    runner: &mut MigrationRunner,
    version: i64,
    res: Result<(), PersistenceError>,
    before: MigrationAction,
    after: MigrationAction,
    i: int,
)
    requires
        call_ensures(MigrationRunner::next_action, (&*old(runner),), before),
        call_ensures(
            MigrationRunner::advance,
            (runner, MigrationEvent::VersionRead(Ok(version))),
            res,
        ),
        call_ensures(MigrationRunner::next_action, (&*final(runner),), after),
        0 <= i < old(runner).known().len(),
        old(runner).known().len() <= usize::MAX,
    ensures
        res matches Err(e) ==> e is SchemaVersionMismatch && old(runner).known()[i].version
            < version,
        res is Ok ==> old(runner).known().last().version >= version,
        after matches MigrationAction::Apply(at) ==> {
            &&& at < old(runner).known().len()
            &&& old(runner).known()[at as int].version > version
            &&& i < at ==> old(runner).known()[i].version <= version
        },
        res is Ok && !(after is Apply) ==> after is Finished && old(runner).known()[i].version
            <= version,
{
    let ms = old(runner).known();
    lemma_next_pending(ms, 0, version);
    if i < ms.len() - 1 {
        assert(ms[i].version < ms[ms.len() - 1].version);
    }
}

proof fn lemma_next_pending(ms: Seq<MigrationView>, from: nat, current: i64)
    requires
        from <= ms.len(),
    ensures
        from <= runner::next_pending(ms, from, current) <= ms.len(),
        forall|i: int|
            from <= i < runner::next_pending(ms, from, current) ==> (#[trigger] ms[i]).version
                <= current,
        runner::next_pending(ms, from, current) < ms.len() ==> ms[runner::next_pending(
            ms,
            from,
            current,
        ) as int].version > current,
    decreases ms.len() - from,
{
    if from < ms.len() && ms[from as int].version <= current {
        lemma_next_pending(ms, from + 1, current);
    }
}

/// After a migration was applied the next known one comes, and the run is over after the
/// last. One that fails ends the run with an error: that of a busy database where its
/// transaction could not be opened for that reason, else of a failed migration.
pub proof fn law_migrations_are_applied_one_by_one(
    runner: &mut MigrationRunner,
    at: usize,
    outcome: Result<(), ApplyFailure>,
    res: Result<(), PersistenceError>,
    before: MigrationAction,
    after: MigrationAction,
)
    requires
        call_ensures(MigrationRunner::next_action, (&*old(runner),), before),
        before == MigrationAction::Apply(at),
        old(runner).known()[at as int].version > old(runner).started_from(),
        old(runner).known().len() <= usize::MAX,
        call_ensures(MigrationRunner::advance, (runner, MigrationEvent::Applied(outcome)), res),
        call_ensures(MigrationRunner::next_action, (&*final(runner),), after),
    ensures
        outcome is Ok <==> res is Ok,
        outcome is Ok && at + 1 < old(runner).known().len() ==> after == MigrationAction::Apply(
            (at + 1) as usize,
        ),
        outcome is Ok && at + 1 == old(runner).known().len() ==> after is Finished,
        outcome is Err ==> after is Finished,
        outcome is Err && !(outcome->Err_0 is Opening) ==> (res matches Err(e)
            && e is MigrationFailed),
        final(runner).started_from() == old(runner).started_from(),
{
    let ms = old(runner).known();
    let current = old(runner).started_from();
    lemma_next_pending(ms, (at + 1) as nat, current);
    if at + 1 < ms.len() {
        assert(ms[at as int].version < ms[at + 1].version);
    }
}

/// A failure of the run's own statements is that of a busy database where it is one, else of
/// a failed migration. Either way the run is over.
pub proof fn law_run_reports_its_own_failures(
    runner: &mut MigrationRunner,
    failure: SqlFailure,
    which: nat,
    busy: bool,
    res: Result<(), PersistenceError>,
    after: MigrationAction,
)
    requires
        call_ensures(
            MigrationRunner::advance,
            (
                runner,
                if which == 0 {
                    MigrationEvent::MetaCreated(Err(failure))
                } else if which == 1 {
                    MigrationEvent::MetaCounted(Err(failure))
                } else if which == 2 {
                    MigrationEvent::MetaSeeded(Err(failure))
                } else if which == 3 {
                    MigrationEvent::VersionRead(Err(failure))
                } else {
                    MigrationEvent::Applied(Err(ApplyFailure::Opening(failure)))
                },
            ),
            res,
        ),
        call_ensures(sql::is_busy, (&failure,), busy),
        call_ensures(MigrationRunner::next_action, (&*final(runner),), after),
    ensures
        busy ==> (res matches Err(e) && e is DatabaseLocked),
        !busy ==> (res matches Err(e) && e is MigrationFailed),
        after is Finished,
{
}

proof fn lemma_pending_members(ms: Seq<MigrationView>, version: i64)
    ensures
        forall|m: MigrationView|
            #![trigger runner::pending_after(ms, version).contains(m)]
            runner::pending_after(ms, version).contains(m) <==> ms.contains(m) && m.version
                > version,
        runner::pending_after(ms, version).len() <= ms.len(),
    decreases ms.len(),
{
    reveal(Seq::filter);
    let p = runner::pending_after(ms, version);
    if ms.len() > 0 {
        let front = ms.drop_last();
        lemma_pending_members(front, version);
        let q = runner::pending_after(front, version);
        assert(ms[ms.len() - 1] == ms.last());
        assert forall|m: MigrationView| #[trigger] p.contains(m) <==> ms.contains(m) && m.version
            > version by {
            if p.contains(m) {
                let i = choose|i: int| 0 <= i < p.len() && p[i] == m;
                if i < q.len() {
                    assert(q[i] == m);
                    assert(q.contains(m));
                    let k = choose|k: int| 0 <= k < front.len() && front[k] == m;
                    assert(ms[k] == m);
                }
            }
            if ms.contains(m) && m.version > version {
                let k = choose|k: int| 0 <= k < ms.len() && ms[k] == m;
                if k < front.len() {
                    assert(front[k] == m);
                    assert(q.contains(m));
                    let i = choose|i: int| 0 <= i < q.len() && q[i] == m;
                    assert(p[i] == m);
                } else {
                    assert(p[p.len() - 1] == m);
                }
            }
        }
    }
}

/// The pending migrations of a database are the known ones above its version: each of them
/// is there by its version and name, and nothing else is.
pub proof fn law_pending_are_those_above(
    runner: MigrationRunner,
    version: i64,
    res: Vec<(i64, String)>,
    i: int,
    k: int,
)
    requires
        call_ensures(MigrationRunner::pending_migrations, (&runner, version), res),
    ensures
        0 <= k < res@.len() ==> res@[k].0 > version,
        0 <= i < runner.known().len() && runner.known()[i].version > version ==> exists|j: int|
            0 <= j < res@.len() && (#[trigger] res@[j]).0 == runner.known()[i].version && res@[j].1@
                == runner.known()[i].file_name,
        0 <= k < res@.len() ==> exists|j: int|
            0 <= j < runner.known().len() && (#[trigger] runner.known()[j]).version == res@[k].0
                && runner.known()[j].file_name == res@[k].1@,
{
    let ms = runner.known();
    let p = runner::pending_after(ms, version);
    lemma_pending_members(ms, version);
    if 0 <= k < res@.len() {
        assert(res[k].0 == p[k].version);
        assert(p.contains(p[k]));
        let j = choose|j: int| 0 <= j < ms.len() && ms[j] == p[k];
        assert(runner.known()[j].version == res@[k].0);
    }
    if 0 <= i < ms.len() && ms[i].version > version {
        assert(ms.contains(ms[i]));
        assert(p.contains(ms[i]));
        let j = choose|j: int| 0 <= j < p.len() && p[j] == ms[i];
        assert(res[j].0 == p[j].version);
        assert(res@[j].0 == ms[i].version);
    }
}

// ---------------------------------------------------------------------------
// Reporting
// ---------------------------------------------------------------------------

/// The status has a line with the version of the database, a heading, and one line for each
/// pending migration with its version and its name; a dry run has one line more that says so.
/// Where nothing is pending the heading says that.
pub proof fn law_report_lists_each_migration(
    current: i64,
    pending: Vec<(i64, String)>,
    status: Vec<String>,
    dry_run: Vec<String>,
    applied: Vec<String>,
    i: int,
)
    requires
        call_ensures(report::status_lines, (current, &pending), status),
        call_ensures(report::dry_run_lines, (current, &pending), dry_run),
        call_ensures(report::applied_lines, (&pending,), applied),
        0 <= i < pending@.len(),
    ensures
        ({
            let n = pending@.len();
            let line = "  "@ + numeral::signed_decimal(pending@[i].0 as int) + ": "@ + pending@[i].1@;
            &&& status@.len() == n + 2
            &&& dry_run@.len() == n + 3
            &&& applied@.len() == n + 1
            &&& status@[0]@ == "schema_version: "@ + numeral::signed_decimal(current as int)
            &&& dry_run@[0]@ == status@[0]@
            &&& dry_run@[1]@ == "dry-run: no changes written"@
            &&& status@[1]@ == "pending:"@
            &&& dry_run@[2]@ == "pending:"@
            &&& applied@[0]@ == "applied:"@
            &&& status@[i + 2]@ == line
            &&& dry_run@[i + 3]@ == line
            &&& applied@[i + 1]@ == line
        }),
{
    let pv = report::listed("pending"@, pending@);
    let av = report::listed("applied"@, pending@);
    assert("pending"@ + ":"@ == "pending:"@) by {
        reveal_strlit("pending");
        reveal_strlit(":");
        reveal_strlit("pending:");
        assert("pending"@ + ":"@ =~= "pending:"@);
    }
    assert("applied"@ + ":"@ == "applied:"@) by {
        reveal_strlit("applied");
        reveal_strlit(":");
        reveal_strlit("applied:");
        assert("applied"@ + ":"@ =~= "applied:"@);
    }
    assert(pv[0] == "pending:"@ && av[0] == "applied:"@);
    assert(pv[i + 1] == av[i + 1]);
    assert(report::views(status@).len() == status@.len());
    assert(report::views(dry_run@).len() == dry_run@.len());
    assert(report::views(applied@).len() == applied@.len());
    assert(report::views(status@)[0] == status@[0]@ && report::views(status@)[1] == status@[1]@);
    assert(report::views(status@)[i + 2] == status@[i + 2]@);
    assert(report::views(dry_run@)[0] == dry_run@[0]@ && report::views(dry_run@)[1]
        == dry_run@[1]@ && report::views(dry_run@)[2] == dry_run@[2]@);
    assert(report::views(dry_run@)[i + 3] == dry_run@[i + 3]@);
    assert(report::views(applied@)[0] == applied@[0]@);
    assert(report::views(applied@)[i + 1] == applied@[i + 1]@);
}

/// Where there is nothing to list, the heading says so in the one line that is left.
pub proof fn law_report_of_nothing(
    current: i64,
    pending: Vec<(i64, String)>,
    status: Vec<String>,
    applied: Vec<String>,
)
    requires
        call_ensures(report::status_lines, (current, &pending), status),
        call_ensures(report::applied_lines, (&pending,), applied),
        pending@.len() == 0,
    ensures
        status@.len() == 2,
        status@[1]@ == "pending: none"@,
        applied@.len() == 1,
        applied@[0]@ == "applied: none"@,
{
    assert("pending"@ + ": none"@ == "pending: none"@) by {
        reveal_strlit("pending");
        reveal_strlit(": none");
        reveal_strlit("pending: none");
        assert("pending"@ + ": none"@ =~= "pending: none"@);
    }
    assert("applied"@ + ": none"@ == "applied: none"@) by {
        reveal_strlit("applied");
        reveal_strlit(": none");
        reveal_strlit("applied: none");
        assert("applied"@ + ": none"@ =~= "applied: none"@);
    }
    assert(report::views(status@).len() == status@.len());
    assert(report::views(applied@).len() == applied@.len());
    assert(report::views(status@)[1] == status@[1]@);
    assert(report::views(applied@)[0] == applied@[0]@);
}

/// A run knows the migrations that were found in its directory, and begins with its own
/// table. It fails where they could not be found.
pub proof fn law_run_knows_what_was_found(
    dir: &str,
    listing: Result<Vec<ListedEntry>, String>,
    found: Result<Vec<Migration>, PersistenceError>,
    res: Result<MigrationRunner, PersistenceError>,
    i: usize,
    action: MigrationAction,
    at: Option<&Migration>,
)
    requires
        call_ensures(discovery::discover_migrations, (dir, listing), found),
        call_ensures(MigrationRunner::new, (dir, listing), res),
        res matches Ok(runner) ==> call_ensures(MigrationRunner::next_action, (&runner,), action)
            && call_ensures(MigrationRunner::migration, (&runner, i), at),
    ensures
        res is Ok <==> found is Ok,
        res is Ok ==> action is CreateMeta,
        res is Ok && found is Ok ==> {
            let known = found->Ok_0@;
            &&& at is Some <==> i < known.len()
            &&& at matches Some(m) ==> m.version == known[i as int].version && m.file_name@
                == known[i as int].file_name@ && m.sql@ == known[i as int].sql@
        },
        res is Err && found is Err ==> res->Err_0@ == found->Err_0@,
{
    if found is Ok && res is Ok {
        let known = found->Ok_0@;
        let views = migration::views(known);
        assert(views.len() == known.len());
        if i < known.len() {
            assert(views[i as int] == known[i as int]@);
        }
    }
}

/// Whether an entry is a readable file of the given name.
pub open spec fn is_readable(entry: ListedEntry, name: Seq<char>) -> bool {
    entry matches ListedEntry::File { name: n, is_text, path, contents } && n@ == name && is_text
        && contents is Ok
}

/// A directory of readable files with ascending versions is read: every file is found, in
/// that order, with its version, name and content.
pub proof fn law_good_directory_is_read(
    dir: &str,
    entries: Vec<ListedEntry>,
    names: Seq<&str>,
    versions: Seq<i64>,
    res: Result<Vec<Migration>, PersistenceError>,
    k: int,
)
    requires
        names.len() == entries@.len(),
        versions.len() == entries@.len(),
        forall|i: int|
            0 <= i < names.len() ==> {
                &&& is_readable(entries@[i], #[trigger] names[i]@)
                &&& call_ensures(discovery::has_sql_extension, (names[i],), true)
                &&& call_ensures(discovery::parse_version_prefix, (names[i],), Ok(versions[i]))
            },
        forall|i: int, j: int| 0 <= i < j < versions.len() ==> versions[i] < versions[j],
        call_ensures(discovery::discover_migrations, (dir, Ok(entries)), res),
    ensures
        res matches Ok(found) && found@.len() == names.len() && (0 <= k < names.len()
            ==> found@[k].version == versions[k] && found@[k].file_name@ == names[k]@
            && found@[k].sql@ == entries@[k]->contents->Ok_0@),
{
    let s = entries@;
    let all = Seq::new(
        s.len(),
        |i: int|
            MigrationView {
                version: versions[i],
                file_name: names[i]@,
                sql: s[i]->contents->Ok_0@,
            },
    );
    assert forall|i: int| 0 <= i < s.len() implies discovery::migration_in(
        dir@,
        #[trigger] s[i],
    ) == Ok::<Option<MigrationView>, PersistenceErrorView>(Some(all[i])) by {
        assert(is_readable(s[i], names[i]@));
    }
    lemma_good_walk(dir@, s, all, s.len() as int);
    assert(s.take(s.len() as int) =~= s && all.take(s.len() as int) =~= all);
    lemma_ascending_is_sorted(all);
    lemma_ascending_has_no_repeat(all, 0);
    let views = migration::views(res->Ok_0@);
    assert(views == all);
    if 0 <= k < names.len() {
        assert(views[k] == res->Ok_0@[k]@);
    }
}

proof fn lemma_good_walk(
    dir: Seq<char>,
    entries: Seq<ListedEntry>,
    all: Seq<MigrationView>,
    n: int,
)
    requires
        0 <= n <= entries.len(),
        all.len() == entries.len(),
        forall|i: int|
            0 <= i < entries.len() ==> discovery::migration_in(dir, #[trigger] entries[i]) == Ok::<
                Option<MigrationView>,
                PersistenceErrorView,
            >(Some(all[i])),
    ensures
        discovery::migrations_in(dir, entries.take(n)) == Ok::<
            Seq<MigrationView>,
            PersistenceErrorView,
        >(all.take(n)),
    decreases n,
{
    if n > 0 {
        lemma_good_walk(dir, entries, all, n - 1);
        assert(entries.take(n).drop_last() =~= entries.take(n - 1));
        assert(entries.take(n).last() == entries[n - 1]);
        assert(all.take(n - 1).push(all[n - 1]) =~= all.take(n));
    } else {
        assert(all.take(0) =~= Seq::<MigrationView>::empty());
    }
}

proof fn lemma_ascending_is_sorted(s: Seq<MigrationView>)
    requires
        forall|i: int, j: int| 0 <= i < j < s.len() ==> (#[trigger] s[i]).version < (
        #[trigger] s[j]).version,
    ensures
        discovery::sorted(s) == s,
    decreases s.len(),
{
    if s.len() > 0 {
        let front = s.drop_last();
        lemma_ascending_is_sorted(front);
        if front.len() > 0 {
            assert(front.last() == s[s.len() - 2]);
            assert(s.last() == s[s.len() - 1]);
            assert(s[s.len() - 2].version < s[s.len() - 1].version);
        }
        assert(front.insert(front.len() as int, s.last()) =~= s);
    }
}

proof fn lemma_ascending_has_no_repeat(s: Seq<MigrationView>, from: int)
    requires
        0 <= from,
        forall|i: int, j: int| 0 <= i < j < s.len() ==> (#[trigger] s[i]).version < (
        #[trigger] s[j]).version,
    ensures
        discovery::first_repeat(s, from) is None,
    decreases s.len() - from,
{
    if from + 1 < s.len() {
        assert(s[from].version < s[from + 1].version);
        lemma_ascending_has_no_repeat(s, from + 1);
    }
}

} // verus!
