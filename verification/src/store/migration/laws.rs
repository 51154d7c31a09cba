//! What a whole run of migrations does to a database.

use vstd::prelude::*;

use crate::persistence::error::PersistenceErrorView;
use crate::store::migration;
use crate::store::migration::runner;
use crate::store::migration::runner::{ApplyFailure, MigrationAction, MigrationEvent};
use crate::store::migration::MigrationView;

verus! {

/// What a run sees of a database: the rows of `_meta`, where it exists, and the
/// migrations that were applied, in order.
pub struct ModelDatabase {
    pub meta: Option<Seq<i64>>,
    pub applied: Seq<MigrationView>,
}

impl ModelDatabase {
    /// The rows of `_meta`; a missing table counts as empty.
    pub open spec fn rows(self) -> Seq<i64> {
        match self.meta {
            Some(rows) => rows,
            None => Seq::empty(),
        }
    }

    /// The version of the database; 0 where none is stored.
    pub open spec fn version(self) -> i64 {
        if self.rows().len() == 0 {
            0
        } else {
            self.rows()[0]
        }
    }

    /// Whether `_meta` is missing, empty or holds one row.
    pub open spec fn is_sound(self) -> bool {
        self.rows().len() <= 1
    }
}

/// Which migrations fail, and how.
pub type Faults = spec_fn(MigrationView) -> Option<ApplyFailure>;

/// No migration fails.
pub open spec fn no_faults() -> Faults {
    |m: MigrationView| None
}

/// The database after an action, and the event that says how it went. A
/// migration that fails is rolled back; every other action succeeds.
pub open spec fn performed(
    db: ModelDatabase,
    ms: Seq<MigrationView>,
    faults: Faults,
    action: MigrationAction,
) -> (ModelDatabase, MigrationEvent) {
    match action {
        MigrationAction::CreateMeta => (
            ModelDatabase { meta: Some(db.rows()), ..db },
            MigrationEvent::MetaCreated(Ok(())),
        ),
        MigrationAction::CountMeta => (
            db,
            MigrationEvent::MetaCounted(Ok(db.rows().len() as i64)),
        ),
        MigrationAction::SeedMeta => (
            ModelDatabase { meta: Some(db.rows().push(0)), ..db },
            MigrationEvent::MetaSeeded(Ok(())),
        ),
        MigrationAction::ReadVersion => (db, MigrationEvent::VersionRead(Ok(db.version()))),
        MigrationAction::Apply(i) => match faults(ms[i as int]) {
            Some(failure) => (db, MigrationEvent::Applied(Err(failure))),
            None => (
                ModelDatabase {
                    meta: Some(db.rows().map_values(|v: i64| ms[i as int].version)),
                    applied: db.applied.push(ms[i as int]),
                },
                MigrationEvent::Applied(Ok(())),
            ),
        },
        MigrationAction::Finished => (db, MigrationEvent::Applied(Ok(()))),
    }
}

/// The database and the result after at most `steps` actions; `None` where the
/// run is not over by then.
pub open spec fn outcome(
    db: ModelDatabase,
    ms: Seq<MigrationView>,
    faults: Faults,
    action: MigrationAction,
    current: i64,
    steps: nat,
) -> (ModelDatabase, Option<Result<(), PersistenceErrorView>>)
    decreases steps,
{
    if action is Finished {
        (db, Some(Ok(())))
    } else if steps == 0 {
        (db, None)
    } else {
        let next = performed(db, ms, faults, action);
        match runner::following(ms, action, current, next.1) {
            Err(e) => (next.0, Some(Err(e))),
            Ok(then_do) => outcome(next.0, ms, faults, then_do.0, then_do.1, (steps - 1) as nat),
        }
    }
}

/// The database and the result after a run from the start.
pub open spec fn run(db: ModelDatabase, ms: Seq<MigrationView>, faults: Faults) -> (
    ModelDatabase,
    Option<Result<(), PersistenceErrorView>>,
) {
    outcome(db, ms, faults, MigrationAction::CreateMeta, 0, ms.len() + 4)
}

/// The number of migrations before the first one that fails.
pub open spec fn good_ones(ms: Seq<MigrationView>, faults: Faults) -> nat
    decreases ms.len(),
{
    if ms.len() == 0 || faults(ms[0]) is Some {
        0
    } else {
        1 + good_ones(ms.drop_first(), faults)
    }
}

/// There are no more good ones than there are, and a fault follows them where
/// there is one.
proof fn lemma_good_ones(ms: Seq<MigrationView>, faults: Faults)
    ensures
        good_ones(ms, faults) <= ms.len(),
        good_ones(ms, faults) < ms.len() ==> faults(ms[good_ones(ms, faults) as int]) is Some,
        faults == no_faults() ==> good_ones(ms, faults) == ms.len(),
    decreases ms.len(),
{
    if ms.len() > 0 && faults(ms[0]) is None {
        lemma_good_ones(ms.drop_first(), faults);
    }
}

proof fn lemma_next_pending(ms: Seq<MigrationView>, from: nat, current: i64)
    requires
        from <= ms.len(),
    ensures
        from <= runner::next_pending(ms, from, current) <= ms.len(),
        forall|i: int|
            from <= i < runner::next_pending(ms, from, current) ==> (#[trigger] ms[i]).version
                <= current,
        runner::next_pending(ms, from, current) < ms.len() ==> ms[runner::next_pending(
            ms,
            from,
            current,
        ) as int].version > current,
    decreases ms.len() - from,
{
    if from < ms.len() && ms[from as int].version <= current {
        lemma_next_pending(ms, from + 1, current);
    }
}

proof fn lemma_pending_is_a_suffix(ms: Seq<MigrationView>, version: i64, n: nat)
    requires
        n <= ms.len(),
        forall|i: int| 0 <= i < n ==> (#[trigger] ms[i]).version <= version,
        forall|i: int| n <= i < ms.len() ==> (#[trigger] ms[i]).version > version,
    ensures
        runner::pending_after(ms, version) == ms.skip(n as int),
    decreases ms.len(),
{
    reveal(Seq::filter);
    if ms.len() > 0 {
        let front = ms.drop_last();
        assert forall|i: int| 0 <= i < front.len() implies front[i] == ms[i] by {}
        if n == ms.len() {
            lemma_pending_is_a_suffix(front, version, (n - 1) as nat);
            assert(ms.last() == ms[ms.len() - 1]);
            assert(ms.skip(n as int) =~= front.skip(n - 1));
        } else {
            lemma_pending_is_a_suffix(front, version, n);
            assert(ms.last() == ms[ms.len() - 1]);
            assert(ms.skip(n as int) =~= front.skip(n as int).push(ms.last()));
        }
    } else {
        assert(ms.skip(n as int) =~= Seq::<MigrationView>::empty());
    }
}

/// What applying `pending` leaves behind.
pub open spec fn applied_to(
    db: ModelDatabase,
    pending: Seq<MigrationView>,
    faults: Faults,
) -> ModelDatabase {
    let n = good_ones(pending, faults);
    ModelDatabase {
        meta: Some(
            seq![
                if n == 0 {
                    db.version()
                } else {
                    pending[n - 1].version
                },
            ],
        ),
        applied: db.applied + pending.take(n as int),
    }
}

/// How applying migrations ends.
pub open spec fn applied_result(pending: Seq<MigrationView>, faults: Faults) -> Result<
    (),
    PersistenceErrorView,
> {
    let n = good_ones(pending, faults);
    if n < pending.len() {
        Err(runner::apply_error(pending[n as int].file_name, faults(pending[n as int])->0))
    } else {
        Ok(())
    }
}

proof fn lemma_apply_from(
    db: ModelDatabase,
    ms: Seq<MigrationView>,
    faults: Faults,
    i: nat,
    current: i64,
    steps: nat,
)
    requires
        ms.len() <= usize::MAX,
        i <= ms.len(),
        forall|k: int| i <= k < ms.len() ==> (#[trigger] ms[k]).version > current,
        db.meta is Some,
        db.rows().len() == 1,
        steps >= ms.len() - i,
    ensures
        outcome(db, ms, faults, runner::apply_from(ms, i, current), current, steps) == (
            applied_to(db, ms.skip(i as int), faults),
            Some(applied_result(ms.skip(i as int), faults)),
        ),
    decreases ms.len() - i,
{
    lemma_next_pending(ms, i, current);
    let action = runner::apply_from(ms, i, current);
    let rest = ms.skip(i as int);
    lemma_good_ones(rest, faults);
    assert(db.rows() =~= seq![db.version()]);
    if i < ms.len() {
        assert(runner::next_pending(ms, i, current) == i);
        assert(action == MigrationAction::Apply(i as usize));
        assert(rest[0] == ms[i as int]);
        let next = performed(db, ms, faults, action);
        if faults(ms[i as int]) is Some {
            assert(db.applied + rest.take(0) =~= db.applied);
            assert(applied_to(db, rest, faults).meta == db.meta);
        } else {
            assert(next.0.rows() =~= seq![ms[i as int].version]);
            lemma_apply_from(next.0, ms, faults, i + 1, current, (steps - 1) as nat);
            assert(rest.drop_first() =~= ms.skip(i as int + 1));
            let n = good_ones(rest.drop_first(), faults);
            lemma_good_ones(rest.drop_first(), faults);
            assert(next.0.applied + rest.drop_first().take(n as int) =~= db.applied + rest.take(
                n as int + 1,
            ));
            assert(applied_to(next.0, rest.drop_first(), faults).meta == applied_to(
                db,
                rest,
                faults,
            ).meta);
        }
    } else {
        assert(db.applied + rest.take(0) =~= db.applied);
    }
}

proof fn lemma_up_to_the_version(db: ModelDatabase, ms: Seq<MigrationView>, faults: Faults)
    requires
        db.is_sound(),
    ensures
        ({
            let ready = ModelDatabase { meta: Some(seq![db.version()]), applied: db.applied };
            match runner::following(
                ms,
                MigrationAction::ReadVersion,
                0,
                MigrationEvent::VersionRead(Ok(db.version())),
            ) {
                Err(e) => run(db, ms, faults) == (ready, Some(Err::<(), PersistenceErrorView>(e))),
                Ok(then_do) => exists|steps: nat|
                    steps >= ms.len() && run(db, ms, faults) == #[trigger] outcome(
                        ready,
                        ms,
                        faults,
                        then_do.0,
                        then_do.1,
                        steps,
                    ),
            }
        }),
{
    reveal_with_fuel(outcome, 5);
    let ready = ModelDatabase { meta: Some(seq![db.version()]), applied: db.applied };
    let created = performed(db, ms, faults, MigrationAction::CreateMeta).0;
    let counted = created.rows().len() as i64;
    if counted == 0 {
        let seeded = performed(created, ms, faults, MigrationAction::SeedMeta).0;
        assert(seeded.rows() =~= seq![0i64]);
        assert(seeded.rows() =~= ready.rows());
        assert(seeded == ready);
        let n: nat = ms.len();
        if let Ok(then_do) = runner::following(
            ms,
            MigrationAction::ReadVersion,
            0,
            MigrationEvent::VersionRead(Ok(db.version())),
        ) {
            assert(run(db, ms, faults) == outcome(ready, ms, faults, then_do.0, then_do.1, n));
        }
    } else {
        assert(created.rows() =~= ready.rows());
        assert(created == ready);
        let n: nat = ms.len() + 1;
        if let Ok(then_do) = runner::following(
            ms,
            MigrationAction::ReadVersion,
            0,
            MigrationEvent::VersionRead(Ok(db.version())),
        ) {
            assert(run(db, ms, faults) == outcome(ready, ms, faults, then_do.0, then_do.1, n));
        }
    }
}

/// A run over a database that is not newer than the known migrations applies the
/// migrations above the database's version, in ascending order, up to the first
/// one that fails. What was applied before that one stays, the failing one leaves
/// nothing behind, and the version is that of the last one applied. The result is
/// the failure, if there was one.
pub proof fn law_run_stops_at_the_first_fault(
    db: ModelDatabase,
    ms: Seq<MigrationView>,
    faults: Faults,
)
    requires
        migration::ascending(ms),
        ms.len() <= usize::MAX,
        db.is_sound(),
        db.version() <= runner::highest_known(ms),
    ensures
        ({
            let pending = runner::pending_after(ms, db.version());
            let n = good_ones(pending, faults);
            let after = run(db, ms, faults).0;
            &&& n <= pending.len()
            &&& after.applied == db.applied + pending.take(n as int)
            &&& after.meta == Some(
                seq![
                    if n == 0 {
                        db.version()
                    } else {
                        pending[n - 1].version
                    },
                ],
            )
            &&& n == pending.len() ==> run(db, ms, faults).1 == Some(
                Ok::<(), PersistenceErrorView>(()),
            )
            &&& n < pending.len() ==> {
                &&& faults(pending[n as int]) is Some
                &&& run(db, ms, faults).1 == Some(
                    Err::<(), PersistenceErrorView>(
                        runner::apply_error(
                            pending[n as int].file_name,
                            faults(pending[n as int])->0,
                        ),
                    ),
                )
            }
        }),
{
    lemma_up_to_the_version(db, ms, faults);
    let current = db.version();
    let ready = ModelDatabase { meta: Some(seq![current]), applied: db.applied };
    lemma_next_pending(ms, 0, current);
    let first = runner::next_pending(ms, 0, current);
    assert forall|k: int| first <= k < ms.len() implies (#[trigger] ms[k]).version > current by {
        assert(ms[first as int].version <= ms[k].version);
    }
    let action = runner::apply_from(ms, 0, current);
    let steps = choose|steps: nat|
        steps >= ms.len() && run(db, ms, faults) == #[trigger] outcome(
            ready,
            ms,
            faults,
            action,
            current,
            steps,
        );
    assert(runner::next_pending(ms, first, current) == first);
    assert(action == runner::apply_from(ms, first, current));
    lemma_apply_from(ready, ms, faults, first, current, steps);
    lemma_pending_is_a_suffix(ms, current, first);
    lemma_good_ones(runner::pending_after(ms, current), faults);
}

/// Where no migration fails, a run over a database that is not newer than the
/// known migrations succeeds, applies exactly the migrations above the database's
/// version, in ascending order, and leaves the database at the highest known
/// version. Without any migrations the database keeps its version.
pub proof fn law_run_reaches_the_highest_version(db: ModelDatabase, ms: Seq<MigrationView>)
    requires
        migration::ascending(ms),
        ms.len() <= usize::MAX,
        db.is_sound(),
        db.version() <= runner::highest_known(ms),
    ensures
        run(db, ms, no_faults()).1 == Some(Ok::<(), PersistenceErrorView>(())),
        run(db, ms, no_faults()).0.applied == db.applied + runner::pending_after(
            ms,
            db.version(),
        ),
        run(db, ms, no_faults()).0.meta == Some(
            seq![
                if ms.len() == 0 {
                    db.version()
                } else {
                    runner::highest_known(ms)
                },
            ],
        ),
{
    law_run_stops_at_the_first_fault(db, ms, no_faults());
    let current = db.version();
    let pending = runner::pending_after(ms, current);
    lemma_good_ones(pending, no_faults());
    assert(pending.take(pending.len() as int) =~= pending);
    lemma_next_pending(ms, 0, current);
    let first = runner::next_pending(ms, 0, current);
    assert forall|k: int| first <= k < ms.len() implies (#[trigger] ms[k]).version > current by {
        assert(ms[first as int].version <= ms[k].version);
    }
    lemma_pending_is_a_suffix(ms, current, first);
    if ms.len() > 0 {
        assert(ms.last() == ms[ms.len() - 1]);
        if first < ms.len() {
            assert(pending.last() == ms.last());
        }
    }
}

/// A second run changes nothing.
pub proof fn law_rerun_is_a_no_op(db: ModelDatabase, ms: Seq<MigrationView>)
    requires
        migration::ascending(ms),
        ms.len() <= usize::MAX,
        db.is_sound(),
        db.version() <= runner::highest_known(ms),
    ensures
        run(run(db, ms, no_faults()).0, ms, no_faults()).1 == Some(
            Ok::<(), PersistenceErrorView>(()),
        ),
        run(run(db, ms, no_faults()).0, ms, no_faults()).0 == run(db, ms, no_faults()).0,
{
    law_run_reaches_the_highest_version(db, ms);
    let first = run(db, ms, no_faults()).0;
    law_run_reaches_the_highest_version(first, ms);
    assert forall|i: int| 0 <= i < ms.len() implies (#[trigger] ms[i]).version
        <= first.version() by {
        assert(ms.last() == ms[ms.len() - 1]);
    }
    lemma_pending_is_a_suffix(ms, first.version(), ms.len());
    assert(ms.skip(ms.len() as int) =~= Seq::<MigrationView>::empty());
    assert(run(first, ms, no_faults()).0.applied =~= first.applied);
}

/// A run that was stopped by a fault goes on, once that fault is mended, where it
/// stopped: in the end every migration was applied once, in ascending order.
pub proof fn law_mended_run_goes_on(db: ModelDatabase, ms: Seq<MigrationView>, faults: Faults)
    requires
        migration::ascending(ms),
        ms.len() <= usize::MAX,
        db.is_sound(),
        db.version() <= runner::highest_known(ms),
    ensures
        run(run(db, ms, faults).0, ms, no_faults()) == run(db, ms, no_faults()),
{
    law_run_stops_at_the_first_fault(db, ms, faults);
    law_run_reaches_the_highest_version(db, ms);
    let current = db.version();
    let pending = runner::pending_after(ms, current);
    let n = good_ones(pending, faults);
    let half = run(db, ms, faults).0;
    lemma_next_pending(ms, 0, current);
    let first = runner::next_pending(ms, 0, current);
    assert forall|k: int| first <= k < ms.len() implies (#[trigger] ms[k]).version > current by {
        assert(ms[first as int].version <= ms[k].version);
    }
    lemma_pending_is_a_suffix(ms, current, first);
    assert(pending == ms.skip(first as int));
    if n > 0 {
        assert(half.version() == ms[first + n - 1].version);
        assert(ms.last() == ms[ms.len() - 1]);
    }
    law_run_reaches_the_highest_version(half, ms);
    lemma_pending_is_a_suffix(ms, half.version(), first + n);
    assert(half.applied + ms.skip((first + n) as int) =~= db.applied + pending);
}

/// A database that is newer than the known migrations is refused, and keeps its
/// version and what was applied.
pub proof fn law_newer_database_is_refused(
    db: ModelDatabase,
    ms: Seq<MigrationView>,
    faults: Faults,
)
    requires
        db.is_sound(),
        db.version() > runner::highest_known(ms),
    ensures
        run(db, ms, faults).1 matches Some(Err(PersistenceErrorView::SchemaVersionMismatch(_))),
        run(db, ms, faults).0.version() == db.version(),
        run(db, ms, faults).0.applied == db.applied,
{
    lemma_up_to_the_version(db, ms, faults);
}

/// A `_meta` table of more than one row is refused before anything is applied.
pub proof fn law_corrupt_meta_is_refused(
    db: ModelDatabase,
    ms: Seq<MigrationView>,
    faults: Faults,
)
    requires
        1 < db.rows().len() <= i64::MAX,
    ensures
        run(db, ms, faults).1 matches Some(Err(PersistenceErrorView::MigrationFailed(_))),
        run(db, ms, faults).0.rows() == db.rows(),
        run(db, ms, faults).0.applied == db.applied,
{
    reveal_with_fuel(outcome, 3);
}

/// A migration that fails ends the run with an error that names its file, unless
/// its transaction could not even be opened.
pub proof fn law_failed_migration_ends_the_run(
    ms: Seq<MigrationView>,
    i: usize,
    current: i64,
    failure: ApplyFailure,
)
    requires
        i < ms.len(),
        !(failure is Opening),
    ensures
        runner::following(
            ms,
            MigrationAction::Apply(i),
            current,
            MigrationEvent::Applied(Err(failure)),
        ) matches Err(PersistenceErrorView::MigrationFailed(message))
            && message.len() >= ms[i as int].file_name.len()
            && message.take(ms[i as int].file_name.len() as int) == ms[i as int].file_name,
{
    let name = ms[i as int].file_name;
    match failure {
        ApplyFailure::Opening(_) => {},
        ApplyFailure::Statements(err) => {
            assert((name + ": "@ + err@).take(name.len() as int) =~= name);
        },
        ApplyFailure::Version(err) => {
            assert((name + ": updating schema_version: "@ + err@).take(name.len() as int) =~= name);
        },
        ApplyFailure::Commit(err) => {
            assert((name + ": committing migration: "@ + err@).take(name.len() as int) =~= name);
        },
    }
}

} // verus!
