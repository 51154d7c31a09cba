//! Bringing a database to the newest version.
//!
//! A run is a dialogue: the runner names an action on the database, and is told
//! how it went. It never goes back to an older version.

use vstd::prelude::*;
use vstd::string::*;

use crate::numeral;
use crate::persistence::error::{PersistenceError, PersistenceErrorView};
use crate::store::migration;
use crate::store::migration::discovery;
use crate::store::migration::discovery::ListedEntry;
use crate::store::migration::{Migration, MigrationView};
use crate::store::sql::{is_busy, SqlFailure};

verus! {

/// What to do with the database next.
#[derive(Debug, Clone, Copy, PartialEq, Eq, Structural)]
pub enum MigrationAction {
    /// Create the table `_meta` where it does not exist.
    CreateMeta,
    /// Count the rows of `_meta`.
    CountMeta,
    /// Insert the version 0 into `_meta`.
    SeedMeta,
    /// Read the version from `_meta`.
    ReadVersion,
    /// Run the migration at this place and store its version, in one
    /// transaction of its own.
    Apply(usize),
    /// Nothing: the run is over.
    Finished,
}

/// Why a migration could not be applied. Its transaction is rolled back.
#[derive(Debug, Clone, PartialEq, Eq)]
pub enum ApplyFailure {
    /// The transaction could not be opened.
    Opening(SqlFailure),
    /// A statement of the migration failed.
    Statements(String),
    /// The version could not be stored.
    Version(String),
    /// The transaction could not be committed.
    Commit(String),
}

/// How an action went.
#[derive(Debug, PartialEq, Eq)]
pub enum MigrationEvent {
    /// `_meta` exists, or could not be created.
    MetaCreated(Result<(), SqlFailure>),
    /// The number of rows of `_meta`.
    MetaCounted(Result<i64, SqlFailure>),
    /// The version 0 is stored, or could not be.
    MetaSeeded(Result<(), SqlFailure>),
    /// The version in `_meta`.
    VersionRead(Result<i64, SqlFailure>),
    /// The migration is applied, or could not be.
    Applied(Result<(), ApplyFailure>),
}

/// Whether an event says how an action went.
pub open spec fn answers(event: MigrationEvent, action: MigrationAction) -> bool {
    match event {
        MigrationEvent::MetaCreated(_) => action is CreateMeta,
        MigrationEvent::MetaCounted(_) => action is CountMeta,
        MigrationEvent::MetaSeeded(_) => action is SeedMeta,
        MigrationEvent::VersionRead(_) => action is ReadVersion,
        MigrationEvent::Applied(_) => action is Apply,
    }
}

/// The error for a failure of the runner's own statements.
pub open spec fn setup_error(context: Seq<char>, failure: SqlFailure) -> PersistenceErrorView {
    let message = context + ": "@ + failure.rendered();
    if failure.is_contention() {
        PersistenceErrorView::DatabaseLocked(message)
    } else {
        PersistenceErrorView::MigrationFailed(message)
    }
}

/// The error for a migration that could not be applied.
pub open spec fn apply_error(file_name: Seq<char>, failure: ApplyFailure) -> PersistenceErrorView {
    match failure {
        ApplyFailure::Opening(f) => setup_error("opening migration transaction"@, f),
        ApplyFailure::Statements(err) => PersistenceErrorView::MigrationFailed(
            file_name + ": "@ + err@,
        ),
        ApplyFailure::Version(err) => PersistenceErrorView::MigrationFailed(
            file_name + ": updating schema_version: "@ + err@,
        ),
        ApplyFailure::Commit(err) => PersistenceErrorView::MigrationFailed(
            file_name + ": committing migration: "@ + err@,
        ),
    }
}

/// The version of the last migration, or 0 where there is none.
pub open spec fn highest_known(ms: Seq<MigrationView>) -> i64 {
    if ms.len() == 0 {
        0
    } else {
        ms.last().version
    }
}

/// The first place at or after `from` whose version is above `current`.
pub open spec fn next_pending(ms: Seq<MigrationView>, from: nat, current: i64) -> nat
    decreases ms.len() - from,
{
    if from >= ms.len() {
        ms.len()
    } else if ms[from as int].version > current {
        from
    } else {
        next_pending(ms, from + 1, current)
    }
}

/// The action that applies the next pending migration.
pub open spec fn apply_from(ms: Seq<MigrationView>, from: nat, current: i64) -> MigrationAction {
    if next_pending(ms, from, current) < ms.len() {
        MigrationAction::Apply(next_pending(ms, from, current) as usize)
    } else {
        MigrationAction::Finished
    }
}

/// The action that follows, and the version that the run started from; or the
/// error that ends the run.
pub open spec fn following(
    ms: Seq<MigrationView>,
    action: MigrationAction,
    current: i64,
    event: MigrationEvent,
) -> Result<(MigrationAction, i64), PersistenceErrorView> {
    match event {
        MigrationEvent::MetaCreated(Err(f)) => Err(setup_error("creating _meta table"@, f)),
        MigrationEvent::MetaCreated(Ok(_)) => Ok((MigrationAction::CountMeta, current)),
        MigrationEvent::MetaCounted(Err(f)) => Err(setup_error("reading _meta row count"@, f)),
        MigrationEvent::MetaCounted(Ok(n)) => if n == 0 {
            Ok((MigrationAction::SeedMeta, current))
        } else if n == 1 {
            Ok((MigrationAction::ReadVersion, current))
        } else {
            Err(
                PersistenceErrorView::MigrationFailed(
                    "_meta table is corrupt: expected 0 or 1 rows, found "@
                        + numeral::signed_decimal(n as int),
                ),
            )
        },
        MigrationEvent::MetaSeeded(Err(f)) => Err(setup_error("seeding _meta row"@, f)),
        MigrationEvent::MetaSeeded(Ok(_)) => Ok((MigrationAction::ReadVersion, current)),
        MigrationEvent::VersionRead(Err(f)) => Err(setup_error("reading schema_version"@, f)),
        MigrationEvent::VersionRead(Ok(version)) => if version > highest_known(ms) {
            Err(
                PersistenceErrorView::SchemaVersionMismatch(
                    "database at version "@ + numeral::signed_decimal(version as int)
                        + ", highest known migration is "@ + numeral::signed_decimal(
                        highest_known(ms) as int,
                    ),
                ),
            )
        } else {
            Ok((apply_from(ms, 0, version), version))
        },
        MigrationEvent::Applied(Err(f)) => Err(
            apply_error(ms[action->Apply_0 as int].file_name, f),
        ),
        MigrationEvent::Applied(Ok(_)) => Ok(
            (apply_from(ms, (action->Apply_0 + 1) as nat, current), current),
        ),
    }
}

/// The migrations above a version, in ascending order.
pub open spec fn pending_after(ms: Seq<MigrationView>, version: i64) -> Seq<MigrationView> {
    ms.filter(|m: MigrationView| m.version > version)
}

fn map_setup_error(context: &str, failure: &SqlFailure) -> (res: PersistenceError)
    ensures
        res@ == setup_error(context@, *failure),
{
    let message = context.to_owned().concat(": ").concat(failure.describe());
    if is_busy(failure) {
        PersistenceError::DatabaseLocked(message)
    } else {
        PersistenceError::MigrationFailed(message)
    }
}

fn map_apply_error(file_name: &str, failure: &ApplyFailure) -> (res: PersistenceError)
    ensures
        res@ == apply_error(file_name@, *failure),
{
    match failure {
        ApplyFailure::Opening(f) => map_setup_error("opening migration transaction", f),
        ApplyFailure::Statements(err) => PersistenceError::MigrationFailed(
            file_name.to_owned().concat(": ").concat(err.as_str()),
        ),
        ApplyFailure::Version(err) => PersistenceError::MigrationFailed(
            file_name.to_owned().concat(": updating schema_version: ").concat(err.as_str()),
        ),
        ApplyFailure::Commit(err) => PersistenceError::MigrationFailed(
            file_name.to_owned().concat(": committing migration: ").concat(err.as_str()),
        ),
    }
}

/// The run of the migrations of one directory over one database.
#[derive(Debug)]
pub struct MigrationRunner {
    migrations: Vec<Migration>,
    action: MigrationAction,
    current: i64,
}

impl MigrationRunner {
    #[verifier::type_invariant]
    spec fn well_formed(self) -> bool {
        &&& migration::ascending(migration::views(self.migrations@))
        &&& self.action matches MigrationAction::Apply(i) ==> i < self.migrations.len()
    }

    /// The known migrations, in ascending order.
    pub closed spec fn known(self) -> Seq<MigrationView> {
        migration::views(self.migrations@)
    }

    /// What to do next.
    pub closed spec fn pending_action(self) -> MigrationAction {
        self.action
    }

    /// The version that the database had when it was read.
    pub closed spec fn started_from(self) -> i64 {
        self.current
    }

    /// A run of the migrations of the listed directory `dir`, which has not
    /// touched the database yet.
    pub fn new(dir: &str, listing: Result<Vec<ListedEntry>, String>) -> (res: Result<
        Self,
        PersistenceError,
    >)
        ensures
            match res {
                Ok(runner) => {
                    &&& discovery::discovered(dir@, listing) == Ok::<
                        Seq<MigrationView>,
                        PersistenceErrorView,
                    >(runner.known())
                    &&& migration::ascending(runner.known())
                    &&& runner.pending_action() == MigrationAction::CreateMeta
                    &&& runner.started_from() == 0
                },
                Err(e) => discovery::discovered(dir@, listing) == Err::<
                    Seq<MigrationView>,
                    PersistenceErrorView,
                >(e@),
            },
    {
        proof {
            discovery::law_discovered_ascends(dir@, listing);
        }
        match discovery::discover_migrations(dir, listing) {
            Ok(migrations) => Ok(
                Self { migrations, action: MigrationAction::CreateMeta, current: 0 },
            ),
            Err(e) => Err(e),
        }
    }

    /// What to do next.
    #[must_use]
    pub fn next_action(&self) -> (res: MigrationAction)
        ensures
            res == self.pending_action(),
            migration::ascending(self.known()),
            res matches MigrationAction::Apply(i) ==> i < self.known().len(),
    {
        proof {
            use_type_invariant(&*self);
        }
        self.action
    }

    /// The migration at a place.
    #[must_use]
    pub fn migration(&self, index: usize) -> (res: Option<&Migration>)
        ensures
            match res {
                Some(m) => index < self.known().len() && m@ == self.known()[index as int],
                None => index >= self.known().len(),
            },
    {
        if index < self.migrations.len() {
            Some(&self.migrations[index])
        } else {
            None
        }
    }

    /// The versions and file names of the migrations above a version, in
    /// ascending order.
    pub fn pending_migrations(&self, version: i64) -> (res: Vec<(i64, String)>)
        ensures
            res.len() == pending_after(self.known(), version).len(),
            forall|i: int|
                0 <= i < res.len() ==> {
                    &&& (#[trigger] res[i]).0 == pending_after(self.known(), version)[i].version
                    &&& res[i].1@ == pending_after(self.known(), version)[i].file_name
                },
    {
        proof {
            reveal(Seq::filter);
        }
        let ghost known = self.known();
        let mut res: Vec<(i64, String)> = Vec::new();
        let mut i: usize = 0;
        while i < self.migrations.len()
            invariant
                i <= self.migrations.len(),
                known == self.known(),
                known == migration::views(self.migrations@),
                res.len() == pending_after(known.take(i as int), version).len(),
                forall|k: int|
                    0 <= k < res.len() ==> {
                        &&& (#[trigger] res[k]).0 == pending_after(
                            known.take(i as int),
                            version,
                        )[k].version
                        &&& res[k].1@ == pending_after(known.take(i as int), version)[k].file_name
                    },
            decreases self.migrations.len() - i,
        {
            proof {
                reveal(Seq::filter);
                assert(known.take(i + 1).drop_last() =~= known.take(i as int));
                assert(known.take(i + 1).last() == self.migrations@[i as int]@);
            }
            if self.migrations[i].version > version {
                res.push((self.migrations[i].version, self.migrations[i].file_name.clone()));
            }
            i += 1;
        }
        assert(known.take(i as int) =~= known);
        res
    }

    fn action_from(&self, from: usize, current: i64) -> (res: MigrationAction)
        requires
            from <= self.known().len(),
        ensures
            res == apply_from(self.known(), from as nat, current),
            res matches MigrationAction::Apply(i) ==> i < self.known().len(),
    {
        let ghost known = self.known();
        let mut i: usize = from;
        while i < self.migrations.len() && self.migrations[i].version <= current
            invariant
                from <= i <= self.migrations.len(),
                known == migration::views(self.migrations@),
                next_pending(known, i as nat, current) == next_pending(
                    known,
                    from as nat,
                    current,
                ),
            decreases self.migrations.len() - i,
        {
            assert(known[i as int] == self.migrations@[i as int]@);
            i += 1;
        }
        if i < self.migrations.len() {
            assert(known[i as int] == self.migrations@[i as int]@);
            MigrationAction::Apply(i)
        } else {
            MigrationAction::Finished
        }
    }

    fn decide(&self, event: &MigrationEvent) -> (res: Result<
        (MigrationAction, i64),
        PersistenceError,
    >)
        requires
            answers(*event, self.pending_action()),
        ensures
            match res {
                Ok(next) => {
                    &&& following(
                        self.known(),
                        self.pending_action(),
                        self.started_from(),
                        *event,
                    ) == Ok::<(MigrationAction, i64), PersistenceErrorView>(next)
                    &&& next.0 matches MigrationAction::Apply(i) ==> i < self.known().len()
                },
                Err(e) => following(
                    self.known(),
                    self.pending_action(),
                    self.started_from(),
                    *event,
                ) == Err::<(MigrationAction, i64), PersistenceErrorView>(e@),
            },
    {
        proof {
            use_type_invariant(&*self);
        }
        match event {
            MigrationEvent::MetaCreated(Err(f)) => Err(map_setup_error("creating _meta table", f)),
            MigrationEvent::MetaCreated(Ok(_)) => Ok((MigrationAction::CountMeta, self.current)),
            MigrationEvent::MetaCounted(Err(f)) => Err(
                map_setup_error("reading _meta row count", f),
            ),
            MigrationEvent::MetaCounted(Ok(n)) => {
                if *n == 0 {
                    Ok((MigrationAction::SeedMeta, self.current))
                } else if *n == 1 {
                    Ok((MigrationAction::ReadVersion, self.current))
                } else {
                    Err(
                        PersistenceError::MigrationFailed(
                            "_meta table is corrupt: expected 0 or 1 rows, found ".to_owned().concat(
                                numeral::signed_decimal_text(*n).as_str(),
                            ),
                        ),
                    )
                }
            },
            MigrationEvent::MetaSeeded(Err(f)) => Err(map_setup_error("seeding _meta row", f)),
            MigrationEvent::MetaSeeded(Ok(_)) => Ok((MigrationAction::ReadVersion, self.current)),
            MigrationEvent::VersionRead(Err(f)) => Err(
                map_setup_error("reading schema_version", f),
            ),
            MigrationEvent::VersionRead(Ok(version)) => {
                let n: usize = self.migrations.len();
                let highest: i64 = if n == 0 {
                    0
                } else {
                    self.migrations[n - 1].version
                };
                assert(highest == highest_known(self.known()));
                if *version > highest {
                    Err(
                        PersistenceError::SchemaVersionMismatch(
                            "database at version ".to_owned().concat(
                                numeral::signed_decimal_text(*version).as_str(),
                            ).concat(", highest known migration is ").concat(
                                numeral::signed_decimal_text(highest).as_str(),
                            ),
                        ),
                    )
                } else {
                    Ok((self.action_from(0, *version), *version))
                }
            },
            MigrationEvent::Applied(outcome) => {
                let i: usize = match self.action {
                    MigrationAction::Apply(i) => i,
                    _ => 0,
                };
                assert(self.known()[i as int] == self.migrations@[i as int]@);
                match outcome {
                    Err(f) => Err(map_apply_error(self.migrations[i].file_name.as_str(), f)),
                    Ok(_) => Ok((self.action_from(i + 1, self.current), self.current)),
                }
            },
        }
    }

    /// Takes in how the last action went. An error ends the run.
    pub fn advance(&mut self, event: MigrationEvent) -> (res: Result<(), PersistenceError>)
        requires
            answers(event, old(self).pending_action()),
        ensures
            final(self).known() == old(self).known(),
            match following(
                old(self).known(),
                old(self).pending_action(),
                old(self).started_from(),
                event,
            ) {
                Ok(next) => {
                    &&& res is Ok
                    &&& final(self).pending_action() == next.0
                    &&& final(self).started_from() == next.1
                },
                Err(e) => {
                    &&& res matches Err(err) && err@ == e
                    &&& final(self).pending_action() == MigrationAction::Finished
                    &&& final(self).started_from() == old(self).started_from()
                },
            },
    {
        proof {
            use_type_invariant(&*self);
        }
        match self.decide(&event) {
            Ok(next) => {
                self.action = next.0;
                self.current = next.1;
                Ok(())
            },
            Err(e) => {
                self.action = MigrationAction::Finished;
                Err(e)
            },
        }
    }
}

} // verus!
