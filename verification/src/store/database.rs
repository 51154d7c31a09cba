//! Opening a database: its directory, its connection, its settings and its
//! migrations, in that order.

use vstd::prelude::*;
use vstd::string::*;

use crate::persistence::error::{PersistenceError, PersistenceErrorView};
use crate::store::sql::{is_busy, SqlFailure};
use crate::text;

verus! {

/// One setting of a connection.
#[derive(Debug, Clone, PartialEq, Eq)]
pub struct Pragma {
    pub name: String,
    pub value: String,
}

/// The settings of every connection, in order.
pub open spec fn pragma_list() -> Seq<(Seq<char>, Seq<char>)> {
    seq![
        ("journal_mode"@, "WAL"@),
        ("synchronous"@, "NORMAL"@),
        ("foreign_keys"@, "ON"@),
        ("busy_timeout"@, "5000"@),
    ]
}

/// The settings of every connection, in order.
#[must_use]
pub fn pragmas() -> (res: Vec<Pragma>)
    ensures
        res@.len() == pragma_list().len(),
        forall|i: int|
            0 <= i < res@.len() ==> (#[trigger] res@[i]).name@ == pragma_list()[i].0
                && res@[i].value@ == pragma_list()[i].1,
{
    vec![
        Pragma { name: "journal_mode".to_owned(), value: "WAL".to_owned() },
        Pragma { name: "synchronous".to_owned(), value: "NORMAL".to_owned() },
        Pragma { name: "foreign_keys".to_owned(), value: "ON".to_owned() },
        Pragma { name: "busy_timeout".to_owned(), value: "5000".to_owned() },
    ]
}

/// What to do next in order to open a database.
#[derive(Debug, Clone, PartialEq, Eq)]
pub enum OpenAction {
    /// Create this directory, with its parents.
    CreateParent(String),
    /// Open the connection.
    Connect,
    /// Apply the settings of every connection.
    Configure,
    /// Run the migrations.
    Migrate,
    /// Nothing: the database is open.
    Ready,
    /// Nothing: it could not be opened.
    Failed,
}

/// Why running the migrations failed.
#[derive(Debug, Clone, PartialEq, Eq)]
pub enum MigrateFailure {
    /// The run ended with an error.
    Run(PersistenceError),
    /// The run was not even carried out.
    Call(String),
}

/// How an action went.
#[derive(Debug, PartialEq, Eq)]
pub enum OpenEvent {
    /// The directory exists, or could not be created.
    ParentCreated(Result<(), String>),
    /// The connection is open, or could not be opened.
    Connected(Result<(), SqlFailure>),
    /// The settings are applied, or could not be.
    Configured(Result<(), SqlFailure>),
    /// The migrations have run, or have not.
    Migrated(Result<(), MigrateFailure>),
}

/// The error for a failure of the connection.
pub open spec fn connection_error(
    context: Seq<char>,
    failure: SqlFailure,
) -> PersistenceErrorView {
    let message = context + ": "@ + failure.rendered();
    if failure.is_contention() {
        PersistenceErrorView::DatabaseLocked(message)
    } else {
        PersistenceErrorView::IoError(message)
    }
}

/// The error for migrations that did not run to their end.
pub open spec fn migrate_error(failure: MigrateFailure) -> PersistenceErrorView {
    match failure {
        MigrateFailure::Run(e) => e@,
        MigrateFailure::Call(err) => PersistenceErrorView::MigrationFailed(
            "running migrations: "@ + err@,
        ),
    }
}

/// The action that follows an event, or the error that ends the opening. An
/// event that does not answer the action changes nothing.
pub open spec fn following(action: OpenAction, event: OpenEvent) -> Result<
    OpenAction,
    PersistenceErrorView,
> {
    match (action, event) {
        (OpenAction::CreateParent(parent), OpenEvent::ParentCreated(Err(err))) => Err(
            PersistenceErrorView::IoError(
                "creating database parent directory "@ + parent@ + ": "@ + err@,
            ),
        ),
        (OpenAction::CreateParent(_), OpenEvent::ParentCreated(Ok(_))) => Ok(OpenAction::Connect),
        (OpenAction::Connect, OpenEvent::Connected(Err(f))) => Err(
            connection_error("opening database"@, f),
        ),
        (OpenAction::Connect, OpenEvent::Connected(Ok(_))) => Ok(OpenAction::Configure),
        (OpenAction::Configure, OpenEvent::Configured(Err(f))) => Err(
            connection_error("configuring database"@, f),
        ),
        (OpenAction::Configure, OpenEvent::Configured(Ok(_))) => Ok(OpenAction::Migrate),
        (OpenAction::Migrate, OpenEvent::Migrated(Err(f))) => Err(migrate_error(f)),
        (OpenAction::Migrate, OpenEvent::Migrated(Ok(_))) => Ok(OpenAction::Ready),
        _ => Ok(action),
    }
}

fn map_connection_error(context: &str, failure: &SqlFailure) -> (res: PersistenceError)
    ensures
        res@ == connection_error(context@, *failure),
{
    let message = context.to_owned().concat(": ").concat(failure.describe());
    if is_busy(failure) {
        PersistenceError::DatabaseLocked(message)
    } else {
        PersistenceError::IoError(message)
    }
}

/// The opening of one database.
#[derive(Debug, PartialEq, Eq)]
pub struct DatabaseOpening {
    path: String,
    action: OpenAction,
}

impl DatabaseOpening {
    /// The path of the database.
    pub closed spec fn location(self) -> Seq<char> {
        self.path@
    }

    /// What to do next.
    pub closed spec fn pending_action(self) -> OpenAction {
        self.action
    }

    /// The opening of the database at `path`, whose directory is `parent`. A
    /// directory without a name needs not be created.
    pub fn new(path: &str, parent: Option<String>) -> (res: Self)
        ensures
            res.location() == path@,
            res.pending_action() == match parent {
                Some(p) => if p@.len() == 0 {
                    OpenAction::Connect
                } else {
                    OpenAction::CreateParent(p)
                },
                None => OpenAction::Connect,
            },
    {
        let action = match parent {
            Some(p) => {
                if text::chars_of(p.as_str()).len() == 0 {
                    OpenAction::Connect
                } else {
                    OpenAction::CreateParent(p)
                }
            },
            None => OpenAction::Connect,
        };
        Self { path: path.to_owned(), action }
    }

    /// The opening of a database that lives in memory.
    pub fn in_memory() -> (res: Self)
        ensures
            res.location() == ":memory:"@,
            res.pending_action() == OpenAction::Connect,
    {
        Self { path: ":memory:".to_owned(), action: OpenAction::Connect }
    }

    /// The path of the database.
    #[must_use]
    pub fn path(&self) -> (res: &str)
        ensures
            res@ == self.location(),
    {
        self.path.as_str()
    }

    /// What to do next.
    #[must_use]
    pub fn next_action(&self) -> (res: &OpenAction)
        ensures
            *res == self.pending_action(),
    {
        &self.action
    }

    /// Takes in how the last action went. An error ends the opening.
    pub fn advance(&mut self, event: OpenEvent) -> (res: Result<(), PersistenceError>)
        ensures
            final(self).location() == old(self).location(),
            match following(old(self).pending_action(), event) {
                Ok(action) => res is Ok && final(self).pending_action() == action,
                Err(e) => {
                    &&& res matches Err(err) && err@ == e
                    &&& final(self).pending_action() == OpenAction::Failed
                },
            },
    {
        let failure = match (&self.action, event) {
            (OpenAction::CreateParent(parent), OpenEvent::ParentCreated(outcome)) => match outcome {
                Ok(_) => {
                    self.action = OpenAction::Connect;
                    return Ok(());
                },
                Err(err) => PersistenceError::IoError(
                    "creating database parent directory ".to_owned().concat(
                        parent.as_str(),
                    ).concat(": ").concat(err.as_str()),
                ),
            },
            (OpenAction::Connect, OpenEvent::Connected(outcome)) => match outcome {
                Ok(_) => {
                    self.action = OpenAction::Configure;
                    return Ok(());
                },
                Err(f) => map_connection_error("opening database", &f),
            },
            (OpenAction::Configure, OpenEvent::Configured(outcome)) => match outcome {
                Ok(_) => {
                    self.action = OpenAction::Migrate;
                    return Ok(());
                },
                Err(f) => map_connection_error("configuring database", &f),
            },
            (OpenAction::Migrate, OpenEvent::Migrated(outcome)) => match outcome {
                Ok(_) => {
                    self.action = OpenAction::Ready;
                    return Ok(());
                },
                Err(MigrateFailure::Run(e)) => e,
                Err(MigrateFailure::Call(err)) => PersistenceError::MigrationFailed(
                    "running migrations: ".to_owned().concat(err.as_str()),
                ),
            },
            _ => {
                return Ok(());
            },
        };
        self.action = OpenAction::Failed;
        Err(failure)
    }
}

/// The action after a sequence of events, or the first error.
pub open spec fn reached(start: OpenAction, events: Seq<OpenEvent>) -> Result<
    OpenAction,
    PersistenceErrorView,
>
    decreases events.len(),
{
    if events.len() == 0 {
        Ok(start)
    } else {
        match reached(start, events.drop_last()) {
            Err(e) => Err(e),
            Ok(action) => following(action, events.last()),
        }
    }
}

spec fn connected_at(events: Seq<OpenEvent>, i: int) -> bool {
    0 <= i < events.len() && events[i] matches OpenEvent::Connected(Ok(_))
}

spec fn configured_at(events: Seq<OpenEvent>, i: int) -> bool {
    0 <= i < events.len() && events[i] matches OpenEvent::Configured(Ok(_))
}

proof fn lemma_reached_migrate(start: OpenAction, events: Seq<OpenEvent>)
    requires
        start is CreateParent || start is Connect,
    ensures
        reached(start, events) == Ok::<OpenAction, PersistenceErrorView>(OpenAction::Configure)
            ==> exists|i: int| connected_at(events, i),
        reached(start, events) == Ok::<OpenAction, PersistenceErrorView>(OpenAction::Migrate)
            ==> exists|i: int, j: int|
            i < j && #[trigger] connected_at(events, i) && #[trigger] configured_at(events, j),
    decreases events.len(),
{
    if events.len() > 0 {
        let front = events.drop_last();
        let n = events.len() - 1;
        lemma_reached_migrate(start, front);
        assert(events[n] == events.last());
        if reached(start, events) == Ok::<OpenAction, PersistenceErrorView>(OpenAction::Configure) {
            if reached(start, front) == Ok::<OpenAction, PersistenceErrorView>(
                OpenAction::Configure,
            ) {
                let i = choose|i: int| connected_at(front, i);
                assert(front[i] == events[i]);
                assert(connected_at(events, i));
            } else {
                assert(connected_at(events, n));
            }
        }
        if reached(start, events) == Ok::<OpenAction, PersistenceErrorView>(OpenAction::Migrate) {
            if reached(start, front) == Ok::<OpenAction, PersistenceErrorView>(
                OpenAction::Migrate,
            ) {
                let (i, j) = choose|i: int, j: int|
                    i < j && #[trigger] connected_at(front, i) && #[trigger] configured_at(
                        front,
                        j,
                    );
                assert(front[i] == events[i] && front[j] == events[j]);
                assert(connected_at(events, i) && configured_at(events, j));
            } else {
                let i = choose|i: int| connected_at(front, i);
                assert(front[i] == events[i]);
                assert(connected_at(events, i) && configured_at(events, n));
            }
        }
    }
}

/// A database is open only after it was connected to, then configured, and then
/// migrated, each with success.
pub proof fn law_open_means_configured_and_migrated(start: OpenAction, events: Seq<OpenEvent>)
    requires
        start is CreateParent || start is Connect,
        reached(start, events) == Ok::<OpenAction, PersistenceErrorView>(OpenAction::Ready),
    ensures
        exists|i: int, j: int, k: int|
            0 <= i < j < k < events.len() && (#[trigger] events[i] matches OpenEvent::Connected(
                Ok(_),
            )) && (#[trigger] events[j] matches OpenEvent::Configured(Ok(_))) && (
            #[trigger] events[k] matches OpenEvent::Migrated(Ok(_))),
    decreases events.len(),
{
    let front = events.drop_last();
    let n = events.len() - 1;
    assert(events[n] == events.last());
    if reached(start, front) == Ok::<OpenAction, PersistenceErrorView>(OpenAction::Ready) {
        law_open_means_configured_and_migrated(start, front);
        let (i, j, k) = choose|i: int, j: int, k: int|
            0 <= i < j < k < front.len() && (#[trigger] front[i] matches OpenEvent::Connected(
                Ok(_),
            )) && (#[trigger] front[j] matches OpenEvent::Configured(Ok(_))) && (
            #[trigger] front[k] matches OpenEvent::Migrated(Ok(_)));
        assert(front[i] == events[i] && front[j] == events[j] && front[k] == events[k]);
    } else {
        lemma_reached_migrate(start, front);
        let (i, j) = choose|i: int, j: int|
            i < j && #[trigger] connected_at(front, i) && #[trigger] configured_at(front, j);
        assert(front[i] == events[i] && front[j] == events[j]);
        assert(events[n] matches OpenEvent::Migrated(Ok(_)));
    }
}

} // verus!
