//! Failures of SQL statements, and when a write is tried again.

use vstd::prelude::*;
use vstd::string::*;

use crate::id;
use crate::numeral;
use crate::persistence::error::{PersistenceError, PersistenceErrorView};
use crate::text;
use crate::time::{Duration, Timestamp};

verus! {

// ---------------------------------------------------------------------------
// Failures
// ---------------------------------------------------------------------------

/// What kind of failure SQLite reports.
#[derive(Debug, Clone, Copy, PartialEq, Eq, Structural)]
pub enum SqlCode {
    /// Another connection is writing.
    Busy,
    /// A table is locked.
    Locked,
    /// A constraint of the schema is violated.
    Constraint,
    /// Anything else.
    Other,
}

/// Why a statement or a transaction failed.
#[derive(Debug, Clone, PartialEq, Eq)]
pub enum SqlFailure {
    /// It was refused with a message of the store's own, which `text` renders in
    /// full.
    Refused {
        /// The store's message.
        message: String,
        /// The whole failure, rendered.
        text: String,
    },
    /// SQLite failed.
    Sqlite {
        /// The kind of failure.
        code: SqlCode,
        /// What SQLite says about it, where it says anything.
        detail: Option<String>,
        /// The whole failure, rendered.
        text: String,
    },
    /// Anything else.
    Other {
        /// The whole failure, rendered.
        text: String,
    },
}

/// `s` without the copies of `prefix` that it starts with.
pub open spec fn without_prefixes(s: Seq<char>, prefix: Seq<char>) -> Seq<char>
    decreases s.len(),
{
    if prefix.len() > 0 && text::begins(s, prefix) {
        without_prefixes(s.skip(prefix.len() as int), prefix)
    } else {
        s
    }
}

impl SqlFailure {
    /// Whether trying again may help.
    pub open spec fn is_contention(self) -> bool {
        match self {
            SqlFailure::Sqlite { code, .. } => code == SqlCode::Busy || code == SqlCode::Locked,
            _ => false,
        }
    }

    /// The whole failure, rendered.
    pub open spec fn rendered(self) -> Seq<char> {
        match self {
            SqlFailure::Refused { text, .. } => text@,
            SqlFailure::Sqlite { text, .. } => text@,
            SqlFailure::Other { text } => text@,
        }
    }

    /// The whole failure, rendered.
    pub fn describe(&self) -> (res: &str)
        ensures
            res@ == self.rendered(),
    {
        match self {
            SqlFailure::Refused { text, .. } => text.as_str(),
            SqlFailure::Sqlite { text, .. } => text.as_str(),
            SqlFailure::Other { text } => text.as_str(),
        }
    }

    /// The error that callers of a store see.
    pub open spec fn reported(self) -> PersistenceErrorView {
        match self {
            SqlFailure::Refused { message, text } => if text::begins(message@, "not found:"@) {
                PersistenceErrorView::NotFound(without_prefixes(message@, "not found: "@))
            } else if text::begins(message@, "conflict:"@) {
                PersistenceErrorView::ConflictingWrite(without_prefixes(message@, "conflict: "@))
            } else {
                PersistenceErrorView::IoError(text@)
            },
            SqlFailure::Sqlite { code, detail, text } => {
                let said = match detail {
                    Some(d) => d@,
                    None => text@,
                };
                match code {
                    SqlCode::Busy => PersistenceErrorView::DatabaseLocked(said),
                    SqlCode::Locked => PersistenceErrorView::DatabaseLocked(said),
                    SqlCode::Constraint => PersistenceErrorView::ConflictingWrite(said),
                    SqlCode::Other => PersistenceErrorView::IoError(said),
                }
            },
            SqlFailure::Other { text } => PersistenceErrorView::IoError(text@),
        }
    }
}

/// Whether trying again may help.
pub fn is_busy(failure: &SqlFailure) -> (res: bool)
    ensures
        res == failure.is_contention(),
{
    match failure {
        SqlFailure::Sqlite { code, .. } => match code {
            SqlCode::Busy | SqlCode::Locked => true,
            SqlCode::Constraint | SqlCode::Other => false,
        },
        _ => false,
    }
}

fn strip_prefixes(s: &str, prefix: &str) -> (res: String)
    requires
        prefix@.len() > 0,
    ensures
        res@ == without_prefixes(s@, prefix@),
{
    let n: usize = text::chars_of(prefix).len();
    let mut rest = text::chars_of(s);
    while text::begins_with(&rest, prefix)
        invariant
            n == prefix@.len(),
            n > 0,
            without_prefixes(rest@, prefix@) == without_prefixes(s@, prefix@),
        decreases rest@.len(),
    {
        let shorter = text::slice_of(&rest, n, rest.len());
        assert(shorter@ =~= rest@.skip(n as int));
        rest = shorter;
    }
    text::string_of(&rest)
}

/// The error that callers of a store see.
pub fn map_sql_error(failure: SqlFailure) -> (res: PersistenceError)
    ensures
        res@ == failure.reported(),
{
    match failure {
        SqlFailure::Refused { message, text } => {
            proof {
                reveal_strlit("not found: ");
                reveal_strlit("conflict: ");
            }
            let chars = text::chars_of(message.as_str());
            if text::begins_with(&chars, "not found:") {
                PersistenceError::NotFound(strip_prefixes(message.as_str(), "not found: "))
            } else if text::begins_with(&chars, "conflict:") {
                PersistenceError::ConflictingWrite(strip_prefixes(message.as_str(), "conflict: "))
            } else {
                PersistenceError::IoError(text)
            }
        },
        SqlFailure::Sqlite { code, detail, text } => {
            let said = match detail {
                Some(d) => d,
                None => text,
            };
            match code {
                SqlCode::Busy | SqlCode::Locked => PersistenceError::DatabaseLocked(said),
                SqlCode::Constraint => PersistenceError::ConflictingWrite(said),
                SqlCode::Other => PersistenceError::IoError(said),
            }
        },
        SqlFailure::Other { text } => PersistenceError::IoError(text),
    }
}

/// The store's refusal for a record that is not there.
pub fn not_found(message: &str) -> (res: String)
    ensures
        res@ == "not found: "@ + message@,
{
    "not found: ".to_owned().concat(message)
}

/// The store's refusal for a write that contradicts what is stored.
pub fn conflict(message: &str) -> (res: String)
    ensures
        res@ == "conflict: "@ + message@,
{
    "conflict: ".to_owned().concat(message)
}

/// A refusal for a missing record is reported as such, with its own message.
/// Only a message that starts with the prefix once more would lose it.
pub proof fn law_not_found_is_reported(failure: SqlFailure, what: Seq<char>)
    requires
        failure matches SqlFailure::Refused { message, .. } && message@ == "not found: "@ + what,
        !text::begins(what, "not found: "@),
    ensures
        failure.reported() == PersistenceErrorView::NotFound(what),
{
    reveal_strlit("not found: ");
    reveal_strlit("not found:");
    let message = "not found: "@ + what;
    assert(message.take(10) =~= "not found:"@);
    assert(message.take(11) =~= "not found: "@);
    assert(message.skip(11) =~= what);
    assert(without_prefixes(what, "not found: "@) == what);
}

/// A refusal for a contradicting write is reported as such, with its own
/// message. Only a message that starts with the prefix once more would lose it.
pub proof fn law_conflict_is_reported(failure: SqlFailure, what: Seq<char>)
    requires
        failure matches SqlFailure::Refused { message, .. } && message@ == "conflict: "@ + what,
        !text::begins(what, "conflict: "@),
    ensures
        failure.reported() == PersistenceErrorView::ConflictingWrite(what),
{
    reveal_strlit("conflict: ");
    reveal_strlit("conflict:");
    reveal_strlit("not found:");
    let message = "conflict: "@ + what;
    assert(message.take(9) =~= "conflict:"@);
    assert(message.take(10) =~= "conflict: "@);
    assert(message.skip(10) =~= what);
    assert(!text::begins(message, "not found:"@)) by {
        if text::begins(message, "not found:"@) {
            assert(message.take(10)[0] == "not found:"@[0]);
        }
    }
    assert(without_prefixes(what, "conflict: "@) == what);
}

/// The name of a record in messages.
pub open spec fn record_name(kind: Seq<char>, id: Seq<char>) -> Seq<char> {
    kind + "/"@ + id
}

/// The refusal for a record that is not there.
pub fn missing(kind: &str, id: &str) -> (res: String)
    ensures
        res@ == "not found: "@ + record_name(kind@, id@),
{
    not_found(kind.to_owned().concat("/").concat(id).as_str())
}

/// The refusal of a deletion that removed `changed` records, if it removed none.
pub fn deleted(kind: &str, id: &str, changed: usize) -> (res: Result<(), String>)
    ensures
        match res {
            Ok(_) => changed > 0,
            Err(message) => changed == 0 && message@ == "not found: "@ + record_name(kind@, id@),
        },
{
    if changed == 0 {
        Err(missing(kind, id))
    } else {
        Ok(())
    }
}

/// The caller is told which record is not there.
pub proof fn law_missing_record_is_reported(failure: SqlFailure, kind: Seq<char>, id: Seq<char>)
    requires
        failure matches SqlFailure::Refused { message, .. } && message@ == "not found: "@
            + record_name(kind, id),
        !text::begins(record_name(kind, id), "not found: "@),
    ensures
        failure.reported() == PersistenceErrorView::NotFound(record_name(kind, id)),
{
    law_not_found_is_reported(failure, record_name(kind, id));
}

// ---------------------------------------------------------------------------
// Stored values
// ---------------------------------------------------------------------------

/// The UUID that a stored text writes, or zero where it writes none.
pub open spec fn uuid_or_nil(s: Seq<char>) -> u128 {
    match id::uuid_from(s) {
        Some(n) => n as u128,
        None => 0,
    }
}

/// Reads a stored UUID; what is none counts as zero.
pub fn read_uuid_or_nil(s: &str) -> (res: u128)
    ensures
        res == uuid_or_nil(s@),
{
    match id::read_uuid(s) {
        Some(bits) => bits,
        None => 0,
    }
}

/// The text that a UUID is stored as.
pub fn id_to_string(uuid: u128) -> (res: String)
    ensures
        res@ == id::uuid_text(uuid),
{
    id::write_uuid(uuid)
}

/// A stored UUID is read back.
pub proof fn law_stored_uuid_reads_back(uuid: u128)
    ensures
        uuid_or_nil(id::uuid_text(uuid)) == uuid,
{
    id::law_uuid_text_reads_back(uuid);
}

/// What a stored title means: an empty one is none.
pub open spec fn title_of(stored: String) -> Option<String> {
    if stored@.len() == 0 {
        None
    } else {
        Some(stored)
    }
}

/// Reads a stored title.
pub fn read_title(stored: String) -> (res: Option<String>)
    ensures
        res == title_of(stored),
{
    if text::chars_of(stored.as_str()).len() == 0 {
        None
    } else {
        Some(stored)
    }
}

/// The text that a title is stored as.
pub fn write_title(title: &Option<String>) -> (res: String)
    ensures
        match *title {
            Some(t) => res == t,
            None => res@ == Seq::<char>::empty(),
        },
{
    match title {
        Some(t) => t.clone(),
        None => String::new(),
    }
}

/// The instant of a stored number of seconds, or what is wrong with it.
pub fn ts_to_datetime(ts: i64) -> (res: Result<Timestamp, String>)
    ensures
        match res {
            Ok(t) => t.secs() == ts && t.nanos() == 0 && crate::time::instant_exists(ts as int, 0),
            Err(message) => !crate::time::instant_exists(ts as int, 0) && message@
                == "invalid timestamp: "@ + numeral::signed_decimal(ts as int),
        },
{
    match Timestamp::from_timestamp(ts, 0) {
        Some(t) => Ok(t),
        None => Err(
            "invalid timestamp: ".to_owned().concat(numeral::signed_decimal_text(ts).as_str()),
        ),
    }
}

// ---------------------------------------------------------------------------
// Trying again
// ---------------------------------------------------------------------------

/// How long a write is tried again, in milliseconds.
pub const WRITE_RETRY_BUDGET_MILLIS: u64 = 5000;

/// How long the first pause is, in milliseconds.
pub const WRITE_RETRY_INITIAL_BACKOFF_MILLIS: u64 = 10;

/// How long the longest pause is, in milliseconds.
pub const WRITE_RETRY_MAX_BACKOFF_MILLIS: u64 = 250;

/// What to do about a failed write.
#[derive(Debug, Clone, PartialEq, Eq)]
pub enum RetryStep {
    /// Pause, then try again.
    PauseMillis(u64),
    /// Report the error.
    GiveUp(PersistenceError),
}

/// The pauses between the attempts of one write. They double up to a limit.
#[derive(Debug, PartialEq, Eq)]
pub struct WriteRetry {
    backoff_millis: u64,
}

/// The pause after a pause of `millis`.
pub open spec fn longer_pause(millis: u64) -> u64 {
    if 2 * millis < WRITE_RETRY_MAX_BACKOFF_MILLIS {
        (2 * millis) as u64
    } else {
        WRITE_RETRY_MAX_BACKOFF_MILLIS
    }
}

impl WriteRetry {
    #[verifier::type_invariant]
    spec fn well_formed(self) -> bool {
        self.backoff_millis <= WRITE_RETRY_MAX_BACKOFF_MILLIS
    }

    /// The next pause.
    pub closed spec fn next_pause(self) -> u64 {
        self.backoff_millis
    }

    /// The pauses of a write that has not been tried yet.
    #[must_use]
    pub fn new() -> (res: Self)
        ensures
            res.next_pause() == WRITE_RETRY_INITIAL_BACKOFF_MILLIS,
    {
        Self { backoff_millis: WRITE_RETRY_INITIAL_BACKOFF_MILLIS }
    }

    /// Decides about a failed attempt, `elapsed` after the first attempt began.
    pub fn after_failure(&mut self, failure: SqlFailure, elapsed: Duration) -> (res: RetryStep)
        ensures
            if failure.is_contention() && elapsed.nanos < WRITE_RETRY_BUDGET_MILLIS * 1_000_000 {
                &&& res == RetryStep::PauseMillis(old(self).next_pause())
                &&& final(self).next_pause() == longer_pause(old(self).next_pause())
            } else {
                &&& res matches RetryStep::GiveUp(e) && e@ == failure.reported()
                &&& final(self).next_pause() == old(self).next_pause()
            },
    {
        proof {
            use_type_invariant(&*self);
        }
        if is_busy(&failure) && elapsed.nanos < WRITE_RETRY_BUDGET_MILLIS as u128 * 1_000_000 {
            let pause: u64 = self.backoff_millis;
            let doubled: u64 = pause * 2;
            self.backoff_millis =
            if doubled < WRITE_RETRY_MAX_BACKOFF_MILLIS {
                doubled
            } else {
                WRITE_RETRY_MAX_BACKOFF_MILLIS
            };
            RetryStep::PauseMillis(pause)
        } else {
            RetryStep::GiveUp(map_sql_error(failure))
        }
    }
}

/// The pause after `n` pauses.
pub open spec fn pause_after(n: nat) -> u64
    decreases n,
{
    if n == 0 {
        WRITE_RETRY_INITIAL_BACKOFF_MILLIS
    } else {
        longer_pause(pause_after((n - 1) as nat))
    }
}

/// Pauses never get shorter, start at the initial one and stay at the longest
/// one once they have reached it.
pub proof fn law_pauses_grow_to_the_limit(n: nat)
    ensures
        WRITE_RETRY_INITIAL_BACKOFF_MILLIS <= pause_after(n) <= WRITE_RETRY_MAX_BACKOFF_MILLIS,
        pause_after(n) <= pause_after(n + 1),
        n >= 5 ==> pause_after(n) == WRITE_RETRY_MAX_BACKOFF_MILLIS,
    decreases n,
{
    reveal_with_fuel(pause_after, 7);
    if n > 0 {
        law_pauses_grow_to_the_limit((n - 1) as nat);
    }
}

/// A database that stays locked past the budget is reported as locked.
pub proof fn law_lasting_contention_is_reported(failure: SqlFailure)
    requires
        failure.is_contention(),
    ensures
        failure.reported() is DatabaseLocked,
{
}

} // verus!
