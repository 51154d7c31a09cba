//! Watching the settings file: which events matter, and how a burst of them
//! becomes one reload.

use vstd::prelude::*;
use vstd::string::*;

use crate::persistence::error::{PersistenceError, PersistenceErrorView};
use crate::store::writer::TargetPath;

verus! {

/// How long a burst of events is collected, in milliseconds.
pub const DEFAULT_DEBOUNCE_MILLIS: u64 = 75;

// ---------------------------------------------------------------------------
// Events
// ---------------------------------------------------------------------------

/// What happened to a file.
#[derive(Debug, Clone, Copy, PartialEq, Eq, Structural)]
pub enum WatchKind {
    /// It was written to, renamed, or had its metadata changed.
    Modify,
    /// It was created.
    Create,
    /// It was removed.
    Remove,
    /// Something that cannot change its content.
    Other,
}

/// One event in the watched directory.
#[derive(Debug, Clone, PartialEq, Eq)]
pub struct WatchEvent {
    /// What happened.
    pub kind: WatchKind,
    /// The bytes of the last component of each path that it happened to, where it
    /// names a file.
    pub file_names: Vec<Option<Vec<u8>>>,
}

/// Whether a component is the name `target`.
pub open spec fn is_named(component: Option<Vec<u8>>, target: Seq<u8>) -> bool {
    component matches Some(name) && name@ == target
}

/// Whether an event may have changed the content of the file named `target`.
pub open spec fn concerns(event: WatchEvent, target: Seq<u8>) -> bool {
    &&& !(event.kind is Other)
    &&& exists|i: int|
        0 <= i < event.file_names@.len() && is_named(#[trigger] event.file_names@[i], target)
}

fn same_bytes(a: &Vec<u8>, b: &Vec<u8>) -> (res: bool)
    ensures
        res == (a@ == b@),
{
    if a.len() != b.len() {
        return false;
    }
    for i in 0..a.len()
        invariant
            a@.len() == b@.len(),
            forall|k: int| 0 <= k < i ==> a@[k] == b@[k],
    {
        if a[i] != b[i] {
            return false;
        }
    }
    assert(a@ =~= b@);
    true
}

/// Whether an event may have changed the content of the file whose name is
/// `target`, as bytes.
pub fn event_matches_target(event: &WatchEvent, target: &Vec<u8>) -> (res: bool)
    ensures
        res == concerns(*event, target@),
{
    let relevant = match event.kind {
        WatchKind::Modify | WatchKind::Create | WatchKind::Remove => true,
        WatchKind::Other => false,
    };
    if !relevant {
        return false;
    }
    let mut i: usize = 0;
    while i < event.file_names.len()
        invariant
            i <= event.file_names@.len(),
            !(event.kind is Other),
            forall|k: int|
                0 <= k < i ==> !is_named(#[trigger] event.file_names@[k], target@),
        decreases event.file_names@.len() - i,
    {
        if let Some(name) = &event.file_names[i] {
            if same_bytes(name, target) {
                assert(is_named(event.file_names@[i as int], target@));
                return true;
            }
        }
        i += 1;
    }
    false
}

// ---------------------------------------------------------------------------
// Bursts
// ---------------------------------------------------------------------------

/// What the watching thread does next.
#[derive(Debug, Clone, Copy, PartialEq, Eq, Structural)]
pub enum DriverAction {
    /// Wait for the next event, however long that takes.
    AwaitEvent,
    /// Wait for more events of this burst, until its window closes.
    AwaitWindow,
    /// End.
    Exit,
}

/// What the watching thread learns.
#[derive(Debug, Clone, Copy, PartialEq, Eq, Structural)]
pub enum DriverEvent {
    /// An event arrived; whether it concerns the settings file. An error counts
    /// as an event that does not.
    Arrived(bool),
    /// The window of the burst closed.
    WindowClosed,
    /// No event will come any more.
    Disconnected,
}

/// The state of the watching thread: the burst that is being collected, if one
/// is.
#[derive(Debug, Clone, Copy, PartialEq, Eq, Structural)]
pub enum DriverState {
    /// Between bursts.
    Idle,
    /// Within a burst; whether some event so far concerns the settings file.
    Collecting(bool),
    /// Over.
    Stopped,
}

/// The next state, and whether the settings are reloaded now.
pub open spec fn following(state: DriverState, event: DriverEvent) -> (DriverState, bool) {
    match (state, event) {
        (DriverState::Stopped, _) => (DriverState::Stopped, false),
        (_, DriverEvent::Disconnected) => (DriverState::Stopped, false),
        (DriverState::Idle, DriverEvent::Arrived(concerned)) => (
            DriverState::Collecting(concerned),
            false,
        ),
        (DriverState::Idle, DriverEvent::WindowClosed) => (DriverState::Idle, false),
        (DriverState::Collecting(so_far), DriverEvent::Arrived(concerned)) => (
            DriverState::Collecting(so_far || concerned),
            false,
        ),
        (DriverState::Collecting(so_far), DriverEvent::WindowClosed) => (
            DriverState::Idle,
            so_far,
        ),
    }
}

/// The watching thread.
#[derive(Debug, PartialEq, Eq)]
pub struct WatcherDriver {
    state: DriverState,
}

impl WatcherDriver {
    /// The state of the thread.
    pub closed spec fn state(self) -> DriverState {
        self.state
    }

    /// A thread that has seen nothing yet.
    #[must_use]
    pub fn new() -> (res: Self)
        ensures
            res.state() == DriverState::Idle,
    {
        Self { state: DriverState::Idle }
    }

    /// What to do next.
    #[must_use]
    pub fn next_action(&self) -> (res: DriverAction)
        ensures
            res == match self.state() {
                DriverState::Idle => DriverAction::AwaitEvent,
                DriverState::Collecting(_) => DriverAction::AwaitWindow,
                DriverState::Stopped => DriverAction::Exit,
            },
    {
        match self.state {
            DriverState::Idle => DriverAction::AwaitEvent,
            DriverState::Collecting(_) => DriverAction::AwaitWindow,
            DriverState::Stopped => DriverAction::Exit,
        }
    }

    /// Takes in what was learned. Returns whether to reload the settings now.
    pub fn advance(&mut self, event: DriverEvent) -> (res: bool)
        ensures
            (final(self).state(), res) == following(old(self).state(), event),
    {
        match (self.state, event) {
            (DriverState::Stopped, _) => false,
            (_, DriverEvent::Disconnected) => {
                self.state = DriverState::Stopped;
                false
            },
            (DriverState::Idle, DriverEvent::Arrived(concerned)) => {
                self.state = DriverState::Collecting(concerned);
                false
            },
            (DriverState::Idle, DriverEvent::WindowClosed) => false,
            (DriverState::Collecting(so_far), DriverEvent::Arrived(concerned)) => {
                self.state = DriverState::Collecting(so_far || concerned);
                false
            },
            (DriverState::Collecting(so_far), DriverEvent::WindowClosed) => {
                self.state = DriverState::Idle;
                so_far
            },
        }
    }
}

/// The state and the number of reloads after a sequence of events.
pub open spec fn driven(events: Seq<DriverEvent>) -> (DriverState, nat)
    decreases events.len(),
{
    if events.len() == 0 {
        (DriverState::Idle, 0)
    } else {
        let before = driven(events.drop_last());
        let step = following(before.0, events.last());
        (
            step.0,
            before.1 + if step.1 {
                1nat
            } else {
                0nat
            },
        )
    }
}

/// The events of a burst.
pub open spec fn arrivals(burst: Seq<bool>) -> Seq<DriverEvent> {
    Seq::new(burst.len(), |i: int| DriverEvent::Arrived(burst[i]))
}

proof fn lemma_burst(before: Seq<DriverEvent>, burst: Seq<bool>)
    requires
        driven(before).0 is Idle,
        burst.len() > 0,
    ensures
        driven(before + arrivals(burst)) == (
            DriverState::Collecting(burst.contains(true)),
            driven(before).1,
        ),
    decreases burst.len(),
{
    let events = before + arrivals(burst);
    let front = burst.drop_last();
    assert(events.drop_last() =~= before + arrivals(front));
    assert(events.last() == DriverEvent::Arrived(burst.last()));
    if front.len() > 0 {
        lemma_burst(before, front);
        if front.contains(true) {
            let i = choose|i: int| 0 <= i < front.len() && front[i];
            assert(burst[i]);
        }
        if burst.contains(true) && !burst.last() {
            let i = choose|i: int| 0 <= i < burst.len() && burst[i];
            assert(front[i]);
        }
    } else {
        assert(before + arrivals(front) =~= before);
    }
    if burst.last() {
        assert(burst[burst.len() - 1]);
    }
}

/// A burst of events makes the settings be reloaded once if any event of it
/// concerns the settings file, and not at all if none does; and then the thread
/// waits for the next burst.
pub proof fn law_burst_is_one_reload(before: Seq<DriverEvent>, burst: Seq<bool>)
    requires
        driven(before).0 is Idle,
        burst.len() > 0,
    ensures
        driven(before + arrivals(burst) + seq![DriverEvent::WindowClosed]) == (
            DriverState::Idle,
            driven(before).1 + if burst.contains(true) {
                1nat
            } else {
                0nat
            },
        ),
{
    lemma_burst(before, burst);
    let events = before + arrivals(burst) + seq![DriverEvent::WindowClosed];
    assert(events.drop_last() =~= before + arrivals(burst));
}

/// Once no event will come any more the thread ends, and does not reload again:
/// not even for a burst that it was collecting.
pub proof fn law_disconnect_ends_the_driver(before: Seq<DriverEvent>, after: Seq<DriverEvent>)
    ensures
        driven(before + seq![DriverEvent::Disconnected] + after) == (
            DriverState::Stopped,
            driven(before).1,
        ),
    decreases after.len(),
{
    let events = before + seq![DriverEvent::Disconnected] + after;
    if after.len() == 0 {
        assert(events.drop_last() =~= before);
    } else {
        law_disconnect_ends_the_driver(before, after.drop_last());
        assert(events.drop_last() =~= before + seq![DriverEvent::Disconnected] + after.drop_last());
    }
}

// ---------------------------------------------------------------------------
// Setting up
// ---------------------------------------------------------------------------

/// What to do next in order to watch the settings file.
#[derive(Debug, Clone, PartialEq, Eq)]
pub enum WatchAction {
    /// Create the directory, with its parents.
    CreateDirectory,
    /// Build the watcher.
    Build,
    /// Watch the directory.
    Watch,
    /// Start the thread.
    Spawn,
    /// Nothing: the file is being watched.
    Running,
    /// Nothing: it cannot be watched.
    Failed,
}

/// The directory that is watched, as it is shown. It is watched rather than the
/// file, because replacing the file would end the watch.
pub open spec fn watched_directory(target: TargetPath) -> Seq<char> {
    match target.directory() {
        Some(dir) => dir,
        None => "."@,
    }
}

/// The action that follows, or the error that ends the set-up.
pub open spec fn setup_following(
    target: TargetPath,
    action: WatchAction,
    outcome: Result<(), String>,
) -> Result<WatchAction, PersistenceErrorView> {
    match (action, outcome) {
        (WatchAction::CreateDirectory, Err(err)) => Err(
            PersistenceErrorView::IoError(
                "settings watcher: cannot create parent "@ + watched_directory(target) + ": "@
                    + err@,
            ),
        ),
        (WatchAction::CreateDirectory, Ok(_)) => if !target.names_file {
            Err(
                PersistenceErrorView::IoError(
                    "settings watcher: target has no file name: "@ + target.path@,
                ),
            )
        } else {
            Ok(WatchAction::Build)
        },
        (WatchAction::Build, Err(err)) => Err(
            PersistenceErrorView::IoError("settings watcher: build failed: "@ + err@),
        ),
        (WatchAction::Build, Ok(_)) => Ok(WatchAction::Watch),
        (WatchAction::Watch, Err(err)) => Err(
            PersistenceErrorView::IoError(
                "settings watcher: cannot watch "@ + watched_directory(target) + ": "@ + err@,
            ),
        ),
        (WatchAction::Watch, Ok(_)) => Ok(WatchAction::Spawn),
        (WatchAction::Spawn, Err(err)) => Err(
            PersistenceErrorView::IoError("settings watcher: spawn failed: "@ + err@),
        ),
        (WatchAction::Spawn, Ok(_)) => Ok(WatchAction::Running),
        (WatchAction::Running, _) => Ok(action),
        (WatchAction::Failed, _) => Ok(action),
    }
}

/// The set-up of a watch.
#[derive(Debug, PartialEq, Eq)]
pub struct WatcherSetup {
    target: TargetPath,
    directory: String,
    action: WatchAction,
}

impl WatcherSetup {
    #[verifier::type_invariant]
    spec fn well_formed(self) -> bool {
        self.directory@ == watched_directory(self.target)
    }

    /// The file.
    pub closed spec fn file(self) -> TargetPath {
        self.target
    }

    /// What to do next.
    pub closed spec fn pending_action(self) -> WatchAction {
        self.action
    }

    /// The set-up of a watch of the file at `target`.
    pub fn new(target: TargetPath) -> (res: Self)
        ensures
            res.file() == target,
            res.pending_action() == WatchAction::CreateDirectory,
    {
        let directory = match &target.parent {
            Some(p) => {
                if target.lies_in_parent() {
                    p.clone()
                } else {
                    ".".to_owned()
                }
            },
            None => ".".to_owned(),
        };
        Self { target, directory, action: WatchAction::CreateDirectory }
    }

    /// The directory that is watched, as it is shown.
    #[must_use]
    pub fn directory(&self) -> (res: &str)
        ensures
            res@ == watched_directory(self.file()),
    {
        proof {
            use_type_invariant(&*self);
        }
        self.directory.as_str()
    }

    /// What to do next.
    #[must_use]
    pub fn next_action(&self) -> (res: &WatchAction)
        ensures
            *res == self.pending_action(),
    {
        &self.action
    }

    fn decide(&self, outcome: &Result<(), String>) -> (res: Result<WatchAction, PersistenceError>)
        ensures
            match res {
                Ok(action) => setup_following(self.file(), self.pending_action(), *outcome) == Ok::<
                    WatchAction,
                    PersistenceErrorView,
                >(action),
                Err(e) => setup_following(self.file(), self.pending_action(), *outcome) == Err::<
                    WatchAction,
                    PersistenceErrorView,
                >(e@),
            },
    {
        proof {
            use_type_invariant(&*self);
        }
        match (&self.action, outcome) {
            (WatchAction::CreateDirectory, Err(err)) => Err(
                PersistenceError::IoError(
                    "settings watcher: cannot create parent ".to_owned().concat(
                        self.directory.as_str(),
                    ).concat(": ").concat(err.as_str()),
                ),
            ),
            (WatchAction::CreateDirectory, Ok(_)) => if self.target.names_file {
                Ok(WatchAction::Build)
            } else {
                Err(
                    PersistenceError::IoError(
                        "settings watcher: target has no file name: ".to_owned().concat(
                            self.target.path.as_str(),
                        ),
                    ),
                )
            },
            (WatchAction::Build, Err(err)) => Err(
                PersistenceError::IoError(
                    "settings watcher: build failed: ".to_owned().concat(err.as_str()),
                ),
            ),
            (WatchAction::Build, Ok(_)) => Ok(WatchAction::Watch),
            (WatchAction::Watch, Err(err)) => Err(
                PersistenceError::IoError(
                    "settings watcher: cannot watch ".to_owned().concat(
                        self.directory.as_str(),
                    ).concat(": ").concat(err.as_str()),
                ),
            ),
            (WatchAction::Watch, Ok(_)) => Ok(WatchAction::Spawn),
            (WatchAction::Spawn, Err(err)) => Err(
                PersistenceError::IoError(
                    "settings watcher: spawn failed: ".to_owned().concat(err.as_str()),
                ),
            ),
            (WatchAction::Spawn, Ok(_)) => Ok(WatchAction::Running),
            (WatchAction::Running, _) => Ok(WatchAction::Running),
            (WatchAction::Failed, _) => Ok(WatchAction::Failed),
        }
    }

    /// Takes in how the last action went. An error ends the set-up.
    pub fn advance(&mut self, outcome: Result<(), String>) -> (res: Result<(), PersistenceError>)
        ensures
            final(self).file() == old(self).file(),
            match setup_following(old(self).file(), old(self).pending_action(), outcome) {
                Ok(action) => res is Ok && final(self).pending_action() == action,
                Err(e) => {
                    &&& res matches Err(err) && err@ == e
                    &&& final(self).pending_action() == WatchAction::Failed
                },
            },
    {
        proof {
            use_type_invariant(&*self);
        }
        match self.decide(&outcome) {
            Ok(action) => {
                self.action = action;
                Ok(())
            },
            Err(e) => {
                self.action = WatchAction::Failed;
                Err(e)
            },
        }
    }
}

} // verus!
