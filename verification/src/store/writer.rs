//! Replacing a file so that a reader sees the old content or the new one, and
//! never a mixture: the new content goes to a temporary sibling, which is then
//! renamed.

use vstd::prelude::*;
use vstd::string::*;

use crate::numeral;
use crate::text;

verus! {

/// What there is to know of where a file is. The path itself need not be text.
#[derive(Debug, Clone, PartialEq, Eq)]
pub struct TargetPath {
    /// The whole path, as it is shown.
    pub path: String,
    /// The path without its last component, as it is shown; the root has none.
    pub parent: Option<String>,
    /// Whether the last component names a file.
    pub names_file: bool,
    /// The last component, where it names a file and is text.
    pub file_name: Option<String>,
}

impl TargetPath {
    /// Whether the directory of the file is the parent. Otherwise it is the
    /// current directory.
    pub open spec fn in_parent(self) -> bool {
        self.parent matches Some(p) && p@.len() > 0
    }

    /// Whether the directory of the file is the parent. Otherwise it is the
    /// current directory.
    #[must_use]
    pub fn lies_in_parent(&self) -> (res: bool)
        ensures
            res == self.in_parent(),
    {
        match &self.parent {
            Some(p) => text::chars_of(p.as_str()).len() > 0,
            None => false,
        }
    }

    /// The directory of the file, as it is shown, if the path has a parent. An
    /// empty parent is the current directory.
    pub open spec fn directory(self) -> Option<Seq<char>> {
        match self.parent {
            Some(p) => if p@.len() == 0 {
                Some("."@)
            } else {
                Some(p@)
            },
            None => None,
        }
    }
}

/// What sets the temporary files of one process apart.
pub open spec fn unique_text(pid: u32, nanos: u64, n: u64) -> Seq<char> {
    numeral::decimal(pid as nat) + seq!['.'] + (numeral::decimal(nanos as nat) + seq!['.']
        + numeral::decimal(n as nat))
}

/// A suffix made of the process, the time and a counter.
pub fn unique_suffix(pid: u32, nanos: u64, n: u64) -> (res: String)
    ensures
        res@ == unique_text(pid, nanos, n),
{
    let mut s = numeral::decimal_text(pid as u128);
    s.push('.');
    numeral::push_decimal(&mut s, nanos as u128);
    s.push('.');
    numeral::push_decimal(&mut s, n as u128);
    assert(s@ =~= unique_text(pid, nanos, n));
    s
}

proof fn lemma_decimal_has_no_dot(n: nat)
    ensures
        !numeral::decimal(n).contains('.'),
{
    numeral::lemma_decimal_value(n);
    let s = numeral::decimal(n);
    if s.contains('.') {
        let i = choose|i: int| 0 <= i < s.len() && s[i] == '.';
        assert(numeral::digit_value(s[i], 10) is Some);
    }
}

proof fn lemma_unique_text_splits(pid: u32, nanos: u64, n: u64)
    ensures
        text::split_on(unique_text(pid, nanos, n), '.') == seq![
            numeral::decimal(pid as nat),
            numeral::decimal(nanos as nat),
            numeral::decimal(n as nat),
        ],
{
    lemma_decimal_has_no_dot(pid as nat);
    lemma_decimal_has_no_dot(nanos as nat);
    lemma_decimal_has_no_dot(n as nat);
    let last = numeral::decimal(n as nat);
    let tail = numeral::decimal(nanos as nat) + seq!['.'] + last;
    text::lemma_split_on_absent(last, '.');
    text::lemma_split_on_prefix(numeral::decimal(nanos as nat), '.', last);
    text::lemma_split_on_prefix(numeral::decimal(pid as nat), '.', tail);
    assert(text::split_on(unique_text(pid, nanos, n), '.') =~= seq![
        numeral::decimal(pid as nat),
        numeral::decimal(nanos as nat),
        numeral::decimal(n as nat),
    ]);
}

/// Two writes never share a temporary file unless process, time and counter are
/// all the same.
pub proof fn law_unique_suffixes_differ(
    pid_a: u32,
    nanos_a: u64,
    n_a: u64,
    pid_b: u32,
    nanos_b: u64,
    n_b: u64,
)
    requires
        unique_text(pid_a, nanos_a, n_a) == unique_text(pid_b, nanos_b, n_b),
    ensures
        pid_a == pid_b,
        nanos_a == nanos_b,
        n_a == n_b,
{
    lemma_unique_text_splits(pid_a, nanos_a, n_a);
    lemma_unique_text_splits(pid_b, nanos_b, n_b);
    let a = text::split_on(unique_text(pid_a, nanos_a, n_a), '.');
    let b = text::split_on(unique_text(pid_b, nanos_b, n_b), '.');
    assert(a[0] == b[0] && a[1] == b[1] && a[2] == b[2]);
    numeral::lemma_decimal_value(pid_a as nat);
    numeral::lemma_decimal_value(pid_b as nat);
    numeral::lemma_decimal_value(nanos_a as nat);
    numeral::lemma_decimal_value(nanos_b as nat);
    numeral::lemma_decimal_value(n_a as nat);
    numeral::lemma_decimal_value(n_b as nat);
}

/// The name of the temporary sibling.
pub open spec fn temp_name(file_name: Option<Seq<char>>, unique: Seq<char>) -> Seq<char> {
    let name = match file_name {
        Some(name) => name,
        None => "settings"@,
    };
    "."@ + name + ".tmp."@ + unique
}

/// What to do next in order to replace a file.
#[derive(Debug, Clone, PartialEq, Eq)]
pub enum WriteAction {
    /// Create the temporary file, which must not exist, write the new content
    /// to it and flush it to disk.
    WriteTemp,
    /// Rename the temporary file to the target.
    Rename,
    /// Remove the temporary file, because of this error. Whether that succeeds
    /// does not matter.
    RemoveTemp(String),
    /// Flush the directory to disk. Whether that succeeds does not matter.
    SyncDirectory,
    /// Nothing: the file is replaced.
    Written,
    /// Nothing: the file is not replaced, because of this error.
    Failed(String),
}

/// The action that follows, given how the last one went.
pub open spec fn following(action: WriteAction, outcome: Result<(), String>) -> WriteAction {
    match action {
        WriteAction::WriteTemp => match outcome {
            Ok(_) => WriteAction::Rename,
            Err(err) => WriteAction::Failed(err),
        },
        WriteAction::Rename => match outcome {
            Ok(_) => WriteAction::SyncDirectory,
            Err(err) => WriteAction::RemoveTemp(err),
        },
        WriteAction::RemoveTemp(err) => WriteAction::Failed(err),
        WriteAction::SyncDirectory => WriteAction::Written,
        WriteAction::Written => action,
        WriteAction::Failed(_) => action,
    }
}

/// The replacement of one file.
#[derive(Debug, PartialEq, Eq)]
pub struct AtomicWrite {
    directory: String,
    temp: String,
    action: WriteAction,
}

impl AtomicWrite {
    /// The directory of the file, as it is shown.
    pub closed spec fn folder(self) -> Seq<char> {
        self.directory@
    }

    /// The name of the temporary sibling.
    pub closed spec fn sibling(self) -> Seq<char> {
        self.temp@
    }

    /// What to do next.
    pub closed spec fn pending_action(self) -> WriteAction {
        self.action
    }

    /// The replacement of the file at `target`, with a suffix that sets its
    /// temporary file apart. A target without a parent cannot be replaced.
    pub fn new(target: &TargetPath, unique: &str) -> (res: Result<Self, String>)
        ensures
            match target.directory() {
                Some(dir) => {
                    &&& res matches Ok(write)
                    &&& write.folder() == dir
                    &&& write.sibling() == temp_name(text::optional(target.file_name), unique@)
                    &&& write.pending_action() == WriteAction::WriteTemp
                },
                None => res matches Err(message) && message@
                    == "settings target has no parent directory: "@ + target.path@,
            },
    {
        let directory = match &target.parent {
            Some(p) => {
                if target.lies_in_parent() {
                    p.clone()
                } else {
                    ".".to_owned()
                }
            },
            None => {
                return Err(
                    "settings target has no parent directory: ".to_owned().concat(
                        target.path.as_str(),
                    ),
                );
            },
        };
        let name = match &target.file_name {
            Some(name) => name.clone(),
            None => "settings".to_owned(),
        };
        let temp = ".".to_owned().concat(name.as_str()).concat(".tmp.").concat(unique);
        Ok(Self { directory, temp, action: WriteAction::WriteTemp })
    }

    /// The directory of the file, as it is shown.
    #[must_use]
    pub fn directory(&self) -> (res: &str)
        ensures
            res@ == self.folder(),
    {
        self.directory.as_str()
    }

    /// The name of the temporary sibling.
    #[must_use]
    pub fn temp_file_name(&self) -> (res: &str)
        ensures
            res@ == self.sibling(),
    {
        self.temp.as_str()
    }

    /// What to do next.
    #[must_use]
    pub fn next_action(&self) -> (res: &WriteAction)
        ensures
            *res == self.pending_action(),
    {
        &self.action
    }

    /// Takes in how the last action went.
    pub fn advance(&mut self, outcome: Result<(), String>)
        ensures
            final(self).folder() == old(self).folder(),
            final(self).sibling() == old(self).sibling(),
            final(self).pending_action() == following(old(self).pending_action(), outcome),
    {
        let mut action = WriteAction::Written;
        std::mem::swap(&mut action, &mut self.action);
        self.action =
        match action {
            WriteAction::WriteTemp => match outcome {
                Ok(_) => WriteAction::Rename,
                Err(err) => WriteAction::Failed(err),
            },
            WriteAction::Rename => match outcome {
                Ok(_) => WriteAction::SyncDirectory,
                Err(err) => WriteAction::RemoveTemp(err),
            },
            WriteAction::RemoveTemp(err) => WriteAction::Failed(err),
            WriteAction::SyncDirectory => WriteAction::Written,
            WriteAction::Written => WriteAction::Written,
            WriteAction::Failed(err) => WriteAction::Failed(err),
        };
    }
}

// ---------------------------------------------------------------------------
// Laws
// ---------------------------------------------------------------------------

/// The action after a sequence of outcomes.
pub open spec fn reached(outcomes: Seq<Result<(), String>>) -> WriteAction
    decreases outcomes.len(),
{
    if outcomes.len() == 0 {
        WriteAction::WriteTemp
    } else {
        following(reached(outcomes.drop_last()), outcomes.last())
    }
}

/// What the target holds after a sequence of outcomes: of all actions only a
/// rename that succeeds touches it, and that puts the new content there.
pub open spec fn target_after(
    before: Option<Seq<u8>>,
    new: Seq<u8>,
    outcomes: Seq<Result<(), String>>,
) -> Option<Seq<u8>>
    decreases outcomes.len(),
{
    if outcomes.len() == 0 {
        before
    } else if reached(outcomes.drop_last()) is Rename && outcomes.last() is Ok {
        Some(new)
    } else {
        target_after(before, new, outcomes.drop_last())
    }
}

/// However far a replacement gets, and wherever it is killed, the target holds
/// the old content or the new one: the new one from the rename on, and the old
/// one before it and after a failure.
pub proof fn law_target_is_old_or_new(
    before: Option<Seq<u8>>,
    new: Seq<u8>,
    outcomes: Seq<Result<(), String>>,
)
    ensures
        target_after(before, new, outcomes) == match reached(outcomes) {
            WriteAction::SyncDirectory => Some(new),
            WriteAction::Written => Some(new),
            WriteAction::WriteTemp => before,
            WriteAction::Rename => before,
            WriteAction::RemoveTemp(_) => before,
            WriteAction::Failed(_) => before,
        },
    decreases outcomes.len(),
{
    if outcomes.len() > 0 {
        law_target_is_old_or_new(before, new, outcomes.drop_last());
    }
}

/// A replacement is over after at most three actions.
pub proof fn law_replacement_ends(outcomes: Seq<Result<(), String>>)
    requires
        outcomes.len() >= 3,
    ensures
        reached(outcomes) is Written || reached(outcomes) is Failed,
    decreases outcomes.len(),
{
    reveal_with_fuel(reached, 4);
    if outcomes.len() > 3 {
        law_replacement_ends(outcomes.drop_last());
    }
}

} // verus!
