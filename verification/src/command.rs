//! Commands: the named actions of the command palette, and the registry that
//! holds them with their handlers.

use std::sync::Arc;

use vstd::prelude::*;
use vstd::string::*;

use crate::keybinding::KeyBinding;
use crate::text;
use crate::tool::CancelToken;
use crate::workspace::WorkspaceRef;

verus! {

// ---------------------------------------------------------------------------
// Identity and category
// ---------------------------------------------------------------------------

/// The stable name of a command, such as `editor.save`.
#[derive(Debug, PartialEq, Eq, Hash)]
pub struct CommandId(String);

impl CommandId {
    /// The name as text.
    pub closed spec fn text(self) -> Seq<char> {
        self.0@
    }

    /// The command of the given name.
    #[must_use]
    pub fn new(slug: &str) -> (res: Self)
        ensures
            res.text() == slug@,
    {
        Self(slug.to_owned())
    }

    /// The name as text.
    #[must_use]
    pub fn as_str(&self) -> (res: &str)
        ensures
            res@ == self.text(),
    {
        self.0.as_str()
    }

    /// The name as a string of its own.
    pub fn to_string(&self) -> (res: String)
        ensures
            res@ == self.text(),
    {
        self.0.clone()
    }
}

impl Clone for CommandId {
    fn clone(&self) -> (res: Self)
        ensures
            res == *self,
    {
        CommandId(self.0.clone())
    }
}

/// How the palette groups commands.
#[derive(Debug, Clone, PartialEq, Eq, Hash)]
pub enum CommandCategory {
    /// Opening, saving and closing files.
    File,
    /// Editing text.
    Edit,
    /// What is shown, and how.
    View,
    /// The terminal.
    Terminal,
    /// Chats.
    Chat,
    /// Workspaces.
    Workspace,
    /// Help and documentation.
    Help,
    /// A group of its own, under this label.
    Custom(String),
}

// ---------------------------------------------------------------------------
// Scopes
// ---------------------------------------------------------------------------

/// Where a command is available. Each flag stands for itself.
#[derive(Debug, Clone, Copy, PartialEq, Eq, Hash, Structural)]
pub struct CommandScope {
    /// On the welcome screen.
    pub welcome: bool,
    /// In the home shell.
    pub home: bool,
    /// While the terminal has the focus.
    pub terminal_focused: bool,
    /// While the editor has the focus.
    pub editor_focused: bool,
    /// While the chat has the focus.
    pub chat_focused: bool,
}

impl CommandScope {
    /// Nowhere.
    #[must_use]
    #[verifier::allow_in_spec]
    pub fn empty() -> Self
        returns
            (CommandScope {
                welcome: false,
                home: false,
                terminal_focused: false,
                editor_focused: false,
                chat_focused: false,
            }),
    {
        Self {
            welcome: false,
            home: false,
            terminal_focused: false,
            editor_focused: false,
            chat_focused: false,
        }
    }

    /// Everywhere.
    #[must_use]
    #[verifier::allow_in_spec]
    pub fn everywhere() -> Self
        returns
            (CommandScope {
                welcome: true,
                home: true,
                terminal_focused: true,
                editor_focused: true,
                chat_focused: true,
            }),
    {
        Self {
            welcome: true,
            home: true,
            terminal_focused: true,
            editor_focused: true,
            chat_focused: true,
        }
    }

    /// Only on the welcome screen.
    #[must_use]
    pub fn welcome_only() -> (res: Self)
        ensures
            res == (CommandScope { welcome: true, ..CommandScope::empty() }),
    {
        Self { welcome: true, ..Self::empty() }
    }

    /// Only in the home shell.
    #[must_use]
    pub fn home_only() -> (res: Self)
        ensures
            res == (CommandScope { home: true, ..CommandScope::empty() }),
    {
        Self { home: true, ..Self::empty() }
    }
}

impl Default for CommandScope {
    fn default() -> (res: Self)
        ensures
            res == CommandScope::empty(),
    {
        CommandScope::empty()
    }
}

/// Where the user is. A filter admits a scope when they share a flag, so an
/// empty filter admits nothing.
#[derive(Debug, Clone, Copy, PartialEq, Eq, Hash, Structural)]
pub struct CommandScopeFilter {
    /// The welcome screen is shown.
    pub welcome: bool,
    /// The home shell is shown.
    pub home: bool,
    /// The terminal has the focus.
    pub terminal_focused: bool,
    /// The editor has the focus.
    pub editor_focused: bool,
    /// The chat has the focus.
    pub chat_focused: bool,
}

impl CommandScopeFilter {
    /// Whether some flag is set on both sides.
    pub open spec fn admits(self, scope: CommandScope) -> bool {
        ||| self.welcome && scope.welcome
        ||| self.home && scope.home
        ||| self.terminal_focused && scope.terminal_focused
        ||| self.editor_focused && scope.editor_focused
        ||| self.chat_focused && scope.chat_focused
    }

    /// No flag set.
    #[must_use]
    #[verifier::allow_in_spec]
    pub fn empty() -> Self
        returns
            (CommandScopeFilter {
                welcome: false,
                home: false,
                terminal_focused: false,
                editor_focused: false,
                chat_focused: false,
            }),
    {
        Self {
            welcome: false,
            home: false,
            terminal_focused: false,
            editor_focused: false,
            chat_focused: false,
        }
    }

    /// Every flag set.
    #[must_use]
    #[verifier::allow_in_spec]
    pub fn everywhere() -> Self
        returns
            (CommandScopeFilter {
                welcome: true,
                home: true,
                terminal_focused: true,
                editor_focused: true,
                chat_focused: true,
            }),
    {
        Self {
            welcome: true,
            home: true,
            terminal_focused: true,
            editor_focused: true,
            chat_focused: true,
        }
    }

    /// Whether some flag is set on both sides.
    #[must_use]
    pub fn matches(self, scope: &CommandScope) -> (res: bool)
        ensures
            res == self.admits(*scope),
    {
        (self.welcome && scope.welcome) || (self.home && scope.home) || (self.terminal_focused
            && scope.terminal_focused) || (self.editor_focused && scope.editor_focused) || (
        self.chat_focused && scope.chat_focused)
    }
}

impl Default for CommandScopeFilter {
    fn default() -> (res: Self)
        ensures
            res == CommandScopeFilter::empty(),
    {
        CommandScopeFilter::empty()
    }
}

/// An empty filter admits no scope, a full one every scope but the empty one.
pub proof fn law_filter_extremes(scope: CommandScope)
    ensures
        !CommandScopeFilter::empty().admits(scope),
        CommandScopeFilter::everywhere().admits(scope) <==> scope != CommandScope::empty(),
{
}

// ---------------------------------------------------------------------------
// Commands
// ---------------------------------------------------------------------------

/// What the palette shows of a command.
#[derive(Debug, Clone, PartialEq, Eq)]
#[non_exhaustive]
pub struct Command {
    /// Its stable name.
    pub id: CommandId,
    /// The text of its row.
    pub label: String,
    /// Its group.
    pub category: CommandCategory,
    /// Its shortcut, if it has one by default.
    pub default_keybinding: Option<KeyBinding>,
    /// Where it is available.
    pub scope: CommandScope,
    /// A longer explanation.
    pub description: Option<String>,
}

impl Command {
    /// A command with the given fields.
    #[must_use]
    pub fn new(
        id: CommandId,
        label: &str,
        category: CommandCategory,
        default_keybinding: Option<KeyBinding>,
        scope: CommandScope,
        description: Option<String>,
    ) -> (res: Self)
        ensures
            res.id == id,
            res.label@ == label@,
            res.category == category,
            res.default_keybinding == default_keybinding,
            res.scope == scope,
            res.description == description,
    {
        Self { id, label: label.to_owned(), category, default_keybinding, scope, description }
    }
}

/// Why a command could not run.
#[derive(Debug, Clone, PartialEq, Eq)]
#[non_exhaustive]
pub enum CommandError {
    /// No command has this name.
    NotFound(CommandId),
    /// The command is not available where the user is.
    OutOfScope(CommandId),
    /// The handler failed.
    Internal(String),
}

impl CommandError {
    /// The message shown for the error.
    pub open spec fn message(self) -> Seq<char> {
        match self {
            CommandError::NotFound(id) => "command not found: "@ + id.text(),
            CommandError::OutOfScope(id) => "command out of scope: "@ + id.text(),
            CommandError::Internal(m) => "internal command error: "@ + m@,
        }
    }

    /// The message shown for the error.
    pub fn to_string(&self) -> (res: String)
        ensures
            res@ == self.message(),
    {
        match self {
            CommandError::NotFound(id) => "command not found: ".to_owned().concat(id.as_str()),
            CommandError::OutOfScope(id) => "command out of scope: ".to_owned().concat(id.as_str()),
            CommandError::Internal(m) => "internal command error: ".to_owned().concat(m.as_str()),
        }
    }
}

/// What a command runs with.
#[derive(Debug)]
#[non_exhaustive]
pub struct CommandContext {
    /// The workspace that it runs in.
    pub workspace: WorkspaceRef,
    /// Asks it to stop.
    pub cancel_token: CancelToken,
}

impl Clone for CommandContext {
    fn clone(&self) -> (res: Self)
        ensures
            res.workspace == self.workspace,
            res.cancel_token.cell() == self.cancel_token.cell(),
    {
        CommandContext {
            workspace: self.workspace.clone(),
            cancel_token: self.cancel_token.clone(),
        }
    }
}

impl CommandContext {
    /// A context with the given fields.
    #[must_use]
    pub fn new(workspace: WorkspaceRef, cancel_token: CancelToken) -> (res: Self)
        ensures
            res == (CommandContext { workspace, cancel_token }),
    {
        Self { workspace, cancel_token }
    }
}

// ---------------------------------------------------------------------------
// The registry
// ---------------------------------------------------------------------------

/// A command and the handler that runs it.
pub struct Entry<H: ?Sized> {
    /// What the palette shows.
    pub command: Command,
    /// What runs it.
    pub handler: Arc<H>,
}

impl<H: ?Sized> Entry<H> {
    /// The name that the entry is registered under.
    pub open spec fn key(self) -> Seq<char> {
        self.command.id.text()
    }

    /// Whether a shortcut, pressed where the user is, stands for the command.
    pub open spec fn answers(self, kb: KeyBinding, filter: CommandScopeFilter) -> bool {
        self.command.default_keybinding == Some(kb) && filter.admits(self.command.scope)
    }
}

/// The entries by name; of two with one name the later counts.
spec fn by_name<H: ?Sized>(entries: Seq<Entry<H>>) -> Map<Seq<char>, Entry<H>>
    decreases entries.len(),
{
    if entries.len() == 0 {
        Map::empty()
    } else {
        by_name(entries.drop_last()).insert(entries.last().key(), entries.last())
    }
}

/// Whether no two entries share a name.
spec fn distinct<H: ?Sized>(entries: Seq<Entry<H>>) -> bool {
    forall|i: int, j: int|
        0 <= i < j < entries.len() ==> (#[trigger] entries[i]).key() != (
        #[trigger] entries[j]).key()
}

/// The names are those of the entries, and each entry stands under its name.
proof fn lemma_by_name<H: ?Sized>(entries: Seq<Entry<H>>)
    requires
        distinct(entries),
    ensures
        by_name(entries).dom().finite(),
        by_name(entries).len() == entries.len(),
        forall|i: int|
            0 <= i < entries.len() ==> by_name(entries).dom().contains(
                (#[trigger] entries[i]).key(),
            ) && by_name(entries)[entries[i].key()] == entries[i],
        forall|k: Seq<char>| #[trigger]
            by_name(entries).dom().contains(k) ==> exists|i: int|
                0 <= i < entries.len() && (#[trigger] entries[i]).key() == k,
    decreases entries.len(),
{
    if entries.len() > 0 {
        let before = entries.drop_last();
        lemma_by_name(before);
        let last = entries.last();
        assert(entries[entries.len() - 1] == last);
        assert forall|k: Seq<char>| #[trigger]
            by_name(before).dom().contains(k) implies k != last.key() by {
            let i = choose|i: int| 0 <= i < before.len() && (#[trigger] before[i]).key() == k;
            assert(entries[i] == before[i]);
        }
        assert forall|i: int| 0 <= i < entries.len() implies by_name(entries).dom().contains(
            (#[trigger] entries[i]).key(),
        ) && by_name(entries)[entries[i].key()] == entries[i] by {
            if i < before.len() {
                assert(before[i] == entries[i]);
            }
        }
        assert forall|k: Seq<char>| #[trigger] by_name(entries).dom().contains(k) implies exists|
            i: int,
        |
            0 <= i < entries.len() && (#[trigger] entries[i]).key() == k by {
            if k != last.key() {
                assert(by_name(before).dom().contains(k));
                let i = choose|i: int| 0 <= i < before.len() && (#[trigger] before[i]).key() == k;
                assert(entries[i] == before[i]);
            }
        }
    }
}

/// Taking an entry out takes its name out.
proof fn lemma_by_name_remove<H: ?Sized>(entries: Seq<Entry<H>>, at: int)
    requires
        distinct(entries),
        0 <= at < entries.len(),
    ensures
        distinct(entries.remove(at)),
        by_name(entries.remove(at)) == by_name(entries).remove(entries[at].key()),
{
    let rest = entries.remove(at);
    assert forall|i: int, j: int| 0 <= i < j < rest.len() implies (#[trigger] rest[i]).key() != (
    #[trigger] rest[j]).key() by {
        let i0 = if i < at {
            i
        } else {
            i + 1
        };
        let j0 = if j < at {
            j
        } else {
            j + 1
        };
        assert(rest[i] == entries[i0]);
        assert(rest[j] == entries[j0]);
    }
    lemma_by_name(entries);
    lemma_by_name(rest);
    let wanted = by_name(entries).remove(entries[at].key());
    assert forall|k: Seq<char>| by_name(rest).dom().contains(k) == wanted.dom().contains(k) by {
        if by_name(rest).dom().contains(k) {
            let i = choose|i: int| 0 <= i < rest.len() && (#[trigger] rest[i]).key() == k;
            let i0 = if i < at {
                i
            } else {
                i + 1
            };
            assert(rest[i] == entries[i0]);
            assert(entries[i0].key() != entries[at].key());
        }
        if wanted.dom().contains(k) {
            let i = choose|i: int| 0 <= i < entries.len() && (#[trigger] entries[i]).key() == k;
            let i0 = if i < at {
                i
            } else {
                i - 1
            };
            assert(rest[i0] == entries[i]);
        }
    }
    assert forall|k: Seq<char>| by_name(rest).dom().contains(k) implies #[trigger] by_name(rest)[k]
        == wanted[k] by {
        let i = choose|i: int| 0 <= i < rest.len() && (#[trigger] rest[i]).key() == k;
        let i0 = if i < at {
            i
        } else {
            i + 1
        };
        assert(rest[i] == entries[i0]);
    }
    assert(by_name(rest) =~= wanted);
}

/// The commands with their handlers, at most one of each name. `H` is what runs
/// a command.
pub struct CommandRegistry<H: ?Sized> {
    entries: Vec<Entry<H>>,
}

impl<H: ?Sized> View for CommandRegistry<H> {
    type V = Map<Seq<char>, Entry<H>>;

    /// The entries by name.
    closed spec fn view(&self) -> Map<Seq<char>, Entry<H>> {
        by_name(self.entries@)
    }
}

/// Whether `listed` holds, once each and in some order, the commands of
/// `registered` that `keep` selects.
pub open spec fn lists<H: ?Sized>(
    listed: Seq<&Command>,
    registered: Map<Seq<char>, Entry<H>>,
    keep: spec_fn(Command) -> bool,
) -> bool {
    &&& forall|i: int|
        0 <= i < listed.len() ==> {
            let name = (#[trigger] listed[i]).id.text();
            &&& registered.dom().contains(name)
            &&& registered[name].command == *listed[i]
            &&& keep(*listed[i])
        }
    &&& forall|i: int, j: int|
        0 <= i < j < listed.len() ==> (#[trigger] listed[i]).id.text() != (
        #[trigger] listed[j]).id.text()
    &&& forall|name: Seq<char>|
        #![trigger registered.dom().contains(name)]
        registered.dom().contains(name) && keep(registered[name].command) ==> exists|i: int|
            0 <= i < listed.len() && (#[trigger] listed[i]).id.text() == name
}

impl<H: ?Sized> CommandRegistry<H> {
    #[verifier::type_invariant]
    spec fn well_formed(self) -> bool {
        distinct(self.entries@)
    }

    /// A registry without commands.
    #[must_use]
    pub fn new() -> (res: Self)
        ensures
            res@ == Map::<Seq<char>, Entry<H>>::empty(),
    {
        Self { entries: Vec::new() }
    }

    /// The place of the entry with the given name.
    fn position(&self, id: &CommandId) -> (res: Option<usize>)
        ensures
            match res {
                Some(i) => i < self.entries@.len() && self.entries@[i as int].key() == id.text(),
                None => forall|i: int|
                    0 <= i < self.entries@.len() ==> (#[trigger] self.entries@[i]).key()
                        != id.text(),
            },
    {
        for i in 0..self.entries.len()
            invariant
                forall|j: int|
                    0 <= j < i ==> (#[trigger] self.entries@[j]).key() != id.text(),
        {
            if text::same_text(self.entries[i].command.id.as_str(), id.as_str()) {
                return Some(i);
            }
        }
        None
    }

    /// Puts a command under its name, with its handler. What was there before,
    /// both the command and the handler, is replaced.
    pub fn register(&mut self, command: Command, handler: Arc<H>)
        ensures
            final(self)@ == old(self)@.insert(command.id.text(), Entry { command, handler }),
            final(self)@.dom().finite(),
    {
        proof {
            use_type_invariant(&*self);
        }
        let at = self.position(&command.id);
        let ghost before = self.entries@;
        let ghost key = command.id.text();
        let mut entries: Vec<Entry<H>> = Vec::new();
        std::mem::swap(&mut entries, &mut self.entries);
        proof {
            lemma_by_name(before);
        }
        if let Some(i) = at {
            proof {
                lemma_by_name_remove(before, i as int);
                lemma_by_name(before.remove(i as int));
            }
            entries.remove(i);
        }
        let ghost rest = entries@;
        assert forall|i: int| 0 <= i < rest.len() implies (#[trigger] rest[i]).key() != key by {
            if at is Some {
                assert(by_name(rest).dom().contains(rest[i].key()));
            }
        }
        entries.push(Entry { command, handler });
        assert(entries@.drop_last() =~= rest);
        assert(distinct(entries@));
        assert(by_name(entries@) =~= by_name(before).insert(key, Entry { command, handler }));
        self.entries = entries;
    }

    /// The command of the given name.
    #[must_use]
    pub fn get(&self, id: &CommandId) -> (res: Option<&Command>)
        ensures
            match res {
                Some(c) => self@.dom().contains(id.text()) && *c == self@[id.text()].command
                    && c.id.text() == id.text(),
                None => !self@.dom().contains(id.text()),
            },
            self@.dom().finite(),
    {
        proof {
            use_type_invariant(self);
            lemma_by_name(self.entries@);
        }
        match self.position(id) {
            Some(i) => Some(&self.entries[i].command),
            None => None,
        }
    }

    /// The handler of the command of the given name.
    #[must_use]
    pub fn handler(&self, id: &CommandId) -> (res: Option<Arc<H>>)
        ensures
            match res {
                Some(h) => self@.dom().contains(id.text()) && h == self@[id.text()].handler,
                None => !self@.dom().contains(id.text()),
            },
            self@.dom().finite(),
    {
        proof {
            use_type_invariant(self);
            lemma_by_name(self.entries@);
        }
        match self.position(id) {
            Some(i) => Some(self.entries[i].handler.clone()),
            None => None,
        }
    }

    /// Every command, in no particular order.
    #[must_use]
    pub fn list(&self) -> (res: Vec<&Command>)
        ensures
            lists(res@, self@, |c: Command| true),
            res@.len() == self@.len(),
            self@.dom().finite(),
    {
        proof {
            use_type_invariant(self);
            lemma_by_name(self.entries@);
        }
        let mut res: Vec<&Command> = Vec::new();
        for i in 0..self.entries.len()
            invariant
                res@.len() == i,
                forall|j: int|
                    #![trigger res@[j]]
                    #![trigger self.entries@[j]]
                    0 <= j < i ==> *res@[j] == self.entries@[j].command,
        {
            res.push(&self.entries[i].command);
        }
        assert forall|i: int, j: int| 0 <= i < j < res@.len() implies (
        #[trigger] res@[i]).id.text() != (#[trigger] res@[j]).id.text() by {
            assert(self.entries@[i].key() != self.entries@[j].key());
        }
        assert forall|i: int| 0 <= i < res@.len() implies {
            let name = (#[trigger] res@[i]).id.text();
            &&& self@.dom().contains(name)
            &&& self@[name].command == *res@[i]
        } by {
            assert(self.entries@[i].key() == res@[i].id.text());
        }
        assert forall|name: Seq<char>|
            #![trigger self@.dom().contains(name)]
            self@.dom().contains(name) implies exists|i: int|
            0 <= i < res@.len() && (#[trigger] res@[i]).id.text() == name by {
            let i = choose|i: int|
                0 <= i < self.entries@.len() && (#[trigger] self.entries@[i]).key() == name;
            assert(res@[i].id.text() == name);
        }
        res
    }

    /// The commands that a filter admits, in no particular order.
    #[must_use]
    pub fn list_for_scope(&self, scope_filter: CommandScopeFilter) -> (res: Vec<&Command>)
        ensures
            lists(res@, self@, |c: Command| scope_filter.admits(c.scope)),
            self@.dom().finite(),
    {
        proof {
            use_type_invariant(self);
            lemma_by_name(self.entries@);
        }
        let mut res: Vec<&Command> = Vec::new();
        let ghost mut from: Seq<int> = Seq::empty();
        for i in 0..self.entries.len()
            invariant
                distinct(self.entries@),
                res@.len() == from.len(),
                forall|j: int|
                    0 <= j < from.len() ==> 0 <= #[trigger] from[j] < i && *res@[j]
                        == self.entries@[from[j]].command && scope_filter.admits(res@[j].scope),
                forall|j: int, k: int|
                    0 <= j < k < from.len() ==> #[trigger] from[j] < #[trigger] from[k],
                forall|e: int|
                    0 <= e < i && scope_filter.admits(
                        (#[trigger] self.entries@[e]).command.scope,
                    ) ==> exists|j: int| 0 <= j < from.len() && #[trigger] from[j] == e,
        {
            let command = &self.entries[i].command;
            if scope_filter.matches(&command.scope) {
                let ghost before = from;
                res.push(command);
                proof {
                    from = from.push(i as int);
                    assert forall|e: int|
                        0 <= e < i + 1 && scope_filter.admits(
                            (#[trigger] self.entries@[e]).command.scope,
                        ) implies exists|j: int| 0 <= j < from.len() && #[trigger] from[j] == e by {
                        if e < i {
                            let j = choose|j: int|
                                0 <= j < before.len() && #[trigger] before[j] == e;
                            assert(from[j] == e);
                        } else {
                            assert(from[before.len() as int] == e);
                        }
                    }
                }
            }
        }
        assert forall|i: int, j: int| 0 <= i < j < res@.len() implies (
        #[trigger] res@[i]).id.text() != (#[trigger] res@[j]).id.text() by {
            assert(from[i] < from[j]);
            assert(self.entries@[from[i]].key() != self.entries@[from[j]].key());
        }
        assert forall|i: int| 0 <= i < res@.len() implies {
            let name = (#[trigger] res@[i]).id.text();
            &&& self@.dom().contains(name)
            &&& self@[name].command == *res@[i]
            &&& scope_filter.admits(res@[i].scope)
        } by {
            assert(0 <= from[i]);
            assert(self.entries@[from[i]].key() == res@[i].id.text());
        }
        assert forall|name: Seq<char>|
            #![trigger self@.dom().contains(name)]
            self@.dom().contains(name) && scope_filter.admits(
                self@[name].command.scope,
            ) implies exists|i: int|
            0 <= i < res@.len() && (#[trigger] res@[i]).id.text() == name by {
            let e = choose|e: int|
                0 <= e < self.entries@.len() && (#[trigger] self.entries@[e]).key() == name;
            let j = choose|j: int| 0 <= j < from.len() && #[trigger] from[j] == e;
            assert(res@[j].id.text() == name);
        }
        res
    }

    /// A command whose default shortcut is `kb` and that the filter admits.
    /// Where several qualify, any of them may come back.
    #[must_use]
    pub fn lookup_by_keybinding(
        &self,
        kb: &KeyBinding,
        scope_filter: CommandScopeFilter,
    ) -> (res: Option<&Command>)
        ensures
            match res {
                Some(c) => self@.dom().contains(c.id.text()) && self@[c.id.text()].command == *c
                    && self@[c.id.text()].answers(*kb, scope_filter),
                None => forall|name: Seq<char>| #[trigger]
                    self@.dom().contains(name) ==> !self@[name].answers(*kb, scope_filter),
            },
    {
        proof {
            use_type_invariant(self);
            lemma_by_name(self.entries@);
        }
        for i in 0..self.entries.len()
            invariant
                forall|j: int|
                    0 <= j < i ==> !(#[trigger] self.entries@[j]).answers(*kb, scope_filter),
                forall|j: int|
                    0 <= j < self.entries@.len() ==> self@.dom().contains(
                        (#[trigger] self.entries@[j]).key(),
                    ) && self@[self.entries@[j].key()] == self.entries@[j],
        {
            let entry = &self.entries[i];
            let bound = match entry.command.default_keybinding {
                Some(own) => own == *kb,
                None => false,
            };
            if bound && scope_filter.matches(&entry.command.scope) {
                assert(self.entries@[i as int].answers(*kb, scope_filter));
                return Some(&entry.command);
            }
        }
        assert forall|name: Seq<char>| #[trigger] self@.dom().contains(name) implies !self@[name].answers(
            *kb,
            scope_filter,
        ) by {
            let e = choose|e: int|
                0 <= e < self.entries@.len() && (#[trigger] self.entries@[e]).key() == name;
        }
        None
    }

    /// Takes out the command of the given name. Reports whether there was one.
    pub fn unregister(&mut self, id: &CommandId) -> (res: bool)
        ensures
            res == old(self)@.dom().contains(id.text()),
            final(self)@ == old(self)@.remove(id.text()),
            final(self)@.dom().finite(),
    {
        proof {
            use_type_invariant(&*self);
            lemma_by_name(self.entries@);
        }
        match self.position(id) {
            Some(i) => {
                let ghost before = self.entries@;
                let mut entries: Vec<Entry<H>> = Vec::new();
                std::mem::swap(&mut entries, &mut self.entries);
                proof {
                    lemma_by_name_remove(before, i as int);
                }
                entries.remove(i);
                self.entries = entries;
                true
            },
            None => {
                assert(self@.remove(id.text()) =~= self@);
                false
            },
        }
    }

    /// The number of commands.
    #[must_use]
    pub fn len(&self) -> (res: usize)
        ensures
            res == self@.len(),
            self@.dom().finite(),
    {
        proof {
            use_type_invariant(self);
            lemma_by_name(self.entries@);
        }
        self.entries.len()
    }

    /// Whether there are no commands.
    #[must_use]
    pub fn is_empty(&self) -> (res: bool)
        ensures
            res == (self@.len() == 0),
            self@.dom().finite(),
    {
        proof {
            use_type_invariant(self);
            lemma_by_name(self.entries@);
        }
        self.entries.len() == 0
    }
}

impl<H: ?Sized> Default for CommandRegistry<H> {
    fn default() -> (res: Self)
        ensures
            res@ == Map::<Seq<char>, Entry<H>>::empty(),
    {
        Self::new()
    }
}

// ---------------------------------------------------------------------------
// Laws
// ---------------------------------------------------------------------------

/// Registering a second command under a name leaves only the second one, and
/// the number of commands as it was after the first.
pub proof fn law_register_overwrites<H: ?Sized>(
    registered: Map<Seq<char>, Entry<H>>,
    first: Entry<H>,
    second: Entry<H>,
)
    requires
        registered.dom().finite(),
        first.key() == second.key(),
    ensures
        registered.insert(first.key(), first).insert(second.key(), second) == registered.insert(
            second.key(),
            second,
        ),
        registered.insert(first.key(), first).insert(second.key(), second).len()
            == registered.insert(first.key(), first).len(),
{
    assert(registered.insert(first.key(), first).insert(second.key(), second)
        =~= registered.insert(second.key(), second));
    assert(registered.insert(second.key(), second).dom() =~= registered.insert(
        first.key(),
        first,
    ).dom());
}

/// Unregistering a command that was not there before undoes its registration,
/// and a second time there is nothing to take out.
pub proof fn law_unregister_undoes_register<H: ?Sized>(
    registered: Map<Seq<char>, Entry<H>>,
    entry: Entry<H>,
)
    requires
        !registered.dom().contains(entry.key()),
    ensures
        registered.insert(entry.key(), entry).remove(entry.key()) == registered,
        !registered.insert(entry.key(), entry).remove(entry.key()).dom().contains(entry.key()),
{
    assert(registered.insert(entry.key(), entry).remove(entry.key()) =~= registered);
}

/// Registering or unregistering one command leaves every other one alone.
pub proof fn law_other_commands_stay<H: ?Sized>(
    registered: Map<Seq<char>, Entry<H>>,
    entry: Entry<H>,
    other: Seq<char>,
)
    requires
        other != entry.key(),
    ensures
        registered.insert(entry.key(), entry).dom().contains(other) <==> registered.dom().contains(
            other,
        ),
        registered.remove(entry.key()).dom().contains(other) <==> registered.dom().contains(other),
        registered.dom().contains(other) ==> registered.insert(entry.key(), entry)[other]
            == registered[other] && registered.remove(entry.key())[other] == registered[other],
{
}

} // verus!
