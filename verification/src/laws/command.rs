//! What holds of the palette's commands.

use std::sync::Arc;

use vstd::prelude::*;
use vstd::string::*;

use crate::command::{
    Command, CommandError, CommandId, CommandRegistry, CommandScope, CommandScopeFilter,
};
use crate::keybinding::KeyBinding;

verus! {

// ---------------------------------------------------------------------------
// Scopes
// ---------------------------------------------------------------------------

/// A filter with one flag admits a scope exactly where the scope has that same flag.
pub proof fn law_single_flag_admits_its_own(
    filter: CommandScopeFilter,
    scope: CommandScope,
    res: bool,
)
    requires
        call_ensures(CommandScopeFilter::matches, (filter, &scope), res),
    ensures
        filter == (CommandScopeFilter { welcome: true, ..CommandScopeFilter::empty() }) ==> res
            == scope.welcome,
        filter == (CommandScopeFilter { home: true, ..CommandScopeFilter::empty() }) ==> res
            == scope.home,
        filter == (CommandScopeFilter { terminal_focused: true, ..CommandScopeFilter::empty() })
            ==> res == scope.terminal_focused,
        filter == (CommandScopeFilter { editor_focused: true, ..CommandScopeFilter::empty() })
            ==> res == scope.editor_focused,
        filter == (CommandScopeFilter { chat_focused: true, ..CommandScopeFilter::empty() }) ==> res
            == scope.chat_focused,
{
}

/// A filter admits what either of two filters admits whose flags it has, and nothing else.
pub proof fn law_union_admits_either(
    a: CommandScopeFilter,
    b: CommandScopeFilter,
    both: CommandScopeFilter,
    scope: CommandScope,
    by_a: bool,
    by_b: bool,
    by_both: bool,
)
    requires
        both == (CommandScopeFilter {
            welcome: a.welcome || b.welcome,
            home: a.home || b.home,
            terminal_focused: a.terminal_focused || b.terminal_focused,
            editor_focused: a.editor_focused || b.editor_focused,
            chat_focused: a.chat_focused || b.chat_focused,
        }),
        call_ensures(CommandScopeFilter::matches, (a, &scope), by_a),
        call_ensures(CommandScopeFilter::matches, (b, &scope), by_b),
        call_ensures(CommandScopeFilter::matches, (both, &scope), by_both),
    ensures
        by_both == (by_a || by_b),
{
}

/// Nobody is nowhere: an empty filter admits no scope and an empty scope is admitted by no
/// filter. A full filter admits every other scope, and a full scope is admitted by every
/// other filter.
pub proof fn law_empty_admits_nothing(
    filter: CommandScopeFilter,
    scope: CommandScope,
    empty_filter: CommandScopeFilter,
    empty_scope: CommandScope,
    full_filter: CommandScopeFilter,
    full_scope: CommandScope,
    res: bool,
)
    requires
        call_ensures(CommandScopeFilter::empty, (), empty_filter),
        call_ensures(CommandScope::empty, (), empty_scope),
        call_ensures(CommandScopeFilter::everywhere, (), full_filter),
        call_ensures(CommandScope::everywhere, (), full_scope),
        call_ensures(CommandScopeFilter::matches, (filter, &scope), res),
    ensures
        filter == empty_filter || scope == empty_scope ==> !res,
        filter == full_filter && scope != empty_scope ==> res,
        scope == full_scope && filter != empty_filter ==> res,
        call_ensures(CommandScope::default, (), scope) ==> scope == empty_scope,
        call_ensures(CommandScopeFilter::default, (), filter) ==> filter == empty_filter,
{
}

/// The narrow scopes are admitted exactly where their one place is.
pub proof fn law_narrow_scopes(
    filter: CommandScopeFilter,
    welcome: CommandScope,
    home: CommandScope,
    in_welcome: bool,
    in_home: bool,
)
    requires
        call_ensures(CommandScope::welcome_only, (), welcome),
        call_ensures(CommandScope::home_only, (), home),
        call_ensures(CommandScopeFilter::matches, (filter, &welcome), in_welcome),
        call_ensures(CommandScopeFilter::matches, (filter, &home), in_home),
    ensures
        in_welcome == filter.welcome,
        in_home == filter.home,
{
}

// ---------------------------------------------------------------------------
// The registry
// ---------------------------------------------------------------------------

/// A registered command is found under its name with its handler, whatever was registered
/// under that name before. Every other name finds what it found.
pub proof fn law_registered_command_is_found<H: ?Sized>(
    registry: &mut CommandRegistry<H>,
    command: Command,
    handler: Arc<H>,
    id: CommandId,
    before: Option<&Command>,
    after: Option<&Command>,
    handler_before: Option<Arc<H>>,
    handler_after: Option<Arc<H>>,
)
    requires
        call_ensures(CommandRegistry::<H>::get, (&*old(registry), &id), before),
        call_ensures(CommandRegistry::<H>::handler, (&*old(registry), &id), handler_before),
        call_ensures(CommandRegistry::<H>::register, (registry, command, handler), ()),
        call_ensures(CommandRegistry::<H>::get, (&*final(registry), &id), after),
        call_ensures(CommandRegistry::<H>::handler, (&*final(registry), &id), handler_after),
    ensures
        id.text() == command.id.text() ==> after == Some(&command) && handler_after == Some(
            handler,
        ),
        id.text() != command.id.text() ==> after == before && handler_after == handler_before,
{
}

/// Unregistering reports whether there was a command of that name. From then on there is
/// none; every other name finds what it found.
pub proof fn law_unregistered_command_is_gone<H: ?Sized>(
    registry: &mut CommandRegistry<H>,
    gone: CommandId,
    res: bool,
    id: CommandId,
    before: Option<&Command>,
    after: Option<&Command>,
    handler_before: Option<Arc<H>>,
    handler_after: Option<Arc<H>>,
)
    requires
        call_ensures(CommandRegistry::<H>::get, (&*old(registry), &id), before),
        call_ensures(CommandRegistry::<H>::handler, (&*old(registry), &id), handler_before),
        call_ensures(CommandRegistry::<H>::unregister, (registry, &gone), res),
        call_ensures(CommandRegistry::<H>::get, (&*final(registry), &id), after),
        call_ensures(CommandRegistry::<H>::handler, (&*final(registry), &id), handler_after),
    ensures
        id.text() == gone.text() ==> res == (before is Some) && after is None && handler_after
            is None,
        id.text() != gone.text() ==> after == before && handler_after == handler_before,
{
}

/// A name finds a command exactly where it finds a handler, and the command has that
/// name. In a new registry no name finds one.
pub proof fn law_command_and_handler_go_together<H: ?Sized>(
    registry: CommandRegistry<H>,
    id: CommandId,
    command: Option<&Command>,
    handler: Option<Arc<H>>,
    empty: CommandRegistry<H>,
    missing: Option<&Command>,
)
    requires
        call_ensures(CommandRegistry::<H>::get, (&registry, &id), command),
        call_ensures(CommandRegistry::<H>::handler, (&registry, &id), handler),
        call_ensures(CommandRegistry::<H>::new, (), empty),
        call_ensures(CommandRegistry::<H>::get, (&empty, &id), missing),
    ensures
        command is Some <==> handler is Some,
        command matches Some(found) ==> found.id.text() == id.text(),
        missing is None,
{
}

/// The number of commands goes up by one with a new name, stays with a known one, and goes
/// down by one with an unregistered one. It starts at zero.
pub proof fn law_length_counts_names<H: ?Sized>(
    registry: &mut CommandRegistry<H>,
    command: Command,
    handler: Arc<H>,
    known: Option<&Command>,
    before: usize,
    after: usize,
    empty: CommandRegistry<H>,
    none: usize,
)
    requires
        call_ensures(CommandRegistry::<H>::get, (&*old(registry), &command.id), known),
        call_ensures(CommandRegistry::<H>::len, (&*old(registry),), before),
        call_ensures(CommandRegistry::<H>::register, (registry, command, handler), ()),
        call_ensures(CommandRegistry::<H>::len, (&*final(registry),), after),
        call_ensures(CommandRegistry::<H>::new, (), empty),
        call_ensures(CommandRegistry::<H>::len, (&empty,), none),
    ensures
        known is None ==> after == before + 1,
        known is Some ==> after == before,
        none == 0,
{
    let name = command.id.text();
    let m = old(registry)@;
    assert(final(registry)@.dom() =~= m.dom().insert(name));
    if m.dom().contains(name) {
        assert(m.dom().insert(name) =~= m.dom());
    }
}

/// The list holds a command exactly where its name finds it, and no name twice.
pub proof fn law_list_holds_what_is_found<H: ?Sized>(
    registry: CommandRegistry<H>,
    listed: Vec<&Command>,
    id: CommandId,
    found: Option<&Command>,
    i: int,
    j: int,
)
    requires
        call_ensures(CommandRegistry::<H>::list, (&registry,), listed),
        call_ensures(CommandRegistry::<H>::get, (&registry, &id), found),
    ensures
        found matches Some(command) ==> exists|k: int|
            0 <= k < listed@.len() && #[trigger] listed@[k].id.text() == id.text(),
        0 <= i < listed@.len() && listed@[i].id.text() == id.text() ==> found == Some(listed@[i]),
        0 <= i < j < listed@.len() ==> listed@[i].id.text() != listed@[j].id.text(),
{
    assert(registry@.dom().contains(id.text()) <==> found is Some);
    if 0 <= i < listed@.len() {
        assert(registry@.dom().contains(listed@[i].id.text()));
    }
}

/// Where the user is, exactly those of the registered commands are listed whose scope the
/// filter admits, and no name twice.
pub proof fn law_scoped_list_holds_what_is_admitted<H: ?Sized>(
    registry: CommandRegistry<H>,
    filter: CommandScopeFilter,
    listed: Vec<&Command>,
    id: CommandId,
    command: Command,
    admitted: bool,
    i: int,
    j: int,
)
    requires
        call_ensures(CommandRegistry::<H>::list_for_scope, (&registry, filter), listed),
        call_ensures(CommandRegistry::<H>::get, (&registry, &id), Some(&command)),
        call_ensures(CommandScopeFilter::matches, (filter, &command.scope), admitted),
    ensures
        admitted <==> exists|k: int|
            0 <= k < listed@.len() && #[trigger] listed@[k].id.text() == id.text(),
        0 <= i < listed@.len() && listed@[i].id.text() == id.text() ==> *listed@[i] == command,
        0 <= i < j < listed@.len() ==> listed@[i].id.text() != listed@[j].id.text(),
{
    assert(registry@.dom().contains(id.text()));
    if exists|k: int| 0 <= k < listed@.len() && #[trigger] listed@[k].id.text() == id.text() {
        let k = choose|k: int| 0 <= k < listed@.len() && #[trigger] listed@[k].id.text() == id.text();
        assert(registry@[listed@[k].id.text()].command == *listed@[k]);
    }
    if 0 <= i < listed@.len() {
        assert(registry@[listed@[i].id.text()].command == *listed@[i]);
    }
}

/// A shortcut finds a registered command that has it and that is available where the user
/// is. It finds none exactly where there is no such command.
pub proof fn law_shortcut_finds_an_available_command<H: ?Sized>(
    registry: CommandRegistry<H>,
    kb: KeyBinding,
    filter: CommandScopeFilter,
    res: Option<&Command>,
    id: CommandId,
    registered: Option<&Command>,
    admitted: bool,
)
    requires
        call_ensures(CommandRegistry::<H>::lookup_by_keybinding, (&registry, &kb, filter), res),
        call_ensures(CommandRegistry::<H>::get, (&registry, &id), registered),
        registered matches Some(command) ==> call_ensures(
            CommandScopeFilter::matches,
            (filter, &command.scope),
            admitted,
        ),
    ensures
        res matches Some(command) ==> command.default_keybinding == Some(kb),
        res matches Some(command) && command.id.text() == id.text() ==> registered == res
            && admitted,
        registered matches Some(command) && command.default_keybinding == Some(kb) && admitted
            ==> res is Some,
{
}

/// The message of an error ends in what it is about, and tells the errors apart.
pub proof fn law_command_errors_name_the_command(
    id: CommandId,
    detail: String,
    not_found: String,
    out_of_scope: String,
    internal: String,
)
    requires
        call_ensures(CommandError::to_string, (&CommandError::NotFound(id),), not_found),
        call_ensures(CommandError::to_string, (&CommandError::OutOfScope(id),), out_of_scope),
        call_ensures(CommandError::to_string, (&CommandError::Internal(detail),), internal),
    ensures
        not_found@ == "command not found: "@ + id.text(),
        out_of_scope@ == "command out of scope: "@ + id.text(),
        internal@ == "internal command error: "@ + detail@,
{
}

/// A name is kept as it was given.
pub proof fn law_command_name_is_kept(slug: &str, id: CommandId, shown: &str, text: String)
    requires
        call_ensures(CommandId::new, (slug,), id),
        call_ensures(CommandId::as_str, (&id,), shown),
        call_ensures(CommandId::to_string, (&id,), text),
    ensures
        shown@ == slug@,
        text@ == slug@,
{
}

/// A registry is empty where it has no command, and a new one has none.
pub proof fn law_empty_registry_has_no_command<H: ?Sized>(
    registry: CommandRegistry<H>,
    empty: bool,
    length: usize,
    fresh: CommandRegistry<H>,
    default: CommandRegistry<H>,
    id: CommandId,
    found: Option<&Command>,
    found_by_default: Option<&Command>,
)
    requires
        call_ensures(CommandRegistry::<H>::is_empty, (&registry,), empty),
        call_ensures(CommandRegistry::<H>::len, (&registry,), length),
        call_ensures(CommandRegistry::<H>::new, (), fresh),
        call_ensures(CommandRegistry::<H>::default, (), default),
        call_ensures(CommandRegistry::<H>::get, (&fresh, &id), found),
        call_ensures(CommandRegistry::<H>::get, (&default, &id), found_by_default),
    ensures
        empty <==> length == 0,
        found is None,
        found_by_default is None,
{
}

} // verus!
