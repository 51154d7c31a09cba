use std::sync::Arc;

use openspace::command::{
    Command, CommandCategory, CommandContext, CommandError, CommandId, CommandRegistry,
    CommandScope, CommandScopeFilter,
};
use openspace::effect::{Effect, NotificationLevel};
use openspace::id::WorkspaceId;
use openspace::keybinding::{Key, KeyBinding, Modifiers};
use openspace::tool::CancelToken;
use openspace::workspace::WorkspaceRef;

trait Handler {
    fn id(&self) -> CommandId;
    fn execute(&self, ctx: &CommandContext) -> Result<Vec<Effect>, CommandError>;
}

struct StubHandler {
    id: CommandId,
    effects: Vec<Effect>,
}

impl StubHandler {
    fn new(id: CommandId, effects: Vec<Effect>) -> Self {
        Self { id, effects }
    }
}

impl Handler for StubHandler {
    fn id(&self) -> CommandId {
        self.id.clone()
    }

    fn execute(&self, _ctx: &CommandContext) -> Result<Vec<Effect>, CommandError> {
        Ok(self.effects.clone())
    }
}

fn registry() -> CommandRegistry<dyn Handler> {
    CommandRegistry::new()
}

fn stub(id: &CommandId, effects: Vec<Effect>) -> Arc<dyn Handler> {
    Arc::new(StubHandler::new(id.clone(), effects))
}

fn save_command() -> Command {
    Command::new(
        CommandId::new("editor.save"),
        "Save",
        CommandCategory::File,
        Some(KeyBinding::new(Modifiers::ctrl(), Key::Char('s'))),
        CommandScope {
            home: true,
            editor_focused: true,
            ..CommandScope::empty()
        },
        Some("Persist the active buffer to disk.".to_string()),
    )
}

fn palette_command() -> Command {
    Command::new(
        CommandId::new("palette.toggle"),
        "Toggle Command Palette",
        CommandCategory::View,
        Some(KeyBinding::new(
            Modifiers::ctrl() | Modifiers::shift(),
            Key::Char('p'),
        )),
        CommandScope::everywhere(),
        None,
    )
}

fn welcome_command() -> Command {
    Command::new(
        CommandId::new("workspace.open"),
        "Open Workspace",
        CommandCategory::Workspace,
        None,
        CommandScope::welcome_only(),
        None,
    )
}

fn sample_context() -> CommandContext {
    CommandContext::new(
        WorkspaceRef::new(WorkspaceId::new_v4(), "Example".to_string()),
        CancelToken::new(),
    )
}

#[test]
fn scope_filter_extremes_match_as_expected() {
    let scope = CommandScope::home_only();
    assert!(CommandScopeFilter::everywhere().matches(&scope));
    assert!(!CommandScopeFilter::empty().matches(&scope));
    assert!(!CommandScopeFilter::everywhere().matches(&CommandScope::empty()));
}

#[test]
fn scope_filter_matches_on_intersection_only() {
    let editor_scope = CommandScope {
        home: true,
        editor_focused: true,
        ..CommandScope::empty()
    };
    let editor_focus_filter = CommandScopeFilter {
        editor_focused: true,
        ..CommandScopeFilter::empty()
    };
    let chat_focus_filter = CommandScopeFilter {
        chat_focused: true,
        ..CommandScopeFilter::empty()
    };
    assert!(editor_focus_filter.matches(&editor_scope));
    assert!(!chat_focus_filter.matches(&editor_scope));
}

#[test]
fn register_then_get_returns_the_command() {
    let mut registry = registry();
    let cmd = save_command();
    registry.register(cmd.clone(), stub(&cmd.id, Vec::new()));

    let fetched = registry.get(&cmd.id).expect("registered");
    assert_eq!(fetched, &cmd);
}

#[test]
fn handler_returns_the_registered_implementation() {
    let mut registry = registry();
    let cmd = save_command();
    let effects = vec![Effect::EmitNotification {
        level: NotificationLevel::Info,
        message: "saved".to_string(),
    }];
    registry.register(cmd.clone(), stub(&cmd.id, effects.clone()));

    let fetched = registry.handler(&cmd.id).expect("handler");
    assert_eq!(fetched.id(), cmd.id);
    let result = fetched.execute(&sample_context()).expect("execute");
    assert_eq!(result, effects);
}

#[test]
fn list_returns_every_registered_command() {
    let mut registry = registry();
    let a = save_command();
    let b = palette_command();
    registry.register(a.clone(), stub(&a.id, Vec::new()));
    registry.register(b.clone(), stub(&b.id, Vec::new()));
    let listed: Vec<CommandId> = registry.list().iter().map(|c| c.id.clone()).collect();
    assert_eq!(listed.len(), 2);
    assert!(listed.contains(&a.id));
    assert!(listed.contains(&b.id));
}

#[test]
fn list_for_scope_filters_on_intersection() {
    let mut registry = registry();
    let editor_cmd = save_command();
    let welcome_cmd = welcome_command();
    registry.register(editor_cmd.clone(), stub(&editor_cmd.id, Vec::new()));
    registry.register(welcome_cmd.clone(), stub(&welcome_cmd.id, Vec::new()));

    let editor_filter = CommandScopeFilter {
        home: true,
        editor_focused: true,
        ..CommandScopeFilter::empty()
    };
    let listed: Vec<CommandId> = registry
        .list_for_scope(editor_filter)
        .iter()
        .map(|c| c.id.clone())
        .collect();
    assert_eq!(listed, vec![editor_cmd.id.clone()]);

    let welcome_filter = CommandScopeFilter {
        welcome: true,
        ..CommandScopeFilter::empty()
    };
    let listed: Vec<CommandId> = registry
        .list_for_scope(welcome_filter)
        .iter()
        .map(|c| c.id.clone())
        .collect();
    assert_eq!(listed, vec![welcome_cmd.id.clone()]);
}

#[test]
fn lookup_by_keybinding_returns_match_when_scope_admits() {
    let mut registry = registry();
    let cmd = save_command();
    registry.register(cmd.clone(), stub(&cmd.id, Vec::new()));

    let kb = KeyBinding::new(Modifiers::ctrl(), Key::Char('s'));
    let filter = CommandScopeFilter {
        editor_focused: true,
        ..CommandScopeFilter::empty()
    };
    let found = registry.lookup_by_keybinding(&kb, filter).expect("match");
    assert_eq!(found.id, cmd.id);
}

#[test]
fn lookup_by_keybinding_returns_none_when_scope_excludes() {
    let mut registry = registry();
    let cmd = save_command();
    registry.register(cmd.clone(), stub(&cmd.id, Vec::new()));

    let kb = KeyBinding::new(Modifiers::ctrl(), Key::Char('s'));
    let filter = CommandScopeFilter {
        welcome: true,
        ..CommandScopeFilter::empty()
    };
    assert!(registry.lookup_by_keybinding(&kb, filter).is_none());
}

#[test]
fn lookup_by_keybinding_returns_none_when_binding_differs() {
    let mut registry = registry();
    let cmd = save_command();
    registry.register(cmd.clone(), stub(&cmd.id, Vec::new()));

    let unrelated = KeyBinding::new(Modifiers::ctrl(), Key::Char('q'));
    let filter = CommandScopeFilter::everywhere();
    assert!(registry.lookup_by_keybinding(&unrelated, filter).is_none());
}

#[test]
fn lookup_by_keybinding_skips_commands_without_default_binding() {
    let mut registry = registry();
    let cmd = welcome_command();
    registry.register(cmd.clone(), stub(&cmd.id, Vec::new()));
    let kb = KeyBinding::new(Modifiers::ctrl(), Key::Char('s'));
    assert!(registry
        .lookup_by_keybinding(&kb, CommandScopeFilter::everywhere())
        .is_none());
}

#[test]
fn re_register_overwrites_command_and_handler() {
    let mut registry = registry();
    let id = CommandId::new("editor.save");
    let original = Command::new(
        id.clone(),
        "Save",
        CommandCategory::File,
        None,
        CommandScope::home_only(),
        None,
    );
    registry.register(original, stub(&id, Vec::new()));
    assert_eq!(registry.len(), 1);

    let replacement_effects = vec![Effect::EmitNotification {
        level: NotificationLevel::Warning,
        message: "saved (v2)".to_string(),
    }];
    let replacement = Command::new(
        id.clone(),
        "Save (v2)",
        CommandCategory::File,
        None,
        CommandScope::home_only(),
        None,
    );
    registry.register(replacement, stub(&id, replacement_effects.clone()));

    assert_eq!(registry.len(), 1);
    let fetched = registry.get(&id).expect("present");
    assert_eq!(fetched.label, "Save (v2)");
    let handler = registry.handler(&id).expect("handler");
    let result = handler.execute(&sample_context()).expect("execute");
    assert_eq!(result, replacement_effects);
}

#[test]
fn unregister_clears_and_reports() {
    let mut registry = registry();
    let cmd = save_command();
    registry.register(cmd.clone(), stub(&cmd.id, Vec::new()));
    assert!(registry.unregister(&cmd.id));
    assert!(registry.get(&cmd.id).is_none());
    assert!(registry.is_empty());

    assert!(!registry.unregister(&cmd.id));
    assert!(!registry.unregister(&CommandId::new("never.registered")));
}

#[test]
fn unregistering_leaves_other_commands_alone() {
    let mut registry = registry();
    let a = save_command();
    let b = palette_command();
    registry.register(a.clone(), stub(&a.id, Vec::new()));
    registry.register(b.clone(), stub(&b.id, Vec::new()));
    assert!(registry.unregister(&a.id));
    assert_eq!(registry.get(&b.id), Some(&b));
    assert!(registry.handler(&a.id).is_none());
    assert_eq!(registry.len(), 1);
}

#[test]
fn command_error_display_carries_id_and_message() {
    let id = CommandId::new("editor.save");
    assert_eq!(
        CommandError::NotFound(id.clone()).to_string(),
        "command not found: editor.save"
    );
    assert_eq!(
        CommandError::OutOfScope(id).to_string(),
        "command out of scope: editor.save"
    );
    assert_eq!(
        CommandError::Internal("disk full".to_string()).to_string(),
        "internal command error: disk full"
    );
}

#[test]
fn command_error_match_uses_wildcard_arm() {
    let cases = [
        CommandError::NotFound(CommandId::new("a")),
        CommandError::OutOfScope(CommandId::new("b")),
        CommandError::Internal("x".to_string()),
    ];
    for e in cases {
        #[allow(unreachable_patterns)]
        let label = match e {
            CommandError::NotFound(_) => "not_found",
            CommandError::OutOfScope(_) => "out_of_scope",
            CommandError::Internal(_) => "internal",
            _ => "unknown",
        };
        assert!(matches!(label, "not_found" | "out_of_scope" | "internal"));
    }
}
