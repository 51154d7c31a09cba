//! Tools: what the model can call, how dangerous a call is, and what comes back.

use std::sync::atomic::{AtomicBool, Ordering};
use std::sync::Arc;

use vstd::prelude::*;
use vstd::string::*;

use crate::effect::Effect;
use crate::json;
use crate::sandbox::SandboxPolicy;
use crate::workspace::WorkspaceRef;

verus! {

/// How dangerous a tool call is.
#[derive(Debug, Clone, Copy, PartialEq, Eq, Structural)]
pub enum SafetyClass {
    /// It has no side effects.
    Safe,
    /// It needs the user's approval.
    RequiresApproval,
    /// It can destroy data.
    Destructive,
}

/// The stable name of a tool.
#[derive(Debug, Clone, PartialEq, Eq, Hash)]
pub struct ToolId(String);

impl ToolId {
    /// The name as text.
    pub closed spec fn text(self) -> Seq<char> {
        self.0@
    }

    /// The tool of the given name.
    #[must_use]
    pub fn new(id: &str) -> (res: Self)
        ensures
            res.text() == id@,
    {
        Self(id.to_owned())
    }

    /// The name as text.
    #[must_use]
    pub fn as_str(&self) -> (res: &str)
        ensures
            res@ == self.text(),
    {
        self.0.as_str()
    }

    /// The name as a string of its own.
    pub fn to_string(&self) -> (res: String)
        ensures
            res@ == self.text(),
    {
        self.0.clone()
    }
}

/// What a provider is told about a tool.
#[derive(Debug, Clone, PartialEq, Eq)]
#[non_exhaustive]
pub struct ToolSchema {
    /// The name that the model calls it by.
    pub name: String,
    /// What it is for.
    pub description: String,
    /// The JSON schema of its arguments.
    pub json_schema: serde_json::Value,
}

impl ToolSchema {
    /// A schema with the given fields.
    #[must_use]
    pub fn new(name: &str, description: &str, json_schema: serde_json::Value) -> (res: Self)
        ensures
            res.name@ == name@,
            res.description@ == description@,
            res.json_schema == json_schema,
    {
        Self { name: name.to_owned(), description: description.to_owned(), json_schema }
    }
}

/// The arguments of a tool call.
#[derive(Debug, Clone, PartialEq)]
pub struct ToolArgs(serde_json::Value);

impl ToolArgs {
    /// The arguments as a JSON value.
    pub closed spec fn value(self) -> serde_json::Value {
        self.0
    }

    /// The given arguments.
    #[must_use]
    pub fn new(value: serde_json::Value) -> (res: Self)
        ensures
            res.value() == value,
    {
        Self(value)
    }

    /// The arguments as a JSON value.
    #[must_use]
    pub fn as_value(&self) -> (res: &serde_json::Value)
        ensures
            *res == self.value(),
    {
        &self.0
    }

    /// The members of the arguments, where they are a JSON object.
    #[must_use]
    pub fn as_object(&self) -> (res: Option<&serde_json::Map<String, serde_json::Value>>)
        ensures
            match res {
                Some(m) => json::members(self.value()) == Some(*m),
                None => json::members(self.value()) is None,
            },
    {
        self.0.as_object()
    }

    /// The JSON value, out of its wrapper.
    #[must_use]
    pub fn into_inner(self) -> (res: serde_json::Value)
        ensures
            res == self.value(),
    {
        self.0
    }

    /// The arguments as compact JSON.
    pub fn to_string(&self) -> (res: String)
        ensures
            res@ == json::compact_text(self.value()),
    {
        json::write_compact(&self.0)
    }
}

// ---------------------------------------------------------------------------
// Cancellation
// ---------------------------------------------------------------------------

/// A flag that asks running work to stop. All clones share one flag, which
/// starts cleared and, once set, stays set.
///
/// The flag lives in an atomic cell that other threads write, so what a read of
/// it returns is a matter of when it happens. Stated is which cell is made, with
/// which value, and which cell is read and written.
#[derive(Debug)]
pub struct CancelToken(Arc<AtomicBool>);

impl CancelToken {
    /// The cell that holds the flag.
    pub closed spec fn cell(self) -> Arc<AtomicBool> {
        self.0
    }

    /// A token whose flag is cleared.
    #[must_use]
    pub fn new() -> (res: Self)
        ensures
            call_ensures(AtomicBool::new, (false,), *res.cell()),
    {
        Self(Arc::new(AtomicBool::new(false)))
    }

    /// Whether the flag is set.
    #[must_use]
    pub fn cancelled(&self) -> (res: bool)
        ensures
            call_ensures(AtomicBool::load, (&*self.cell(), Ordering::SeqCst), res),
    {
        self.0.load(Ordering::SeqCst)
    }

    /// Sets the flag.
    pub fn cancel(&self)
        ensures
            call_ensures(AtomicBool::store, (&*self.cell(), true, Ordering::SeqCst), ()),
    {
        self.0.store(true, Ordering::SeqCst);
    }
}

impl Clone for CancelToken {
    fn clone(&self) -> (res: Self)
        ensures
            res.cell() == self.cell(),
    {
        CancelToken(self.0.clone())
    }
}

impl Default for CancelToken {
    fn default() -> (res: Self)
        ensures
            call_ensures(AtomicBool::new, (false,), *res.cell()),
    {
        Self::new()
    }
}

// ---------------------------------------------------------------------------
// Calls
// ---------------------------------------------------------------------------

/// How the user answered a request for approval.
#[derive(Debug, Clone, Copy, PartialEq, Eq, Structural)]
#[non_exhaustive]
pub enum ApprovalDecision {
    /// Yes.
    Approved,
    /// No.
    Denied,
    /// Not in time.
    Timeout,
}

/// What a tool call runs with. `A` is the channel through which it asks for
/// approval.
#[derive(Debug)]
#[non_exhaustive]
pub struct ToolContext<A: ?Sized> {
    /// The workspace that the call runs in.
    pub workspace: WorkspaceRef,
    /// The policy that the call is held to.
    pub sandbox: SandboxPolicy,
    /// Asks the call to stop.
    pub cancel_token: CancelToken,
    /// Where the call asks for approval.
    pub request_approval: Arc<A>,
}

impl<A: ?Sized> Clone for ToolContext<A> {
    fn clone(&self) -> (res: Self)
        ensures
            res.workspace == self.workspace,
            res.sandbox.same_as(self.sandbox),
            res.cancel_token.cell() == self.cancel_token.cell(),
            res.request_approval == self.request_approval,
    {
        ToolContext {
            workspace: self.workspace.clone(),
            sandbox: self.sandbox.clone(),
            cancel_token: self.cancel_token.clone(),
            request_approval: self.request_approval.clone(),
        }
    }
}

impl<A: ?Sized> ToolContext<A> {
    /// A context with the given fields.
    #[must_use]
    pub fn new(
        workspace: WorkspaceRef,
        sandbox: SandboxPolicy,
        cancel_token: CancelToken,
        request_approval: Arc<A>,
    ) -> (res: Self)
        ensures
            res == (ToolContext { workspace, sandbox, cancel_token, request_approval }),
    {
        Self { workspace, sandbox, cancel_token, request_approval }
    }
}

/// What a tool call returns.
#[derive(Debug, Clone, PartialEq)]
#[non_exhaustive]
pub struct ToolOutcome {
    /// One line for the user.
    pub summary: String,
    /// The value for the model.
    pub payload: serde_json::Value,
    /// What the home shell is asked to do, in order.
    pub effects: Vec<Effect>,
}

impl ToolOutcome {
    /// An outcome with the given fields.
    #[must_use]
    pub fn new(summary: &str, payload: serde_json::Value, effects: Vec<Effect>) -> (res: Self)
        ensures
            res.summary@ == summary@,
            res.payload == payload,
            res.effects == effects,
    {
        Self { summary: summary.to_owned(), payload, effects }
    }
}

/// What kind of thing went wrong in a tool call.
#[derive(Debug, Clone, Copy, PartialEq, Eq, Structural)]
#[non_exhaustive]
pub enum ToolErrorKind {
    /// The arguments do not fit the schema.
    InvalidArgs,
    /// The sandbox refused.
    SandboxBlocked,
    /// The call was cancelled.
    Cancelled,
    /// Reading or writing failed.
    Io,
    /// Anything else.
    Internal,
}

impl ToolErrorKind {
    /// The variant's name.
    pub open spec fn label(self) -> Seq<char> {
        match self {
            ToolErrorKind::InvalidArgs => "InvalidArgs"@,
            ToolErrorKind::SandboxBlocked => "SandboxBlocked"@,
            ToolErrorKind::Cancelled => "Cancelled"@,
            ToolErrorKind::Io => "Io"@,
            ToolErrorKind::Internal => "Internal"@,
        }
    }

    fn name(self) -> (res: &'static str)
        ensures
            res@ == self.label(),
    {
        match self {
            ToolErrorKind::InvalidArgs => "InvalidArgs",
            ToolErrorKind::SandboxBlocked => "SandboxBlocked",
            ToolErrorKind::Cancelled => "Cancelled",
            ToolErrorKind::Io => "Io",
            ToolErrorKind::Internal => "Internal",
        }
    }
}

/// Why a tool call failed.
#[derive(Debug, Clone, PartialEq, Eq)]
pub struct ToolError {
    /// The kind of failure.
    pub kind: ToolErrorKind,
    /// What happened.
    pub message: String,
}

impl ToolError {
    /// A failure of the given kind.
    #[must_use]
    pub fn new(kind: ToolErrorKind, message: &str) -> (res: Self)
        ensures
            res.kind == kind,
            res.message@ == message@,
    {
        Self { kind, message: message.to_owned() }
    }

    /// The arguments do not fit the schema.
    #[must_use]
    pub fn invalid_args(message: &str) -> (res: Self)
        ensures
            res.kind == ToolErrorKind::InvalidArgs,
            res.message@ == message@,
    {
        Self::new(ToolErrorKind::InvalidArgs, message)
    }

    /// The sandbox refused.
    #[must_use]
    pub fn sandbox_blocked(reason: &str) -> (res: Self)
        ensures
            res.kind == ToolErrorKind::SandboxBlocked,
            res.message@ == reason@,
    {
        Self::new(ToolErrorKind::SandboxBlocked, reason)
    }

    /// The call was cancelled.
    #[must_use]
    pub fn cancelled() -> (res: Self)
        ensures
            res.kind == ToolErrorKind::Cancelled,
            res.message@ == "tool execution cancelled"@,
    {
        Self::new(ToolErrorKind::Cancelled, "tool execution cancelled")
    }

    /// The message shown for the error: the kind, then what happened.
    pub fn to_string(&self) -> (res: String)
        ensures
            res@ == self.kind.label() + ": "@ + self.message@,
    {
        self.kind.name().to_owned().concat(": ").concat(self.message.as_str())
    }
}

} // verus!
