//! The sandbox: whether a read, a write, a terminal command or an outbound
//! connection is allowed, needs the user's approval, or is blocked.
//!
//! Decisions are read from [`SandboxPolicy::permissions`] and, for the network,
//! from the allowlist. A [`TrustMode`] only seeds the permissions; each of them
//! can be overridden on its own.

use std::path::Path;

use vstd::prelude::*;
use vstd::string::*;

use crate::numeral;
use crate::text;

pub use crate::tool::SafetyClass;

verus! {

/// When the user is asked before a tool call fires.
#[derive(Debug, Clone, Copy, PartialEq, Eq, Structural)]
pub enum ApprovalMode {
    /// Never.
    Never,
    /// Only for destructive calls.
    OnDestructive,
    /// For every call.
    Always,
}

/// How a sequence of tool calls runs.
#[derive(Debug, Clone, Copy, PartialEq, Eq, Structural)]
pub enum ExecutionStyle {
    /// Each call hands control back to the user.
    Interactive,
    /// Calls run back to back.
    Batched,
}

// ---------------------------------------------------------------------------
// Trust modes and permissions
// ---------------------------------------------------------------------------

/// How far the user trusts the assistant.
#[derive(Debug, Clone, Copy, PartialEq, Eq, Structural)]
pub enum TrustMode {
    /// Every call with side effects needs approval.
    Guarded,
    /// Reads and writes flow; terminal and network need approval.
    Fast,
    /// Everything is allowed.
    Yolo,
}

impl TrustMode {
    /// When the user is asked about calls of a class.
    pub open spec fn approval(self, class: SafetyClass) -> ApprovalMode {
        match self {
            TrustMode::Yolo => ApprovalMode::Never,
            TrustMode::Guarded => match class {
                SafetyClass::Safe => ApprovalMode::OnDestructive,
                SafetyClass::RequiresApproval => ApprovalMode::Always,
                SafetyClass::Destructive => ApprovalMode::Always,
            },
            TrustMode::Fast => match class {
                SafetyClass::Safe => ApprovalMode::Never,
                SafetyClass::RequiresApproval => ApprovalMode::OnDestructive,
                SafetyClass::Destructive => ApprovalMode::Always,
            },
        }
    }

    /// When the user is asked about calls of the given class.
    #[must_use]
    pub fn approval_for(self, safety_class: SafetyClass) -> (res: ApprovalMode)
        ensures
            res == self.approval(safety_class),
    {
        match (self, safety_class) {
            (TrustMode::Yolo, _) => ApprovalMode::Never,
            (TrustMode::Guarded, SafetyClass::Safe) => ApprovalMode::OnDestructive,
            (TrustMode::Guarded, _) => ApprovalMode::Always,
            (TrustMode::Fast, SafetyClass::Destructive) => ApprovalMode::Always,
            (TrustMode::Fast, SafetyClass::RequiresApproval) => ApprovalMode::OnDestructive,
            (TrustMode::Fast, SafetyClass::Safe) => ApprovalMode::Never,
        }
    }

    /// Whether calls hand control back to the user.
    #[must_use]
    pub fn execution_style(self) -> (res: ExecutionStyle)
        ensures
            res == if self == TrustMode::Guarded {
                ExecutionStyle::Interactive
            } else {
                ExecutionStyle::Batched
            },
    {
        match self {
            TrustMode::Guarded => ExecutionStyle::Interactive,
            TrustMode::Fast | TrustMode::Yolo => ExecutionStyle::Batched,
        }
    }

    /// Whether a built-in blocklist applies. There is none.
    #[must_use]
    pub fn enforces_blocklist(self) -> (res: bool)
        ensures
            !res,
    {
        false
    }
}

/// What happens to an operation of some kind.
#[derive(Debug, Clone, Copy, PartialEq, Eq, Structural)]
pub enum AccessLevel {
    /// It proceeds.
    Allow,
    /// The user is asked.
    RequireApproval,
    /// It is refused.
    Block,
}

/// The access level of each kind of operation.
#[derive(Debug, PartialEq, Eq, Structural)]
#[non_exhaustive]
pub struct PermissionPolicy {
    /// Filesystem reads.
    pub read: AccessLevel,
    /// Filesystem writes.
    pub write: AccessLevel,
    /// Terminal commands.
    pub terminal: AccessLevel,
    /// Outbound connections that the allowlist does not cover.
    pub network: AccessLevel,
}

impl Clone for PermissionPolicy {
    fn clone(&self) -> (res: Self)
        ensures
            res == *self,
    {
        PermissionPolicy {
            read: self.read,
            write: self.write,
            terminal: self.terminal,
            network: self.network,
        }
    }
}

impl PermissionPolicy {
    /// The permissions that a trust mode stands for.
    pub open spec fn of_mode(mode: TrustMode) -> PermissionPolicy {
        PermissionPolicy {
            read: AccessLevel::Allow,
            write: if mode == TrustMode::Guarded {
                AccessLevel::RequireApproval
            } else {
                AccessLevel::Allow
            },
            terminal: if mode == TrustMode::Yolo {
                AccessLevel::Allow
            } else {
                AccessLevel::RequireApproval
            },
            network: if mode == TrustMode::Yolo {
                AccessLevel::Allow
            } else {
                AccessLevel::RequireApproval
            },
        }
    }

    /// The permissions that a trust mode stands for.
    #[must_use]
    pub fn from_trust_mode(mode: TrustMode) -> (res: Self)
        ensures
            res == PermissionPolicy::of_mode(mode),
    {
        match mode {
            TrustMode::Guarded => Self {
                read: AccessLevel::Allow,
                write: AccessLevel::RequireApproval,
                terminal: AccessLevel::RequireApproval,
                network: AccessLevel::RequireApproval,
            },
            TrustMode::Fast => Self {
                read: AccessLevel::Allow,
                write: AccessLevel::Allow,
                terminal: AccessLevel::RequireApproval,
                network: AccessLevel::RequireApproval,
            },
            TrustMode::Yolo => Self {
                read: AccessLevel::Allow,
                write: AccessLevel::Allow,
                terminal: AccessLevel::Allow,
                network: AccessLevel::Allow,
            },
        }
    }

    /// The given access levels.
    #[must_use]
    pub fn new(
        read: AccessLevel,
        write: AccessLevel,
        terminal: AccessLevel,
        network: AccessLevel,
    ) -> (res: Self)
        ensures
            res == (PermissionPolicy { read, write, terminal, network }),
    {
        Self { read, write, terminal, network }
    }
}

// ---------------------------------------------------------------------------
// Network patterns
// ---------------------------------------------------------------------------

/// Which hosts a pattern covers.
#[derive(Debug, PartialEq, Eq)]
pub enum HostPattern {
    /// `*`: every host.
    Any,
    /// `*.suffix`: the strict subdomains of the suffix.
    Suffix(String),
    /// One host.
    Exact(String),
}

impl Clone for HostPattern {
    fn clone(&self) -> (res: Self)
        ensures
            res == *self,
    {
        match self {
            HostPattern::Any => HostPattern::Any,
            HostPattern::Suffix(s) => HostPattern::Suffix(s.clone()),
            HostPattern::Exact(s) => HostPattern::Exact(s.clone()),
        }
    }
}

/// A [`HostPattern`] as text.
pub enum HostPatternView {
    Any,
    Suffix(Seq<char>),
    Exact(Seq<char>),
}

impl View for HostPattern {
    type V = HostPatternView;

    open spec fn view(&self) -> HostPatternView {
        match *self {
            HostPattern::Any => HostPatternView::Any,
            HostPattern::Suffix(s) => HostPatternView::Suffix(s@),
            HostPattern::Exact(s) => HostPatternView::Exact(s@),
        }
    }
}

impl HostPatternView {
    /// Whether the pattern covers `host`.
    pub open spec fn covers(self, host: Seq<char>) -> bool {
        match self {
            HostPatternView::Any => true,
            HostPatternView::Exact(h) => h == host,
            HostPatternView::Suffix(suffix) => text::ends(host, seq!['.'] + suffix) && host.len()
                > suffix.len() + 1,
        }
    }
}

/// Which ports a pattern covers.
#[derive(Debug, Clone, Copy, PartialEq, Eq, Structural)]
pub enum PortPattern {
    /// `*`: every port.
    Any,
    /// One port.
    Exact(u16),
}

impl PortPattern {
    /// Whether the pattern covers `port`.
    pub open spec fn covers(self, port: u16) -> bool {
        match self {
            PortPattern::Any => true,
            PortPattern::Exact(p) => p == port,
        }
    }
}

/// An entry of the network allowlist, written `host` or `host:port`.
#[derive(Debug, PartialEq, Eq)]
#[non_exhaustive]
pub struct NetworkPattern {
    /// The hosts.
    pub host: HostPattern,
    /// The ports.
    pub port: PortPattern,
}

impl Clone for NetworkPattern {
    fn clone(&self) -> (res: Self)
        ensures
            res == *self,
    {
        NetworkPattern { host: self.host.clone(), port: self.port }
    }
}

/// A [`NetworkPattern`] as text.
pub struct NetworkPatternView {
    pub host: HostPatternView,
    pub port: PortPattern,
}

impl View for NetworkPattern {
    type V = NetworkPatternView;

    open spec fn view(&self) -> NetworkPatternView {
        NetworkPatternView { host: self.host@, port: self.port }
    }
}

impl NetworkPatternView {
    /// Whether the pattern covers `host` and `port`.
    pub open spec fn covers(self, host: Seq<char>, port: u16) -> bool {
        self.host.covers(host) && self.port.covers(port)
    }
}

/// Why a text is no network pattern.
#[derive(Debug, Clone, PartialEq, Eq)]
pub struct NetworkPatternParseError {
    raw: String,
    reason: &'static str,
}

/// A [`NetworkPatternParseError`] as text.
pub struct NetworkPatternParseErrorView {
    /// The text as given.
    pub raw: Seq<char>,
    /// What is wrong with it.
    pub reason: Seq<char>,
}

impl View for NetworkPatternParseError {
    type V = NetworkPatternParseErrorView;

    closed spec fn view(&self) -> NetworkPatternParseErrorView {
        NetworkPatternParseErrorView { raw: self.raw@, reason: self.reason@ }
    }
}

impl NetworkPatternParseError {
    /// The message shown for the error.
    pub fn to_string(&self) -> (res: String)
        ensures
            res@ == "invalid network pattern "@ + text::debug_quoted(self@.raw) + ": "@
                + self@.reason,
    {
        "invalid network pattern ".to_owned().concat(
            text::debug_text(self.raw.as_str()).as_str(),
        ).concat(": ").concat(self.reason)
    }
}

/// The host and port parts of a written pattern: what stands before and after
/// the last `:`. Without one, the port is `*`.
pub open spec fn pattern_parts(pattern: Seq<char>) -> (Seq<char>, Seq<char>) {
    match text::cut_last(pattern, ':') {
        Some((host, port)) => (host, port),
        None => (pattern, "*"@),
    }
}

/// The host pattern that a text writes, or what is wrong with it.
pub open spec fn host_from(host: Seq<char>) -> Result<HostPatternView, Seq<char>> {
    if host == "*"@ {
        Ok(HostPatternView::Any)
    } else if text::begins(host, "*."@) {
        if host.len() == 2 {
            Err("empty suffix after `*.`"@)
        } else {
            Ok(HostPatternView::Suffix(host.skip(2)))
        }
    } else if host.len() == 0 {
        Err("empty host"@)
    } else {
        Ok(HostPatternView::Exact(host))
    }
}

/// The port pattern that a text writes, or what is wrong with it.
pub open spec fn port_from(port: Seq<char>) -> Result<PortPattern, Seq<char>> {
    if port == "*"@ {
        Ok(PortPattern::Any)
    } else {
        match numeral::bounded_value(port, 10, 65535) {
            Some(n) => Ok(PortPattern::Exact(n as u16)),
            None => Err("port is not a u16"@),
        }
    }
}

/// The pattern that a text writes, or why it writes none.
pub open spec fn pattern_from(pattern: Seq<char>) -> Result<
    NetworkPatternView,
    NetworkPatternParseErrorView,
> {
    let (host, port) = pattern_parts(pattern);
    match host_from(host) {
        Err(reason) => Err(NetworkPatternParseErrorView { raw: pattern, reason }),
        Ok(host) => match port_from(port) {
            Err(reason) => Err(NetworkPatternParseErrorView { raw: pattern, reason }),
            Ok(port) => Ok(NetworkPatternView { host, port }),
        },
    }
}

impl NetworkPattern {
    /// The pattern with the given hosts and ports.
    #[must_use]
    pub fn new(host: HostPattern, port: PortPattern) -> (res: Self)
        ensures
            res == (NetworkPattern { host, port }),
    {
        Self { host, port }
    }

    /// Reads a pattern.
    pub fn parse(pattern: &str) -> (res: Result<Self, NetworkPatternParseError>)
        ensures
            match res {
                Ok(p) => pattern_from(pattern@) == Ok::<_, NetworkPatternParseErrorView>(p@),
                Err(e) => pattern_from(pattern@) == Err::<NetworkPatternView, _>(e@),
            },
    {
        let chars = text::chars_of(pattern);
        let (host_chars, port_chars) = match text::cut_at_last(&chars, ':') {
            Some((h, p)) => (h, p),
            None => (chars, text::chars_of("*")),
        };
        assert(pattern_parts(pattern@) == (host_chars@, port_chars@));
        proof {
            reveal_strlit("*.");
        }
        let host = if text::spells(&host_chars, "*") {
            HostPattern::Any
        } else if text::begins_with(&host_chars, "*.") {
            if host_chars.len() == 2 {
                return Err(
                    NetworkPatternParseError {
                        raw: pattern.to_owned(),
                        reason: "empty suffix after `*.`",
                    },
                );
            }
            let suffix = text::slice_of(&host_chars, 2, host_chars.len());
            assert(suffix@ =~= host_chars@.skip(2));
            HostPattern::Suffix(text::string_of(&suffix))
        } else if host_chars.len() == 0 {
            return Err(
                NetworkPatternParseError { raw: pattern.to_owned(), reason: "empty host" },
            );
        } else {
            HostPattern::Exact(text::string_of(&host_chars))
        };
        assert(host_from(host_chars@) == Ok::<_, Seq<char>>(host@));
        let port = if text::spells(&port_chars, "*") {
            PortPattern::Any
        } else {
            match numeral::parse_unsigned(&port_chars, 10, 65535) {
                Some(n) => PortPattern::Exact(n as u16),
                None => {
                    return Err(
                        NetworkPatternParseError {
                            raw: pattern.to_owned(),
                            reason: "port is not a u16",
                        },
                    );
                },
            }
        };
        Ok(Self { host, port })
    }

    /// Whether the pattern covers `host` and `port`.
    #[must_use]
    pub fn matches(&self, host: &str, port: u16) -> (res: bool)
        ensures
            res == self@.covers(host@, port),
    {
        let host_ok = match &self.host {
            HostPattern::Any => true,
            HostPattern::Exact(h) => text::same_text(h.as_str(), host),
            HostPattern::Suffix(suffix) => {
                let chars = text::chars_of(host);
                let needle = ".".to_owned().concat(suffix.as_str());
                proof {
                    reveal_strlit(".");
                    assert(needle@ =~= seq!['.'] + suffix@);
                }
                text::ends_with(&chars, needle.as_str()) && chars.len() > text::chars_of(
                    needle.as_str(),
                ).len()
            },
        };
        let port_ok = match self.port {
            PortPattern::Any => true,
            PortPattern::Exact(p) => p == port,
        };
        host_ok && port_ok
    }
}

// ---------------------------------------------------------------------------
// Environment variables
// ---------------------------------------------------------------------------

/// The name of an environment variable.
#[derive(Debug, PartialEq, Eq, Hash)]
pub struct EnvVarName(String);

impl Clone for EnvVarName {
    fn clone(&self) -> (res: Self)
        ensures
            res == *self,
    {
        EnvVarName(self.0.clone())
    }
}

impl EnvVarName {
    /// The name as text.
    pub closed spec fn text(self) -> Seq<char> {
        self.0@
    }

    /// The given name.
    #[must_use]
    pub fn new(name: &str) -> (res: Self)
        ensures
            res.text() == name@,
    {
        Self(name.to_owned())
    }

    /// The name as text.
    #[must_use]
    pub fn as_str(&self) -> (res: &str)
        ensures
            res@ == self.text(),
    {
        self.0.as_str()
    }
}

/// What happens to an environment variable when a child process starts.
#[derive(Debug, PartialEq, Eq)]
pub enum EnvAction {
    /// It is passed on.
    Allow(EnvVarName),
    /// It is withheld.
    Block(EnvVarName),
    /// The user is asked.
    Prompt(EnvVarName),
}

impl Clone for EnvAction {
    fn clone(&self) -> (res: Self)
        ensures
            res == *self,
    {
        match self {
            EnvAction::Allow(name) => EnvAction::Allow(name.clone()),
            EnvAction::Block(name) => EnvAction::Block(name.clone()),
            EnvAction::Prompt(name) => EnvAction::Prompt(name.clone()),
        }
    }
}

// ---------------------------------------------------------------------------
// Decisions
// ---------------------------------------------------------------------------

/// What the user is told when asked for approval.
#[derive(Debug, Clone, PartialEq, Eq)]
#[non_exhaustive]
pub struct ApprovalReason {
    /// One line.
    pub summary: String,
    /// More, for the expanded view.
    pub detail: Option<String>,
}

/// An [`ApprovalReason`] as text.
pub struct ApprovalReasonView {
    pub summary: Seq<char>,
    pub detail: Option<Seq<char>>,
}

impl View for ApprovalReason {
    type V = ApprovalReasonView;

    open spec fn view(&self) -> ApprovalReasonView {
        ApprovalReasonView { summary: self.summary@, detail: text::optional(self.detail) }
    }
}

impl ApprovalReason {
    /// A reason with a summary only.
    #[must_use]
    pub fn new(summary: &str) -> (res: Self)
        ensures
            res@ == (ApprovalReasonView { summary: summary@, detail: None }),
    {
        Self { summary: summary.to_owned(), detail: None }
    }

    /// A reason with a summary and a detail.
    #[must_use]
    pub fn with_detail(summary: &str, detail: &str) -> (res: Self)
        ensures
            res@ == (ApprovalReasonView { summary: summary@, detail: Some(detail@) }),
    {
        Self { summary: summary.to_owned(), detail: Some(detail.to_owned()) }
    }
}

/// What the sandbox decides about an operation.
#[derive(Debug, Clone, PartialEq, Eq)]
pub enum SandboxDecision {
    /// It proceeds.
    Allow,
    /// The user is asked, with this reason.
    RequireApproval(ApprovalReason),
    /// It is refused, for this reason.
    Block(String),
}

/// A [`SandboxDecision`] as text.
pub enum SandboxDecisionView {
    Allow,
    RequireApproval(ApprovalReasonView),
    Block(Seq<char>),
}

impl View for SandboxDecision {
    type V = SandboxDecisionView;

    open spec fn view(&self) -> SandboxDecisionView {
        match *self {
            SandboxDecision::Allow => SandboxDecisionView::Allow,
            SandboxDecision::RequireApproval(reason) => SandboxDecisionView::RequireApproval(
                reason@,
            ),
            SandboxDecision::Block(reason) => SandboxDecisionView::Block(reason@),
        }
    }
}

impl SandboxDecision {
    /// Whether the operation proceeds.
    #[must_use]
    pub fn is_allow(&self) -> (res: bool)
        ensures
            res == (self@ == SandboxDecisionView::Allow),
    {
        match self {
            SandboxDecision::Allow => true,
            _ => false,
        }
    }
}

/// A kind of operation.
#[derive(Debug, Clone, Copy, PartialEq, Eq, Structural)]
pub enum Operation {
    Read,
    Write,
    Terminal,
    Network,
}

impl Operation {
    /// The name in refusals and details.
    pub open spec fn long_name(self) -> Seq<char> {
        match self {
            Operation::Read => "filesystem read"@,
            Operation::Write => "filesystem write"@,
            Operation::Terminal => "terminal command"@,
            Operation::Network => "network access"@,
        }
    }

    /// The name in summaries.
    pub open spec fn short_name(self) -> Seq<char> {
        match self {
            Operation::Read => "read"@,
            Operation::Write => "write"@,
            Operation::Terminal => "terminal"@,
            Operation::Network => "network"@,
        }
    }

    fn label(self) -> (res: &'static str)
        ensures
            res@ == self.long_name(),
    {
        match self {
            Operation::Read => "filesystem read",
            Operation::Write => "filesystem write",
            Operation::Terminal => "terminal command",
            Operation::Network => "network access",
        }
    }

    fn short(self) -> (res: &'static str)
        ensures
            res@ == self.short_name(),
    {
        match self {
            Operation::Read => "read",
            Operation::Write => "write",
            Operation::Terminal => "terminal",
            Operation::Network => "network",
        }
    }
}

/// The decision that an access level stands for.
pub open spec fn decision_at(level: AccessLevel, op: Operation) -> SandboxDecisionView {
    match level {
        AccessLevel::Allow => SandboxDecisionView::Allow,
        AccessLevel::RequireApproval => SandboxDecisionView::RequireApproval(
            ApprovalReasonView {
                summary: "approval required for "@ + op.short_name(),
                detail: Some("policy gates "@ + op.long_name() + " on user confirmation"@),
            },
        ),
        AccessLevel::Block => SandboxDecisionView::Block(
            op.long_name() + " blocked by sandbox policy"@,
        ),
    }
}

fn access_decision(level: AccessLevel, op: Operation) -> (res: SandboxDecision)
    ensures
        res@ == decision_at(level, op),
{
    match level {
        AccessLevel::Allow => SandboxDecision::Allow,
        AccessLevel::RequireApproval => {
            let summary = "approval required for ".to_owned().concat(op.short());
            let detail = "policy gates ".to_owned().concat(op.label()).concat(
                " on user confirmation",
            );
            SandboxDecision::RequireApproval(
                ApprovalReason::with_detail(summary.as_str(), detail.as_str()),
            )
        },
        AccessLevel::Block => SandboxDecision::Block(
            op.label().to_owned().concat(" blocked by sandbox policy"),
        ),
    }
}

// ---------------------------------------------------------------------------
// Policies
// ---------------------------------------------------------------------------

/// The policy that a workspace runs under.
#[derive(Debug, PartialEq, Eq)]
#[non_exhaustive]
pub struct SandboxPolicy {
    /// The user's last choice, kept for display.
    pub trust_mode: TrustMode,
    /// What decides about operations.
    pub permissions: PermissionPolicy,
    /// Connections that are allowed whatever the permissions say.
    pub network_allowlist: Vec<NetworkPattern>,
    /// What happens to environment variables.
    pub env_actions: Vec<EnvAction>,
}

impl SandboxPolicy {
    /// Whether two policies have the same contents.
    pub open spec fn same_as(self, other: SandboxPolicy) -> bool {
        &&& self.trust_mode == other.trust_mode
        &&& self.permissions == other.permissions
        &&& self.network_allowlist@ == other.network_allowlist@
        &&& self.env_actions@ == other.env_actions@
    }
}

impl Clone for SandboxPolicy {
    fn clone(&self) -> (res: Self)
        ensures
            res.same_as(*self),
    {
        let network_allowlist = self.network_allowlist.clone();
        let env_actions = self.env_actions.clone();
        assert(network_allowlist@ =~= self.network_allowlist@);
        assert(env_actions@ =~= self.env_actions@);
        SandboxPolicy {
            trust_mode: self.trust_mode,
            permissions: self.permissions.clone(),
            network_allowlist,
            env_actions,
        }
    }
}

impl SandboxPolicy {
    /// The policy that a trust mode stands for, without an allowlist and without
    /// environment actions.
    #[must_use]
    pub fn with_trust_mode(trust_mode: TrustMode) -> (res: Self)
        ensures
            res.trust_mode == trust_mode,
            res.permissions == PermissionPolicy::of_mode(trust_mode),
            res.network_allowlist@.len() == 0,
            res.env_actions@.len() == 0,
    {
        Self {
            trust_mode,
            permissions: PermissionPolicy::from_trust_mode(trust_mode),
            network_allowlist: Vec::new(),
            env_actions: Vec::new(),
        }
    }

    /// The policy with the given fields.
    #[must_use]
    pub fn new(
        trust_mode: TrustMode,
        permissions: PermissionPolicy,
        network_allowlist: Vec<NetworkPattern>,
        env_actions: Vec<EnvAction>,
    ) -> (res: Self)
        ensures
            res == (SandboxPolicy { trust_mode, permissions, network_allowlist, env_actions }),
    {
        Self { trust_mode, permissions, network_allowlist, env_actions }
    }

    /// Decides about a filesystem read. The path plays no part yet.
    #[must_use]
    pub fn check_read(&self, _path: &Path) -> (res: SandboxDecision)
        ensures
            res@ == decision_at(self.permissions.read, Operation::Read),
    {
        access_decision(self.permissions.read, Operation::Read)
    }

    /// Decides about a filesystem write. The path plays no part yet.
    #[must_use]
    pub fn check_write(&self, _path: &Path) -> (res: SandboxDecision)
        ensures
            res@ == decision_at(self.permissions.write, Operation::Write),
    {
        access_decision(self.permissions.write, Operation::Write)
    }

    /// Decides about a terminal command. The command plays no part yet.
    #[must_use]
    pub fn check_terminal(&self, _command: &str) -> (res: SandboxDecision)
        ensures
            res@ == decision_at(self.permissions.terminal, Operation::Terminal),
    {
        access_decision(self.permissions.terminal, Operation::Terminal)
    }

    /// Whether the allowlist covers a connection.
    pub open spec fn allowlisted(self, host: Seq<char>, port: u16) -> bool {
        exists|i: int|
            0 <= i < self.network_allowlist@.len() && (#[trigger] self.network_allowlist@[i])@.covers(
                host,
                port,
            )
    }

    /// What the policy decides about a connection.
    pub open spec fn network_decision(self, host: Seq<char>, port: u16) -> SandboxDecisionView {
        if self.allowlisted(host, port) {
            SandboxDecisionView::Allow
        } else {
            decision_at(self.permissions.network, Operation::Network)
        }
    }

    /// Decides about an outbound connection.
    #[must_use]
    pub fn check_network(&self, host: &str, port: u16) -> (res: SandboxDecision)
        ensures
            res@ == self.network_decision(host@, port),
    {
        for i in 0..self.network_allowlist.len()
            invariant
                forall|j: int|
                    0 <= j < i ==> !(#[trigger] self.network_allowlist@[j])@.covers(host@, port),
        {
            if self.network_allowlist[i].matches(host, port) {
                return SandboxDecision::Allow;
            }
        }
        access_decision(self.permissions.network, Operation::Network)
    }
}

// ---------------------------------------------------------------------------
// Laws
// ---------------------------------------------------------------------------

/// A connection that the allowlist covers is allowed, whatever the trust mode
/// and the permissions say.
pub proof fn law_allowlist_wins(policy: SandboxPolicy, host: Seq<char>, port: u16, i: int)
    requires
        0 <= i < policy.network_allowlist@.len(),
        policy.network_allowlist@[i]@.covers(host, port),
    ensures
        policy.network_decision(host, port) == SandboxDecisionView::Allow,
{
}

/// A suffix pattern covers strict subdomains only, never the suffix itself.
pub proof fn law_suffix_is_strict(suffix: Seq<char>, port: PortPattern, at: u16)
    ensures
        !(NetworkPatternView { host: HostPatternView::Suffix(suffix), port }).covers(suffix, at),
{
}

/// A suffix pattern covers every name that puts something and a dot before the
/// suffix.
pub proof fn law_suffix_covers_subdomains(name: Seq<char>, suffix: Seq<char>)
    requires
        name.len() > 0,
    ensures
        HostPatternView::Suffix(suffix).covers(name + seq!['.'] + suffix),
{
    let host = name + seq!['.'] + suffix;
    assert(host.skip(name.len() as int) =~= seq!['.'] + suffix);
}

/// A pattern written without a port covers every port.
pub proof fn law_missing_port_is_any(pattern: Seq<char>)
    requires
        !pattern.contains(':'),
        pattern_from(pattern) is Ok,
    ensures
        (pattern_from(pattern)->Ok_0).port == PortPattern::Any,
{
    text::lemma_cut_last_absent(pattern, ':');
}

/// The decisions of a policy depend on its permissions and its allowlist alone,
/// not on its trust mode.
pub proof fn law_permissions_decide(a: SandboxPolicy, b: SandboxPolicy, host: Seq<char>, port: u16)
    requires
        a.permissions == b.permissions,
        a.network_allowlist@ == b.network_allowlist@,
    ensures
        a.network_decision(host, port) == b.network_decision(host, port),
        decision_at(a.permissions.read, Operation::Read) == decision_at(
            b.permissions.read,
            Operation::Read,
        ),
        decision_at(a.permissions.write, Operation::Write) == decision_at(
            b.permissions.write,
            Operation::Write,
        ),
        decision_at(a.permissions.terminal, Operation::Terminal) == decision_at(
            b.permissions.terminal,
            Operation::Terminal,
        ),
{
}

/// Under the permissions of [`TrustMode::Yolo`] everything is allowed, and no
/// approval is asked for.
pub proof fn law_yolo_allows_everything(policy: SandboxPolicy, host: Seq<char>, port: u16)
    requires
        policy.permissions == PermissionPolicy::of_mode(TrustMode::Yolo),
    ensures
        decision_at(policy.permissions.read, Operation::Read) == SandboxDecisionView::Allow,
        decision_at(policy.permissions.write, Operation::Write) == SandboxDecisionView::Allow,
        decision_at(policy.permissions.terminal, Operation::Terminal) == SandboxDecisionView::Allow,
        policy.network_decision(host, port) == SandboxDecisionView::Allow,
        forall|class: SafetyClass|
            #[trigger] TrustMode::Yolo.approval(class) == ApprovalMode::Never,
{
}

} // verus!
