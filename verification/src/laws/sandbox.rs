//! What holds of the sandbox.

use std::path::Path;

use vstd::prelude::*;
use vstd::string::*;

use crate::numeral;
use crate::sandbox::{
    AccessLevel, ApprovalMode, EnvAction, ExecutionStyle, HostPattern, NetworkPattern,
    NetworkPatternParseError, Operation, PermissionPolicy, PortPattern, SafetyClass,
    SandboxDecision, SandboxPolicy, TrustMode,
};
use crate::text;

verus! {

// ---------------------------------------------------------------------------
// Approval
// ---------------------------------------------------------------------------

/// How often a mode of approval asks: for no call, for some, for all.
pub open spec fn strictness(mode: ApprovalMode) -> int {
    if mode is Always {
        2
    } else if mode is OnDestructive {
        1
    } else {
        0
    }
}

/// How dangerous a class is.
pub open spec fn danger(class: SafetyClass) -> int {
    if class is Destructive {
        2
    } else if class is RequiresApproval {
        1
    } else {
        0
    }
}

/// How far a mode trusts.
pub open spec fn trust(mode: TrustMode) -> int {
    if mode is Yolo {
        2
    } else if mode is Fast {
        1
    } else {
        0
    }
}

/// Only under full trust does a destructive call fire without the user being asked;
/// under full trust every call does. A call that needs approval is never waved through
/// under less. A call without side effects is never asked about as such.
pub proof fn law_destructive_calls_are_asked_about(
    mode: TrustMode,
    class: SafetyClass,
    res: ApprovalMode,
)
    requires
        call_ensures(TrustMode::approval_for, (mode, class), res),
    ensures
        mode is Yolo ==> res is Never,
        class is Destructive && !(mode is Yolo) ==> res is Always,
        class is RequiresApproval && !(mode is Yolo) ==> !(res is Never),
        class is RequiresApproval && mode is Guarded ==> res is Always,
        class is Safe ==> !(res is Always),
{
}

/// Approval never gets weaker as calls get more dangerous, nor as trust gets less. Short
/// of full trust the fast mode tells every class apart, and the guarded mode is stricter
/// than it on all but destructive calls.
pub proof fn law_approval_grows_with_danger(
    mode: TrustMode,
    other_mode: TrustMode,
    class: SafetyClass,
    other_class: SafetyClass,
    res: ApprovalMode,
    other_res: ApprovalMode,
)
    requires
        call_ensures(TrustMode::approval_for, (mode, class), res),
        call_ensures(TrustMode::approval_for, (other_mode, other_class), other_res),
    ensures
        mode == other_mode && danger(class) <= danger(other_class) ==> strictness(res)
            <= strictness(other_res),
        class == other_class && trust(mode) <= trust(other_mode) ==> strictness(res) >= strictness(
            other_res,
        ),
        mode is Fast && other_mode is Fast && danger(class) < danger(other_class) ==> strictness(
            res,
        ) < strictness(other_res),
        mode is Guarded && other_mode is Fast && class == other_class && !(class is Destructive)
            ==> strictness(res) > strictness(other_res),
{
}

/// Only the guarded mode hands control back after each call, and no mode has a blocklist.
pub proof fn law_guarded_mode_is_interactive(mode: TrustMode, style: ExecutionStyle, blocks: bool)
    requires
        call_ensures(TrustMode::execution_style, (mode,), style),
        call_ensures(TrustMode::enforces_blocklist, (mode,), blocks),
    ensures
        style is Interactive <==> mode is Guarded,
        style is Batched <==> trust(mode) > 0,
        !blocks,
{
}

// ---------------------------------------------------------------------------
// Permissions
// ---------------------------------------------------------------------------

/// How much an access level holds back.
pub open spec fn restraint(level: AccessLevel) -> int {
    if level is Block {
        2
    } else if level is RequireApproval {
        1
    } else {
        0
    }
}

/// A trust mode blocks nothing and lets reads flow. Writes need approval in the guarded
/// mode alone; terminal commands and connections in every mode short of full trust. So
/// more trust never holds back more.
pub proof fn law_more_trust_holds_back_less(
    mode: TrustMode,
    more: TrustMode,
    policy: PermissionPolicy,
    looser: PermissionPolicy,
)
    requires
        call_ensures(PermissionPolicy::from_trust_mode, (mode,), policy),
        call_ensures(PermissionPolicy::from_trust_mode, (more,), looser),
    ensures
        policy.read is Allow,
        policy.write is Allow <==> !(mode is Guarded),
        policy.terminal is Allow <==> mode is Yolo,
        policy.network is Allow <==> mode is Yolo,
        restraint(policy.write) < 2 && restraint(policy.terminal) < 2 && restraint(policy.network)
            < 2,
        trust(mode) <= trust(more) ==> {
            &&& restraint(looser.read) <= restraint(policy.read)
            &&& restraint(looser.write) <= restraint(policy.write)
            &&& restraint(looser.terminal) <= restraint(policy.terminal)
            &&& restraint(looser.network) <= restraint(policy.network)
        },
{
}

/// Choosing a trust mode sets the permissions that the mode stands for, and allows or
/// withholds nothing else.
pub proof fn law_policy_is_seeded_by_its_mode(
    mode: TrustMode,
    policy: SandboxPolicy,
    permissions: PermissionPolicy,
)
    requires
        call_ensures(SandboxPolicy::with_trust_mode, (mode,), policy),
        call_ensures(PermissionPolicy::from_trust_mode, (mode,), permissions),
    ensures
        policy.trust_mode == mode,
        policy.permissions == permissions,
        policy.network_allowlist@ == Seq::<NetworkPattern>::empty(),
        policy.env_actions@.len() == 0,
{
}

// ---------------------------------------------------------------------------
// Decisions
// ---------------------------------------------------------------------------

/// Whether `part` stands somewhere in `s`.
pub open spec fn mentions(s: Seq<char>, part: Seq<char>) -> bool {
    exists|before: Seq<char>, after: Seq<char>| s == #[trigger] (before + part + after)
}

/// Whether a decision is what a level stands for, and tells the user of the operation by
/// name where it does not just let it through.
pub open spec fn decides(decision: SandboxDecision, level: AccessLevel, name: Seq<char>) -> bool {
    match decision {
        SandboxDecision::Allow => level is Allow,
        SandboxDecision::RequireApproval(reason) => {
            &&& level is RequireApproval
            &&& mentions(reason.summary@, name)
        },
        SandboxDecision::Block(reason) => level is Block && mentions(reason@, name),
    }
}

proof fn lemma_mentions(before: Seq<char>, part: Seq<char>, after: Seq<char>)
    ensures
        mentions(before + part + after, part),
{
}

proof fn lemma_decision_names(op: Operation)
    ensures
        mentions("approval required for "@ + op.short_name(), op.short_name()),
        mentions(op.long_name() + " blocked by sandbox policy"@, op.short_name()),
{
    let none = Seq::<char>::empty();
    let name = op.short_name();
    lemma_mentions("approval required for "@, name, none);
    assert("approval required for "@ + name + none =~= "approval required for "@ + name);
    let tail = " blocked by sandbox policy"@;
    let (before, after) = lemma_long_name(op);
    lemma_mentions(before, name, after + tail);
    assert(before + name + (after + tail) =~= op.long_name() + tail);
}

/// The long name of an operation holds the short one.
proof fn lemma_long_name(op: Operation) -> (around: (Seq<char>, Seq<char>))
    ensures
        op.long_name() == around.0 + op.short_name() + around.1,
{
    let none = Seq::<char>::empty();
    match op {
        Operation::Read => {
            reveal_strlit("filesystem read");
            reveal_strlit("filesystem ");
            reveal_strlit("read");
            assert("filesystem read"@ =~= "filesystem "@ + "read"@ + none);
            ("filesystem "@, none)
        },
        Operation::Write => {
            reveal_strlit("filesystem write");
            reveal_strlit("filesystem ");
            reveal_strlit("write");
            assert("filesystem write"@ =~= "filesystem "@ + "write"@ + none);
            ("filesystem "@, none)
        },
        Operation::Terminal => {
            reveal_strlit("terminal command");
            reveal_strlit("terminal");
            reveal_strlit(" command");
            assert("terminal command"@ =~= none + "terminal"@ + " command"@);
            (none, " command"@)
        },
        Operation::Network => {
            reveal_strlit("network access");
            reveal_strlit("network");
            reveal_strlit(" access");
            assert("network access"@ =~= none + "network"@ + " access"@);
            (none, " access"@)
        },
    }
}

/// A read is decided by the permission for reads, a write by that for writes, a command by
/// that for the terminal, and what the user is told names the operation. Neither the trust
/// mode nor any other permission has a say.
pub proof fn law_own_permission_decides(
    policy: SandboxPolicy,
    path: &Path,
    command: &str,
    read: SandboxDecision,
    write: SandboxDecision,
    terminal: SandboxDecision,
)
    requires
        call_ensures(SandboxPolicy::check_read, (&policy, path), read),
        call_ensures(SandboxPolicy::check_write, (&policy, path), write),
        call_ensures(SandboxPolicy::check_terminal, (&policy, command), terminal),
    ensures
        decides(read, policy.permissions.read, "read"@),
        decides(write, policy.permissions.write, "write"@),
        decides(terminal, policy.permissions.terminal, "terminal"@),
{
    lemma_decision_names(Operation::Read);
    lemma_decision_names(Operation::Write);
    lemma_decision_names(Operation::Terminal);
}

/// A connection is allowed where some entry of the allowlist matches it, whatever the
/// permissions say; otherwise the permission for the network decides.
pub proof fn law_allowlist_comes_before_permission(
    policy: SandboxPolicy,
    host: &str,
    port: u16,
    decision: SandboxDecision,
    matched: Seq<bool>,
)
    requires
        call_ensures(SandboxPolicy::check_network, (&policy, host, port), decision),
        matched.len() == policy.network_allowlist@.len(),
        forall|i: int|
            0 <= i < matched.len() ==> call_ensures(
                NetworkPattern::matches,
                (&policy.network_allowlist@[i], host, port),
                #[trigger] matched[i],
            ),
    ensures
        matched.contains(true) ==> decision is Allow,
        !matched.contains(true) ==> decides(decision, policy.permissions.network, "network"@),
{
    lemma_decision_names(Operation::Network);
    assert forall|i: int| 0 <= i < matched.len() implies #[trigger] matched[i]
        == policy.network_allowlist@[i]@.covers(host@, port) by {}
    if policy.allowlisted(host@, port) {
        let i = choose|i: int|
            0 <= i < policy.network_allowlist@.len() && (
            #[trigger] policy.network_allowlist@[i])@.covers(host@, port);
        assert(matched[i]);
    }
}

/// The predicate on decisions tells whether the operation proceeds.
pub proof fn law_is_allow_means_it_proceeds(decision: SandboxDecision, res: bool)
    requires
        call_ensures(SandboxDecision::is_allow, (&decision,), res),
    ensures
        res <==> decision is Allow,
{
}

// ---------------------------------------------------------------------------
// Network patterns
// ---------------------------------------------------------------------------

/// An exact host covers itself alone, a suffix every name that ends in a dot and the
/// suffix and has something before it, `*` every host. An exact port covers itself alone.
/// Host and port must both be covered.
pub proof fn law_pattern_covers_what_it_says(
    pattern: NetworkPattern,
    host: &str,
    port: u16,
    res: bool,
)
    requires
        call_ensures(NetworkPattern::matches, (&pattern, host, port), res),
    ensures
        ({
            let host_ok = match pattern.host {
                HostPattern::Any => true,
                HostPattern::Exact(h) => h@ == host@,
                HostPattern::Suffix(suffix) => exists|name: Seq<char>|
                    name.len() > 0 && host@ == #[trigger] (name + seq!['.']) + suffix@,
            };
            let port_ok = pattern.port is Any || pattern.port == PortPattern::Exact(port);
            res <==> host_ok && port_ok
        }),
{
    if let HostPattern::Suffix(suffix) = pattern.host {
        let needle = seq!['.'] + suffix@;
        if pattern@.host.covers(host@) {
            let name = host@.take(host@.len() - needle.len());
            assert(host@ =~= (name + seq!['.']) + suffix@) by {
                assert(host@ =~= name + host@.skip(host@.len() - needle.len()));
            }
        }
        if exists|name: Seq<char>|
            name.len() > 0 && host@ == #[trigger] (name + seq!['.']) + suffix@ {
            let name = choose|name: Seq<char>|
                name.len() > 0 && host@ == #[trigger] (name + seq!['.']) + suffix@;
            assert(host@.skip(host@.len() - needle.len()) =~= needle);
        }
    }
}

/// `host:port` is read as that host and that port, for every host that is no wildcard and
/// every port; what stands behind the last colon is the port. A host without a colon is read
/// as that host and every port, and `*.` before it makes it a suffix.
pub proof fn law_written_pattern_is_read(
    host: Seq<char>,
    port: u16,
    with_port: &str,
    without_port: &str,
    suffix: &str,
    first: Result<NetworkPattern, NetworkPatternParseError>,
    second: Result<NetworkPattern, NetworkPatternParseError>,
    third: Result<NetworkPattern, NetworkPatternParseError>,
)
    requires
        host.len() > 0,
        !host.contains('*'),
        with_port@ == host + seq![':'] + numeral::decimal(port as nat),
        without_port@ == host,
        suffix@ == "*."@ + host,
        call_ensures(NetworkPattern::parse, (with_port,), first),
        call_ensures(NetworkPattern::parse, (without_port,), second),
        call_ensures(NetworkPattern::parse, (suffix,), third),
    ensures
        first matches Ok(p) && p.host matches HostPattern::Exact(h) && h@ == host && p.port
            == PortPattern::Exact(port),
        !host.contains(':') ==> (second matches Ok(p) && p.host matches HostPattern::Exact(h) && h@
            == host && p.port is Any),
        !host.contains(':') ==> (third matches Ok(p) && p.host matches HostPattern::Suffix(h) && h@
            == host && p.port is Any),
{
    let digits = numeral::decimal(port as nat);
    reveal_strlit("*");
    reveal_strlit("*.");
    numeral::lemma_decimal_value(port as nat);
    numeral::lemma_decimal_reads_back(port as nat);
    assert(!digits.contains(':')) by {
        if digits.contains(':') {
            let i = choose|i: int| 0 <= i < digits.len() && digits[i] == ':';
            assert(numeral::digit_value(digits[i], 10) is Some);
        }
    }
    lemma_cut_last_joined(host, ':', digits);
    if !host.contains(':') {
        text::lemma_cut_last_absent(host, ':');
        assert(!suffix@.contains(':')) by {
            if suffix@.contains(':') {
                let i = choose|i: int| 0 <= i < suffix@.len() && suffix@[i] == ':';
                assert(i >= 2);
                assert(host.contains(host[i - 2]));
            }
        }
        text::lemma_cut_last_absent(suffix@, ':');
    }
    assert(host.contains(host[0]));
    assert(host != "*"@);
    assert(!text::begins(host, "*."@)) by {
        if text::begins(host, "*."@) {
            assert(host.take(2)[0] == "*."@[0]);
        }
    }
    assert(digits != "*"@) by {
        assert(numeral::digit_value(digits[0], 10) is Some);
    }
    assert(suffix@.take(2) =~= "*."@);
    assert(suffix@.skip(2) =~= host);
}

proof fn lemma_cut_last_joined(b: Seq<char>, sep: char, a: Seq<char>)
    requires
        !a.contains(sep),
    ensures
        text::cut_last(b + seq![sep] + a, sep) == Some((b, a)),
    decreases a.len(),
{
    let s = b + seq![sep] + a;
    if a.len() == 0 {
        assert(s.drop_last() =~= b);
        assert(a =~= Seq::<char>::empty());
    } else {
        let front = a.drop_last();
        assert(a.contains(a.last()));
        assert forall|c: char| front.contains(c) implies a.contains(c) by {
            let i = choose|i: int| 0 <= i < front.len() && front[i] == c;
            assert(a[i] == c);
        }
        lemma_cut_last_joined(b, sep, front);
        assert(s.drop_last() =~= b + seq![sep] + front);
        assert(front.push(a.last()) =~= a);
    }
}

/// The wildcard alone covers every host and port. Text without a host, a suffix without
/// a name, and a port that is no number up to 65535 are refused, and the error repeats the
/// text.
pub proof fn law_bad_patterns_are_refused(
    written: &str,
    res: Result<NetworkPattern, NetworkPatternParseError>,
)
    requires
        call_ensures(NetworkPattern::parse, (written,), res),
    ensures
        written@ == "*"@ ==> (res matches Ok(p) && p.host is Any && p.port is Any),
        written@.len() == 0 ==> (res matches Err(e) && e@.reason == "empty host"@),
        written@ == "*."@ ==> (res matches Err(e) && e@.reason == "empty suffix after `*.`"@),
        written@.len() > 0 && written@.last() == ':' ==> res is Err,
        res matches Err(e) ==> e@.raw == written@,
{
    reveal_strlit("*");
    reveal_strlit("*.");
    if written@ == "*"@ || written@.len() == 0 || written@ == "*."@ {
        assert(!written@.contains(':'));
        text::lemma_cut_last_absent(written@, ':');
        if written@ == "*."@ {
            assert(written@.take(2) =~= "*."@);
        }
    }
}

/// A port beyond 65535, and a port that is no number, are refused, whatever the host is.
pub proof fn law_bad_ports_are_refused(
    host: Seq<char>,
    n: nat,
    c: char,
    too_great: &str,
    no_number: &str,
    first: Result<NetworkPattern, NetworkPatternParseError>,
    second: Result<NetworkPattern, NetworkPatternParseError>,
)
    requires
        n > 65535,
        too_great@ == host + seq![':'] + numeral::decimal(n),
        !('0' <= c <= '9') && c != '*' && c != ':' && c != '+',
        no_number@ == host + seq![':'] + seq![c],
        call_ensures(NetworkPattern::parse, (too_great,), first),
        call_ensures(NetworkPattern::parse, (no_number,), second),
    ensures
        first is Err,
        second is Err,
        host.len() > 0 && !host.contains('*') ==> first->Err_0@.reason == "port is not a u16"@
            && second->Err_0@.reason == "port is not a u16"@,
{
    let digits = numeral::decimal(n);
    reveal_strlit("*");
    reveal_strlit("*.");
    if text::begins(host, "*."@) {
        assert(host.take(2)[0] == '*');
        assert(host.contains(host[0]));
    }
    if host == "*"@ {
        assert(host.contains(host[0]));
    }
    numeral::lemma_decimal_value(n);
    numeral::lemma_decimal_reads_back(n);
    assert(!digits.contains(':')) by {
        if digits.contains(':') {
            let i = choose|i: int| 0 <= i < digits.len() && digits[i] == ':';
            assert(numeral::digit_value(digits[i], 10) is Some);
        }
    }
    lemma_cut_last_joined(host, ':', digits);
    assert(digits != "*"@) by {
        assert(numeral::digit_value(digits[0], 10) is Some);
    }
    let one = seq![c];
    assert(!one.contains(':'));
    lemma_cut_last_joined(host, ':', one);
    assert(one != "*"@) by {
        assert(one[0] == c);
    }
    assert(numeral::digit_value(one[0], 10) is None);
    assert(!numeral::all_digits(one, 10));
}

/// Fields are kept as they were given.
pub proof fn law_policy_parts_are_kept(
    read: AccessLevel,
    write: AccessLevel,
    terminal: AccessLevel,
    network: AccessLevel,
    permissions: PermissionPolicy,
    mode: TrustMode,
    allowlist: Vec<NetworkPattern>,
    actions: Vec<EnvAction>,
    policy: SandboxPolicy,
    host: HostPattern,
    port: PortPattern,
    pattern: NetworkPattern,
)
    requires
        call_ensures(PermissionPolicy::new, (read, write, terminal, network), permissions),
        call_ensures(SandboxPolicy::new, (mode, permissions, allowlist, actions), policy),
        call_ensures(NetworkPattern::new, (host, port), pattern),
    ensures
        permissions.read == read && permissions.write == write,
        permissions.terminal == terminal && permissions.network == network,
        policy.trust_mode == mode && policy.permissions == permissions,
        policy.network_allowlist == allowlist && policy.env_actions == actions,
        pattern.host == host && pattern.port == port,
{
}

/// Whether a decision that is no permission is told in these words.
pub open spec fn told(decision: SandboxDecision, asked: Seq<char>, named: Seq<char>) -> bool {
    match decision {
        SandboxDecision::Allow => true,
        SandboxDecision::RequireApproval(reason) => reason.summary@ == "approval required for "@
            + asked && (reason.detail matches Some(d) && d@ == "policy gates "@ + named
            + " on user confirmation"@),
        SandboxDecision::Block(reason) => reason@ == named + " blocked by sandbox policy"@,
    }
}

/// Whoever is asked or refused is told of which operation.
pub proof fn law_decisions_are_worded(
    policy: SandboxPolicy,
    path: &Path,
    command: &str,
    port: u16,
    read: SandboxDecision,
    write: SandboxDecision,
    terminal: SandboxDecision,
    network: SandboxDecision,
)
    requires
        call_ensures(SandboxPolicy::check_read, (&policy, path), read),
        call_ensures(SandboxPolicy::check_write, (&policy, path), write),
        call_ensures(SandboxPolicy::check_terminal, (&policy, command), terminal),
        call_ensures(SandboxPolicy::check_network, (&policy, command, port), network),
    ensures
        told(read, "read"@, "filesystem read"@),
        told(write, "write"@, "filesystem write"@),
        told(terminal, "terminal"@, "terminal command"@),
        told(network, "network"@, "network access"@),
{
}

} // verus!
