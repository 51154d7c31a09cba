//! Stored permission grants.

use vstd::prelude::*;
use vstd::string::*;

use crate::id;
use crate::id::{PermissionGrantId, SessionId, WorkspaceId};
use crate::numeral;
use crate::persistence::types::{PermissionDecision, PermissionGrant, PermissionScope};
use crate::store::sql;
use crate::text;
use crate::time;

verus! {

// ---------------------------------------------------------------------------
// Terms
// ---------------------------------------------------------------------------

/// What a grant says beside whom it is about: the parts that the table has no
/// columns for.
#[derive(Debug)]
struct Terms {
    session_id: Option<SessionId>,
    scope: PermissionScope,
    decision: PermissionDecision,
    note: Option<String>,
}

/// The terms of a grant, as text where they are text.
pub struct TermsView {
    pub session_id: Option<SessionId>,
    pub scope: PermissionScope,
    pub decision: PermissionDecision,
    pub note: Option<Seq<char>>,
}

impl View for Terms {
    type V = TermsView;

    closed spec fn view(&self) -> TermsView {
        TermsView {
            session_id: self.session_id,
            scope: self.scope,
            decision: self.decision,
            note: text::optional(self.note),
        }
    }
}

/// The terms of a grant.
pub open spec fn terms(grant: PermissionGrant) -> TermsView {
    TermsView {
        session_id: grant.session_id,
        scope: grant.scope,
        decision: grant.decision,
        note: text::optional(grant.note),
    }
}

/// The terms that are not written: a permission for the whole workspace, from no
/// session and without a note.
pub open spec fn bare() -> TermsView {
    TermsView {
        session_id: None,
        scope: PermissionScope::Workspace,
        decision: PermissionDecision::Allow,
        note: None,
    }
}

/// The text of a decision.
pub open spec fn decision_text(decision: PermissionDecision) -> Seq<char> {
    match decision {
        PermissionDecision::Allow => "allow"@,
        PermissionDecision::Deny => "deny"@,
    }
}

/// The decision that a text writes.
pub open spec fn decision_of(s: Seq<char>) -> Option<PermissionDecision> {
    if s == "allow"@ {
        Some(PermissionDecision::Allow)
    } else if s == "deny"@ {
        Some(PermissionDecision::Deny)
    } else {
        None
    }
}

/// The text of a scope.
pub open spec fn scope_text(scope: PermissionScope) -> Seq<char> {
    match scope {
        PermissionScope::SingleCall => "single_call"@,
        PermissionScope::Session => "session"@,
        PermissionScope::Workspace => "workspace"@,
    }
}

/// The scope that a text writes.
pub open spec fn scope_of(s: Seq<char>) -> Option<PermissionScope> {
    if s == "single_call"@ {
        Some(PermissionScope::SingleCall)
    } else if s == "session"@ {
        Some(PermissionScope::Session)
    } else if s == "workspace"@ {
        Some(PermissionScope::Workspace)
    } else {
        None
    }
}

/// The text of an optional session: its UUID, or nothing.
pub open spec fn session_text(session_id: Option<SessionId>) -> Seq<char> {
    match session_id {
        Some(session) => id::uuid_text(session.0),
        None => Seq::empty(),
    }
}

/// The optional session that a text writes.
pub open spec fn session_of(s: Seq<char>) -> Option<Option<SessionId>> {
    if s.len() == 0 {
        Some(None)
    } else {
        match id::uuid_from(s) {
            Some(n) => Some(Some(SessionId(n as u128))),
            None => None,
        }
    }
}

/// The text of an optional note: the note behind `=`, or nothing.
pub open spec fn note_text(note: Option<Seq<char>>) -> Seq<char> {
    match note {
        Some(n) => seq!['='] + n,
        None => Seq::empty(),
    }
}

/// The optional note that a text writes.
pub open spec fn note_of(s: Seq<char>) -> Option<Option<Seq<char>>> {
    if s.len() == 0 {
        Some(None)
    } else if s[0] == '=' {
        Some(Some(s.drop_first()))
    } else {
        None
    }
}

/// The text of terms: decision, scope, session and note, with `;` between them.
pub open spec fn terms_text(t: TermsView) -> Seq<char> {
    decision_text(t.decision) + seq![';'] + (scope_text(t.scope) + seq![';'] + (session_text(
        t.session_id,
    ) + seq![';'] + note_text(t.note)))
}

/// The terms that a text writes.
pub open spec fn terms_of(s: Seq<char>) -> Option<TermsView> {
    match text::cut_first(s, ';') {
        None => None,
        Some((decision, rest)) => match text::cut_first(rest, ';') {
            None => None,
            Some((scope, rest)) => match text::cut_first(rest, ';') {
                None => None,
                Some((session, note)) => match (
                    decision_of(decision),
                    scope_of(scope),
                    session_of(session),
                    note_of(note),
                ) {
                    (Some(decision), Some(scope), Some(session_id), Some(note)) => Some(
                        TermsView { session_id, scope, decision, note },
                    ),
                    _ => None,
                },
            },
        },
    }
}

fn read_decision(s: &Vec<char>) -> (res: Option<PermissionDecision>)
    ensures
        res == decision_of(s@),
{
    if text::spells(s, "allow") {
        Some(PermissionDecision::Allow)
    } else if text::spells(s, "deny") {
        Some(PermissionDecision::Deny)
    } else {
        None
    }
}

fn read_scope(s: &Vec<char>) -> (res: Option<PermissionScope>)
    ensures
        res == scope_of(s@),
{
    if text::spells(s, "single_call") {
        Some(PermissionScope::SingleCall)
    } else if text::spells(s, "session") {
        Some(PermissionScope::Session)
    } else if text::spells(s, "workspace") {
        Some(PermissionScope::Workspace)
    } else {
        None
    }
}

fn read_session(s: &Vec<char>) -> (res: Option<Option<SessionId>>)
    ensures
        res == session_of(s@),
{
    if s.len() == 0 {
        Some(None)
    } else {
        match id::read_uuid(text::string_of(s).as_str()) {
            Some(uuid) => Some(Some(SessionId::from_uuid(uuid))),
            None => None,
        }
    }
}

fn read_note(s: &Vec<char>) -> (res: Option<Option<String>>)
    ensures
        match res {
            Some(note) => note_of(s@) == Some(text::optional(note)),
            None => note_of(s@) is None,
        },
{
    if s.len() == 0 {
        Some(None)
    } else if s[0] == '=' {
        let note = text::slice_of(s, 1, s.len());
        assert(note@ =~= s@.drop_first());
        Some(Some(text::string_of(&note)))
    } else {
        None
    }
}

fn read_terms(s: &Vec<char>) -> (res: Option<Terms>)
    ensures
        match res {
            Some(t) => terms_of(s@) == Some(t@),
            None => terms_of(s@) is None,
        },
{
    let (decision, rest) = match text::cut_at_first(s, ';') {
        Some(cut) => cut,
        None => {
            return None;
        },
    };
    let (scope, rest) = match text::cut_at_first(&rest, ';') {
        Some(cut) => cut,
        None => {
            return None;
        },
    };
    let (session, note) = match text::cut_at_first(&rest, ';') {
        Some(cut) => cut,
        None => {
            return None;
        },
    };
    match (read_decision(&decision), read_scope(&scope), read_session(&session), read_note(&note)) {
        (Some(decision), Some(scope), Some(session_id), Some(note)) => Some(
            Terms { session_id, scope, decision, note },
        ),
        _ => None,
    }
}

proof fn lemma_terms_read_back(t: TermsView)
    ensures
        terms_of(terms_text(t)) == Some(t),
{
    reveal_strlit("allow");
    reveal_strlit("deny");
    reveal_strlit("single_call");
    reveal_strlit("session");
    reveal_strlit("workspace");
    assert("allow"@.len() == 5 && "deny"@.len() == 4);
    assert("single_call"@.len() == 11 && "session"@.len() == 7 && "workspace"@.len() == 9);
    let decision = decision_text(t.decision);
    let scope = scope_text(t.scope);
    let session = session_text(t.session_id);
    let note = note_text(t.note);
    if let Some(s) = t.session_id {
        id::lemma_uuid_text_form(s.0, ';');
        id::law_uuid_text_reads_back(s.0);
    }
    if let Some(n) = t.note {
        assert(note.drop_first() =~= n);
    }
    text::lemma_cut_first_joined(session, ';', note);
    text::lemma_cut_first_joined(scope, ';', session + seq![';'] + note);
    text::lemma_cut_first_joined(
        decision,
        ';',
        scope + seq![';'] + (session + seq![';'] + note),
    );
}

// ---------------------------------------------------------------------------
// Rows
// ---------------------------------------------------------------------------

/// A grant as it is stored. There are no columns for its identity and its terms,
/// so these stand in `network_pattern`: the identity, and behind it and a `;` the
/// terms. Bare terms are left out.
#[derive(Debug, Clone, PartialEq, Eq)]
pub struct PermissionGrantRow {
    pub workspace_id: String,
    pub tool_id: String,
    pub network_pattern: String,
    pub granted_at: i64,
}

/// What stands in `network_pattern`.
pub open spec fn pattern_text(uuid: u128, t: TermsView) -> Seq<char> {
    if t == bare() {
        id::uuid_text(uuid)
    } else {
        id::uuid_text(uuid) + seq![';'] + terms_text(t)
    }
}

/// The identity that `network_pattern` writes.
pub open spec fn identity_of(pattern: Seq<char>) -> u128 {
    match text::cut_first(pattern, ';') {
        Some((identity, _)) => sql::uuid_or_nil(identity),
        None => sql::uuid_or_nil(pattern),
    }
}

/// The terms that `network_pattern` writes; bare ones where it writes none.
pub open spec fn terms_in(pattern: Seq<char>) -> Option<TermsView> {
    match text::cut_first(pattern, ';') {
        Some((_, written)) => terms_of(written),
        None => Some(bare()),
    }
}

/// Two fields with `;` between them.
fn joined(before: &str, after: &str) -> (res: String)
    ensures
        res@ == before@ + seq![';'] + after@,
{
    proof {
        reveal_strlit(";");
        assert(";"@ =~= seq![';']);
    }
    before.to_owned().concat(";").concat(after)
}

fn write_session(session_id: Option<SessionId>) -> (res: String)
    ensures
        res@ == session_text(session_id),
{
    match session_id {
        Some(session) => sql::id_to_string(session.0),
        None => String::new(),
    }
}

fn write_note(note: &Option<String>) -> (res: String)
    ensures
        res@ == note_text(text::optional(*note)),
{
    proof {
        reveal_strlit("=");
        assert("="@ =~= seq!['=']);
    }
    match note {
        Some(note) => "=".to_owned().concat(note.as_str()),
        None => String::new(),
    }
}

fn write_terms(grant: &PermissionGrant) -> (res: String)
    ensures
        res@ == terms_text(terms(*grant)),
{
    let decision = match grant.decision {
        PermissionDecision::Allow => "allow",
        PermissionDecision::Deny => "deny",
    };
    let scope = match grant.scope {
        PermissionScope::SingleCall => "single_call",
        PermissionScope::Session => "session",
        PermissionScope::Workspace => "workspace",
    };
    let session = write_session(grant.session_id);
    let note = write_note(&grant.note);
    let tail = joined(session.as_str(), note.as_str());
    let tail = joined(scope, tail.as_str());
    joined(decision, tail.as_str())
}

fn write_pattern(grant: &PermissionGrant) -> (res: String)
    ensures
        res@ == pattern_text(grant.id.0, terms(*grant)),
{
    let identity = sql::id_to_string(grant.id.0);
    if grant.session_id.is_none() && grant.scope == PermissionScope::Workspace && grant.decision
        == PermissionDecision::Allow && grant.note.is_none() {
        return identity;
    }
    joined(identity.as_str(), write_terms(grant).as_str())
}

impl PermissionGrantRow {
    /// Whether this is how `grant` is stored.
    pub open spec fn stores(self, grant: PermissionGrant) -> bool {
        &&& self.workspace_id@ == id::uuid_text(grant.workspace_id.0)
        &&& self.tool_id == grant.tool_id
        &&& self.network_pattern@ == pattern_text(grant.id.0, terms(grant))
        &&& self.granted_at == grant.created_at.secs()
    }

    /// How `grant` is stored.
    pub fn from_grant(grant: &PermissionGrant) -> (res: Self)
        ensures
            res.stores(*grant),
            time::instant_exists(res.granted_at as int, 0),
    {
        Self {
            workspace_id: sql::id_to_string(grant.workspace_id.0),
            tool_id: grant.tool_id.clone(),
            network_pattern: write_pattern(grant),
            granted_at: grant.created_at.timestamp(),
        }
    }

    /// Whether this row is read as `grant`.
    pub open spec fn reads(self, grant: PermissionGrant) -> bool {
        &&& grant.id.0 == identity_of(self.network_pattern@)
        &&& grant.workspace_id.0 == sql::uuid_or_nil(self.workspace_id@)
        &&& grant.tool_id == self.tool_id
        &&& terms_in(self.network_pattern@) == Some(terms(grant))
        &&& grant.created_at.secs() == self.granted_at
        &&& grant.created_at.nanos() == 0
    }

    /// What is wrong with a row that stores no grant: its second, or else its
    /// terms.
    pub open spec fn fault(self) -> Option<Seq<char>> {
        if !time::instant_exists(self.granted_at as int, 0) {
            Some("invalid timestamp: "@ + numeral::signed_decimal(self.granted_at as int))
        } else if terms_in(self.network_pattern@) is None {
            Some("invalid permission grant: "@ + self.network_pattern@)
        } else {
            None
        }
    }

    /// The grant that is stored, or what is wrong with the row.
    pub fn into_grant(self) -> (res: Result<PermissionGrant, String>)
        ensures
            match res {
                Ok(grant) => self.reads(grant) && self.fault() is None,
                Err(message) => self.fault() == Some(message@),
            },
    {
        let created_at = match sql::ts_to_datetime(self.granted_at) {
            Ok(created_at) => created_at,
            Err(message) => {
                return Err(message);
            },
        };
        let pattern = text::chars_of(self.network_pattern.as_str());
        let (uuid, read) = match text::cut_at_first(&pattern, ';') {
            Some((identity, written)) => (
                sql::read_uuid_or_nil(text::string_of(&identity).as_str()),
                read_terms(&written),
            ),
            None => (
                sql::read_uuid_or_nil(self.network_pattern.as_str()),
                Some(
                    Terms {
                        session_id: None,
                        scope: PermissionScope::Workspace,
                        decision: PermissionDecision::Allow,
                        note: None,
                    },
                ),
            ),
        };
        match read {
            None => Err(
                "invalid permission grant: ".to_owned().concat(self.network_pattern.as_str()),
            ),
            Some(t) => Ok(
                PermissionGrant::new(
                    PermissionGrantId::from_uuid(uuid),
                    WorkspaceId::from_uuid(sql::read_uuid_or_nil(self.workspace_id.as_str())),
                    t.session_id,
                    self.tool_id,
                    t.scope,
                    t.decision,
                    t.note,
                    created_at,
                ),
            ),
        }
    }
}

proof fn lemma_pattern_reads_back(uuid: u128, t: TermsView)
    ensures
        identity_of(pattern_text(uuid, t)) == uuid,
        terms_in(pattern_text(uuid, t)) == Some(t),
{
    id::lemma_uuid_text_form(uuid, ';');
    sql::law_stored_uuid_reads_back(uuid);
    lemma_terms_read_back(t);
    text::lemma_cut_first_absent(id::uuid_text(uuid), ';');
    text::lemma_cut_first_joined(id::uuid_text(uuid), ';', terms_text(t));
}

/// Every stored grant is read back as it was, to the second: a refusal as a
/// refusal, with its scope, its session and its note.
pub proof fn law_grant_reads_back(
    grant: PermissionGrant,
    row: PermissionGrantRow,
    back: PermissionGrant,
)
    requires
        row.stores(grant),
        row.reads(back),
    ensures
        back.id == grant.id,
        back.workspace_id == grant.workspace_id,
        back.session_id == grant.session_id,
        back.tool_id == grant.tool_id,
        back.scope == grant.scope,
        back.decision == grant.decision,
        text::optional(back.note) == text::optional(grant.note),
        back.created_at.secs() == grant.created_at.secs(),
{
    lemma_pattern_reads_back(grant.id.0, terms(grant));
    sql::law_stored_uuid_reads_back(grant.workspace_id.0);
}

/// Every stored grant can be read.
pub proof fn law_stored_grant_has_no_fault(grant: PermissionGrant, row: PermissionGrantRow)
    requires
        row.stores(grant),
        time::instant_exists(row.granted_at as int, 0),
    ensures
        row.fault() is None,
{
    lemma_pattern_reads_back(grant.id.0, terms(grant));
}

// ---------------------------------------------------------------------------
// Looking up
// ---------------------------------------------------------------------------

/// Whether `pattern` is how a grant of the given identity is stored: the identity
/// alone, or with something behind it and a `;`.
pub open spec fn names(pattern: Seq<char>, uuid: u128) -> bool {
    pattern == id::uuid_text(uuid) || text::begins(pattern, id::uuid_text(uuid) + seq![';'])
}

/// What to look for in `network_pattern` in order to find a grant: the whole text
/// of a grant with bare terms, and the beginning of the text of any other.
pub fn lookup_keys(id: PermissionGrantId) -> (res: (String, String))
    ensures
        res.0@ == id::uuid_text(id.0),
        res.1@ == id::uuid_text(id.0) + seq![';'],
        forall|pattern: Seq<char>| #[trigger]
            names(pattern, id.0) <==> pattern == res.0@ || text::begins(pattern, res.1@),
{
    let whole = sql::id_to_string(id.0);
    let beginning = sql::id_to_string(id.0).concat(";");
    proof {
        reveal_strlit(";");
        assert(";"@ =~= seq![';']);
    }
    (whole, beginning)
}

/// A stored grant is found under its own identity and under no other.
pub proof fn law_grant_is_found_by_its_identity(
    grant: PermissionGrant,
    row: PermissionGrantRow,
    uuid: u128,
)
    requires
        row.stores(grant),
    ensures
        names(row.network_pattern@, uuid) <==> uuid == grant.id.0,
{
    let p = row.network_pattern@;
    let own = id::uuid_text(grant.id.0);
    let other = id::uuid_text(uuid);
    id::lemma_uuid_text_form(grant.id.0, ';');
    id::lemma_uuid_text_form(uuid, ';');
    assert(p.take(36) =~= own);
    if terms(grant) != bare() {
        assert(p.take(37) =~= own + seq![';']);
    }
    if names(p, uuid) {
        if p != other {
            assert(p.take(37) == other + seq![';']);
            assert(p.take(37).take(36) =~= p.take(36));
            assert((other + seq![';']).take(36) =~= other);
        } else {
            assert(p.take(36) =~= other);
        }
        id::law_uuid_text_is_injective(grant.id.0, uuid);
    }
}

/// The rows of a grant.
pub open spec fn rows_of(rows: Seq<PermissionGrantRow>, uuid: u128) -> Seq<PermissionGrantRow>
    decreases rows.len(),
{
    if rows.len() == 0 {
        Seq::empty()
    } else if names(rows.last().network_pattern@, uuid) {
        rows_of(rows.drop_last(), uuid).push(rows.last())
    } else {
        rows_of(rows.drop_last(), uuid)
    }
}

/// The table after a grant is deleted.
pub open spec fn deleted(rows: Seq<PermissionGrantRow>, uuid: u128) -> Seq<PermissionGrantRow>
    decreases rows.len(),
{
    if rows.len() == 0 {
        Seq::empty()
    } else if names(rows.last().network_pattern@, uuid) {
        deleted(rows.drop_last(), uuid)
    } else {
        deleted(rows.drop_last(), uuid).push(rows.last())
    }
}

/// The table after a grant is stored: `row` takes the place of what there was of
/// it.
pub open spec fn upserted(
    rows: Seq<PermissionGrantRow>,
    row: PermissionGrantRow,
    uuid: u128,
) -> Seq<PermissionGrantRow> {
    deleted(rows, uuid).push(row)
}

proof fn lemma_deleted(rows: Seq<PermissionGrantRow>, uuid: u128, other: u128)
    ensures
        rows_of(deleted(rows, uuid), uuid).len() == 0,
        uuid != other ==> rows_of(deleted(rows, uuid), other) == rows_of(rows, other),
    decreases rows.len(),
{
    if rows.len() > 0 {
        lemma_deleted(rows.drop_last(), uuid, other);
        let last = rows.last();
        let kept = deleted(rows.drop_last(), uuid);
        assert(kept.push(last).drop_last() =~= kept);
        if names(last.network_pattern@, uuid) && names(last.network_pattern@, other) {
            lemma_names_one(last.network_pattern@, uuid, other);
        }
    }
}

/// No pattern names two identities.
proof fn lemma_names_one(pattern: Seq<char>, a: u128, b: u128)
    requires
        names(pattern, a),
        names(pattern, b),
    ensures
        a == b,
{
    id::lemma_uuid_text_form(a, ';');
    id::lemma_uuid_text_form(b, ';');
    let ta = id::uuid_text(a);
    let tb = id::uuid_text(b);
    assert((ta + seq![';']).take(36) =~= ta);
    assert((tb + seq![';']).take(36) =~= tb);
    assert(ta.take(36) =~= ta);
    assert(tb.take(36) =~= tb);
    if pattern.len() >= 37 {
        assert(pattern.take(37).take(36) =~= pattern.take(36));
    }
    assert(pattern.take(36) == ta);
    assert(pattern.take(36) == tb);
    id::law_uuid_text_is_injective(a, b);
}

/// After a grant is stored, its row is the only one of its identity, whatever was
/// stored of it before; so a refusal that takes the place of a permission is what
/// is found. Once deleted it is gone. Other grants stay either way.
pub proof fn law_last_stored_grant_is_found(
    rows: Seq<PermissionGrantRow>,
    grant: PermissionGrant,
    row: PermissionGrantRow,
    other: u128,
)
    requires
        row.stores(grant),
    ensures
        rows_of(upserted(rows, row, grant.id.0), grant.id.0) == seq![row],
        other != grant.id.0 ==> rows_of(upserted(rows, row, grant.id.0), other) == rows_of(
            rows,
            other,
        ),
        rows_of(deleted(rows, grant.id.0), grant.id.0).len() == 0,
        other != grant.id.0 ==> rows_of(deleted(rows, grant.id.0), other) == rows_of(rows, other),
{
    let uuid = grant.id.0;
    lemma_deleted(rows, uuid, other);
    law_grant_is_found_by_its_identity(grant, row, uuid);
    law_grant_is_found_by_its_identity(grant, row, other);
    let kept = deleted(rows, uuid);
    assert(kept.push(row).drop_last() =~= kept);
    assert(rows_of(kept, uuid) =~= Seq::<PermissionGrantRow>::empty());
    assert(rows_of(upserted(rows, row, uuid), uuid) =~= seq![row]);
}

/// Whether `answer` is what looking up an identity finds: one of its latest rows,
/// or none where there is no row of it.
pub open spec fn finds(
    rows: Seq<PermissionGrantRow>,
    uuid: u128,
    answer: Option<PermissionGrantRow>,
) -> bool {
    let own = rows_of(rows, uuid);
    match answer {
        Some(row) => {
            &&& own.contains(row)
            &&& forall|i: int| 0 <= i < own.len() ==> (#[trigger] own[i]).granted_at <= row.granted_at
        },
        None => own.len() == 0,
    }
}

/// A change of the table.
pub enum GrantChange {
    /// A grant is stored, as this row.
    Upsert(PermissionGrant, PermissionGrantRow),
    /// The grant of this identity is deleted.
    Delete(u128),
}

impl GrantChange {
    /// The identity that the change is about.
    pub open spec fn about(self) -> u128 {
        match self {
            GrantChange::Upsert(grant, _) => grant.id.0,
            GrantChange::Delete(uuid) => uuid,
        }
    }

    /// Whether the row is how the grant is stored.
    pub open spec fn is_valid(self) -> bool {
        match self {
            GrantChange::Upsert(grant, row) => row.stores(grant),
            GrantChange::Delete(_) => true,
        }
    }
}

/// The table after changes.
pub open spec fn changed(
    rows: Seq<PermissionGrantRow>,
    changes: Seq<GrantChange>,
) -> Seq<PermissionGrantRow>
    decreases changes.len(),
{
    if changes.len() == 0 {
        rows
    } else {
        let before = changed(rows, changes.drop_last());
        match changes.last() {
            GrantChange::Upsert(grant, row) => upserted(before, row, grant.id.0),
            GrantChange::Delete(uuid) => deleted(before, uuid),
        }
    }
}

proof fn lemma_other_changes(
    rows: Seq<PermissionGrantRow>,
    changes: Seq<GrantChange>,
    uuid: u128,
)
    requires
        forall|i: int|
            0 <= i < changes.len() ==> (#[trigger] changes[i]).is_valid() && changes[i].about()
                != uuid,
    ensures
        rows_of(changed(rows, changes), uuid) == rows_of(rows, uuid),
    decreases changes.len(),
{
    if changes.len() > 0 {
        lemma_other_changes(rows, changes.drop_last(), uuid);
        let before = changed(rows, changes.drop_last());
        assert(changes.last() == changes[changes.len() - 1]);
        match changes.last() {
            GrantChange::Upsert(grant, row) => {
                law_last_stored_grant_is_found(before, grant, row, uuid);
            },
            GrantChange::Delete(other) => {
                lemma_deleted(before, other, uuid);
            },
        }
    }
}

/// Looking up a grant that was stored, and then neither stored again nor deleted,
/// finds its row, whatever else is stored and deleted before and after. The row can
/// be read, and gives the grant as it was: a refusal is got back as a refusal.
pub proof fn law_stored_grant_is_got_back(
    rows: Seq<PermissionGrantRow>,
    grant: PermissionGrant,
    row: PermissionGrantRow,
    later: Seq<GrantChange>,
    answer: Option<PermissionGrantRow>,
    back: PermissionGrant,
)
    requires
        row.stores(grant),
        time::instant_exists(row.granted_at as int, 0),
        forall|i: int|
            0 <= i < later.len() ==> (#[trigger] later[i]).is_valid() && later[i].about()
                != grant.id.0,
        finds(changed(upserted(rows, row, grant.id.0), later), grant.id.0, answer),
    ensures
        answer == Some(row),
        row.fault() is None,
        row.reads(back) ==> {
            &&& back.id == grant.id
            &&& back.workspace_id == grant.workspace_id
            &&& back.session_id == grant.session_id
            &&& back.tool_id == grant.tool_id
            &&& back.scope == grant.scope
            &&& back.decision == grant.decision
            &&& text::optional(back.note) == text::optional(grant.note)
            &&& back.created_at.secs() == grant.created_at.secs()
        },
{
    let stored = upserted(rows, row, grant.id.0);
    law_last_stored_grant_is_found(rows, grant, row, grant.id.0);
    lemma_other_changes(stored, later, grant.id.0);
    law_stored_grant_has_no_fault(grant, row);
    if row.reads(back) {
        law_grant_reads_back(grant, row, back);
    }
}

/// Looking up a grant that was deleted, and then not stored again, finds nothing.
pub proof fn law_deleted_grant_is_gone(
    rows: Seq<PermissionGrantRow>,
    uuid: u128,
    later: Seq<GrantChange>,
    answer: Option<PermissionGrantRow>,
)
    requires
        forall|i: int|
            0 <= i < later.len() ==> (#[trigger] later[i]).is_valid() && later[i].about() != uuid,
        finds(changed(deleted(rows, uuid), later), uuid, answer),
    ensures
        answer is None,
{
    lemma_deleted(rows, uuid, uuid);
    lemma_other_changes(deleted(rows, uuid), later, uuid);
}

} // verus!
