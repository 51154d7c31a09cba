//! Identifiers.
//!
//! Every aggregate has an identifier type of its own over a 128-bit UUID, so
//! that an identifier of one kind cannot be passed for another. All of them have
//! the same constructors, [`WorkspaceId::new_v4`] for a fresh identifier and
//! [`WorkspaceId::from_uuid`] for a known one, and the same accessor.

use vstd::prelude::*;

use crate::numeral;
use crate::text;

verus! {

// ---------------------------------------------------------------------------
// UUIDs
// ---------------------------------------------------------------------------

/// The hyphenated text of a UUID: 32 lower-case hexadecimal digits in groups of
/// 8, 4, 4, 4 and 12.
pub open spec fn uuid_text(uuid: u128) -> Seq<char> {
    let n = uuid as nat;
    numeral::hex_padded(n / 0x1_0000_0000_0000_0000_0000_0000, 8, false) + seq!['-']
        + numeral::hex_padded(n / 0x1_0000_0000_0000_0000_0000, 4, false) + seq!['-']
        + numeral::hex_padded(n / 0x1_0000_0000_0000_0000, 4, false) + seq!['-']
        + numeral::hex_padded(n / 0x1_0000_0000_0000, 4, false) + seq!['-']
        + numeral::hex_padded(n, 12, false)
}

/// The hexadecimal digits of a written UUID. They stand alone, or in hyphenated
/// groups; hyphenated groups may stand in braces or after `urn:uuid:`.
pub open spec fn uuid_digits(s: Seq<char>) -> Option<Seq<char>> {
    let body = if s.len() == 38 && s[0] == '{' && s[37] == '}' {
        s.subrange(1, 37)
    } else if s.len() == 45 && text::lowered(s.take(9)) == "urn:uuid:"@ {
        s.skip(9)
    } else {
        s
    };
    if s.len() == 32 {
        Some(s)
    } else if body.len() == 36 && body[8] == '-' && body[13] == '-' && body[18] == '-' && body[23]
        == '-' {
        Some(
            body.subrange(0, 8) + body.subrange(9, 13) + body.subrange(14, 18) + body.subrange(
                19,
                23,
            ) + body.subrange(24, 36),
        )
    } else {
        None
    }
}

/// The UUID that `s` writes, if it writes one.
pub open spec fn uuid_from(s: Seq<char>) -> Option<nat> {
    match uuid_digits(s) {
        Some(digits) => if numeral::all_digits(digits, 16) {
            Some(numeral::digits_value(digits, 16))
        } else {
            None
        },
        None => None,
    }
}

/// The bits of a random UUID: version 4, RFC variant.
pub open spec fn is_random_uuid(uuid: u128) -> bool {
    &&& (uuid as nat / 0x1000_0000_0000_0000_0000) % 16 == 4
    &&& (uuid as nat / 0x4000_0000_0000_0000) % 4 == 2
}

/// Calls `uuid::Uuid::new_v4`. Which UUID comes back is left to the operating
/// system's random numbers; it is always of version 4 and of the RFC variant.
#[verifier::external_body]
fn random_uuid() -> (res: u128)
    ensures
        is_random_uuid(res),
{
    uuid::Uuid::new_v4().as_u128()
}

/// Whether a UUID is one that drawing a random UUID can give.
pub closed spec fn drawn(uuid: u128) -> bool {
    call_ensures(random_uuid, (), uuid)
}

/// Calls `Display` of `uuid::Uuid`, which writes the hyphenated form in lower
/// case.
#[verifier::external_body]
pub(crate) fn write_uuid(bits: u128) -> (res: String)
    ensures
        res@ == uuid_text(bits),
{
    uuid::Uuid::from_u128(bits).to_string()
}

/// Calls `uuid::Uuid::parse_str`, which accepts the simple, hyphenated, braced
/// and URN forms, with digits of either case, and nothing else.
#[verifier::external_body]
pub(crate) fn read_uuid(s: &str) -> (res: Option<u128>)
    ensures
        match res {
            Some(bits) => uuid_from(s@) == Some(bits as nat),
            None => uuid_from(s@) is None,
        },
{
    uuid::Uuid::parse_str(s).ok().map(|u| u.as_u128())
}

/// Reading the text of a UUID gives the UUID back.
pub proof fn law_uuid_text_reads_back(uuid: u128)
    ensures
        uuid_from(uuid_text(uuid)) == Some(uuid as nat),
{
    let n = uuid as nat;
    let g0 = numeral::hex_padded(n / 0x1_0000_0000_0000_0000_0000_0000, 8, false);
    let g1 = numeral::hex_padded(n / 0x1_0000_0000_0000_0000_0000, 4, false);
    let g2 = numeral::hex_padded(n / 0x1_0000_0000_0000_0000, 4, false);
    let g3 = numeral::hex_padded(n / 0x1_0000_0000_0000, 4, false);
    let g4 = numeral::hex_padded(n, 12, false);
    let s = uuid_text(uuid);
    numeral::lemma_hex_padded_value(n / 0x1_0000_0000_0000_0000_0000_0000, 8, false);
    numeral::lemma_hex_padded_value(n / 0x1_0000_0000_0000_0000_0000, 4, false);
    numeral::lemma_hex_padded_value(n / 0x1_0000_0000_0000_0000, 4, false);
    numeral::lemma_hex_padded_value(n / 0x1_0000_0000_0000, 4, false);
    numeral::lemma_hex_padded_value(n, 12, false);
    assert(numeral::hex_bound(12) == 0x1_0000_0000_0000) by {
        reveal_with_fuel(numeral::hex_bound, 13);
    }
    assert(numeral::hex_bound(16) == 0x1_0000_0000_0000_0000) by {
        reveal_with_fuel(numeral::hex_bound, 17);
    }
    assert(numeral::hex_bound(20) == 0x1_0000_0000_0000_0000_0000) by {
        reveal_with_fuel(numeral::hex_bound, 21);
    }
    assert(numeral::hex_bound(24) == 0x1_0000_0000_0000_0000_0000_0000) by {
        reveal_with_fuel(numeral::hex_bound, 25);
    }
    assert(numeral::hex_bound(32) == 0x1_0000_0000_0000_0000_0000_0000_0000_0000) by {
        reveal_with_fuel(numeral::hex_bound, 33);
    }
    numeral::lemma_hex_padded_split(n, 4, 12, false);
    numeral::lemma_hex_padded_split(n, 4, 16, false);
    numeral::lemma_hex_padded_split(n, 4, 20, false);
    numeral::lemma_hex_padded_split(n, 8, 24, false);
    numeral::lemma_hex_padded_value(n, 32, false);
    let digits = g0 + g1 + g2 + g3 + g4;
    assert(digits =~= numeral::hex_padded(n, 32, false));
    assert(s.subrange(0, 8) =~= g0);
    assert(s.subrange(9, 13) =~= g1);
    assert(s.subrange(14, 18) =~= g2);
    assert(s.subrange(19, 23) =~= g3);
    assert(s.subrange(24, 36) =~= g4);
    assert(uuid_digits(s) == Some(digits));
}

/// The text of a UUID has 36 characters: digits and hyphens.
pub proof fn lemma_uuid_text_form(uuid: u128, c: char)
    ensures
        uuid_text(uuid).len() == 36,
        c != '-' && numeral::digit_value(c, 16) is None ==> !uuid_text(uuid).contains(c),
{
    let n = uuid as nat;
    let g0 = numeral::hex_padded(n / 0x1_0000_0000_0000_0000_0000_0000, 8, false);
    let g1 = numeral::hex_padded(n / 0x1_0000_0000_0000_0000_0000, 4, false);
    let g2 = numeral::hex_padded(n / 0x1_0000_0000_0000_0000, 4, false);
    let g3 = numeral::hex_padded(n / 0x1_0000_0000_0000, 4, false);
    let g4 = numeral::hex_padded(n, 12, false);
    numeral::lemma_hex_padded_value(n / 0x1_0000_0000_0000_0000_0000_0000, 8, false);
    numeral::lemma_hex_padded_value(n / 0x1_0000_0000_0000_0000_0000, 4, false);
    numeral::lemma_hex_padded_value(n / 0x1_0000_0000_0000_0000, 4, false);
    numeral::lemma_hex_padded_value(n / 0x1_0000_0000_0000, 4, false);
    numeral::lemma_hex_padded_value(n, 12, false);
    let s = uuid_text(uuid);
    assert forall|i: int| 0 <= i < s.len() implies s[i] == '-' || numeral::digit_value(
        #[trigger] s[i],
        16,
    ) is Some by {
        if i < 8 {
            assert(s[i] == g0[i]);
        } else if 9 <= i < 13 {
            assert(s[i] == g1[i - 9]);
        } else if 14 <= i < 18 {
            assert(s[i] == g2[i - 14]);
        } else if 19 <= i < 23 {
            assert(s[i] == g3[i - 19]);
        } else if 24 <= i {
            assert(s[i] == g4[i - 24]);
        }
    }
}

/// Different UUIDs have different texts.
pub proof fn law_uuid_text_is_injective(a: u128, b: u128)
    requires
        uuid_text(a) == uuid_text(b),
    ensures
        a == b,
{
    law_uuid_text_reads_back(a);
    law_uuid_text_reads_back(b);
}

// ---------------------------------------------------------------------------
// WorkspaceId
// ---------------------------------------------------------------------------

/// Identifies a workspace: the root that holds chats, buffers and terminal sessions.
#[derive(Debug, Clone, Copy, PartialEq, Eq, Hash, Structural)]
pub struct WorkspaceId(pub u128);

impl WorkspaceId {
    /// A fresh random identifier.
    #[must_use]
    pub fn new_v4() -> (res: Self)
        ensures
            is_random_uuid(res.0),
            drawn(res.0),
    {
        Self(random_uuid())
    }

    /// The identifier with the given UUID.
    #[must_use]
    pub fn from_uuid(uuid: u128) -> (res: Self)
        ensures
            res == WorkspaceId(uuid),
    {
        Self(uuid)
    }

    /// The UUID of the identifier.
    #[must_use]
    pub fn as_uuid(&self) -> (res: &u128)
        ensures
            *res == self.0,
    {
        &self.0
    }
}

// ---------------------------------------------------------------------------
// ChatId
// ---------------------------------------------------------------------------

/// Identifies a chat inside a workspace.
#[derive(Debug, Clone, Copy, PartialEq, Eq, Hash, Structural)]
pub struct ChatId(pub u128);

impl ChatId {
    /// A fresh random identifier.
    #[must_use]
    pub fn new_v4() -> (res: Self)
        ensures
            is_random_uuid(res.0),
            drawn(res.0),
    {
        Self(random_uuid())
    }

    /// The identifier with the given UUID.
    #[must_use]
    pub fn from_uuid(uuid: u128) -> (res: Self)
        ensures
            res == ChatId(uuid),
    {
        Self(uuid)
    }

    /// The UUID of the identifier.
    #[must_use]
    pub fn as_uuid(&self) -> (res: &u128)
        ensures
            *res == self.0,
    {
        &self.0
    }
}

// ---------------------------------------------------------------------------
// TurnId
// ---------------------------------------------------------------------------

/// Identifies one turn of a chat.
#[derive(Debug, Clone, Copy, PartialEq, Eq, Hash, Structural)]
pub struct TurnId(pub u128);

impl TurnId {
    /// A fresh random identifier.
    #[must_use]
    pub fn new_v4() -> (res: Self)
        ensures
            is_random_uuid(res.0),
            drawn(res.0),
    {
        Self(random_uuid())
    }

    /// The identifier with the given UUID.
    #[must_use]
    pub fn from_uuid(uuid: u128) -> (res: Self)
        ensures
            res == TurnId(uuid),
    {
        Self(uuid)
    }

    /// The UUID of the identifier.
    #[must_use]
    pub fn as_uuid(&self) -> (res: &u128)
        ensures
            *res == self.0,
    {
        &self.0
    }
}

// ---------------------------------------------------------------------------
// BufferId
// ---------------------------------------------------------------------------

/// Identifies an editor buffer.
#[derive(Debug, Clone, Copy, PartialEq, Eq, Hash, Structural)]
pub struct BufferId(pub u128);

impl BufferId {
    /// A fresh random identifier.
    #[must_use]
    pub fn new_v4() -> (res: Self)
        ensures
            is_random_uuid(res.0),
            drawn(res.0),
    {
        Self(random_uuid())
    }

    /// The identifier with the given UUID.
    #[must_use]
    pub fn from_uuid(uuid: u128) -> (res: Self)
        ensures
            res == BufferId(uuid),
    {
        Self(uuid)
    }

    /// The UUID of the identifier.
    #[must_use]
    pub fn as_uuid(&self) -> (res: &u128)
        ensures
            *res == self.0,
    {
        &self.0
    }
}

// ---------------------------------------------------------------------------
// TerminalPaneId
// ---------------------------------------------------------------------------

/// Identifies a terminal pane.
#[derive(Debug, Clone, Copy, PartialEq, Eq, Hash, Structural)]
pub struct TerminalPaneId(pub u128);

impl TerminalPaneId {
    /// A fresh random identifier.
    #[must_use]
    pub fn new_v4() -> (res: Self)
        ensures
            is_random_uuid(res.0),
            drawn(res.0),
    {
        Self(random_uuid())
    }

    /// The identifier with the given UUID.
    #[must_use]
    pub fn from_uuid(uuid: u128) -> (res: Self)
        ensures
            res == TerminalPaneId(uuid),
    {
        Self(uuid)
    }

    /// The UUID of the identifier.
    #[must_use]
    pub fn as_uuid(&self) -> (res: &u128)
        ensures
            *res == self.0,
    {
        &self.0
    }
}

// ---------------------------------------------------------------------------
// PaneId
// ---------------------------------------------------------------------------

/// Identifies a pane of the home shell layout.
#[derive(Debug, Clone, Copy, PartialEq, Eq, Hash, Structural)]
pub struct PaneId(pub u128);

impl PaneId {
    /// A fresh random identifier.
    #[must_use]
    pub fn new_v4() -> (res: Self)
        ensures
            is_random_uuid(res.0),
            drawn(res.0),
    {
        Self(random_uuid())
    }

    /// The identifier with the given UUID.
    #[must_use]
    pub fn from_uuid(uuid: u128) -> (res: Self)
        ensures
            res == PaneId(uuid),
    {
        Self(uuid)
    }

    /// The UUID of the identifier.
    #[must_use]
    pub fn as_uuid(&self) -> (res: &u128)
        ensures
            *res == self.0,
    {
        &self.0
    }
}

// ---------------------------------------------------------------------------
// SessionId
// ---------------------------------------------------------------------------

/// Identifies a session of a workspace.
#[derive(Debug, Clone, Copy, PartialEq, Eq, Hash, Structural)]
pub struct SessionId(pub u128);

impl SessionId {
    /// A fresh random identifier.
    #[must_use]
    pub fn new_v4() -> (res: Self)
        ensures
            is_random_uuid(res.0),
            drawn(res.0),
    {
        Self(random_uuid())
    }

    /// The identifier with the given UUID.
    #[must_use]
    pub fn from_uuid(uuid: u128) -> (res: Self)
        ensures
            res == SessionId(uuid),
    {
        Self(uuid)
    }

    /// The UUID of the identifier.
    #[must_use]
    pub fn as_uuid(&self) -> (res: &u128)
        ensures
            *res == self.0,
    {
        &self.0
    }
}

// ---------------------------------------------------------------------------
// AttachmentId
// ---------------------------------------------------------------------------

/// Identifies an attachment of a chat.
#[derive(Debug, Clone, Copy, PartialEq, Eq, Hash, Structural)]
pub struct AttachmentId(pub u128);

impl AttachmentId {
    /// A fresh random identifier.
    #[must_use]
    pub fn new_v4() -> (res: Self)
        ensures
            is_random_uuid(res.0),
            drawn(res.0),
    {
        Self(random_uuid())
    }

    /// The identifier with the given UUID.
    #[must_use]
    pub fn from_uuid(uuid: u128) -> (res: Self)
        ensures
            res == AttachmentId(uuid),
    {
        Self(uuid)
    }

    /// The UUID of the identifier.
    #[must_use]
    pub fn as_uuid(&self) -> (res: &u128)
        ensures
            *res == self.0,
    {
        &self.0
    }
}

// ---------------------------------------------------------------------------
// PermissionGrantId
// ---------------------------------------------------------------------------

/// Identifies a stored permission grant.
#[derive(Debug, Clone, Copy, PartialEq, Eq, Hash, Structural)]
pub struct PermissionGrantId(pub u128);

impl PermissionGrantId {
    /// A fresh random identifier.
    #[must_use]
    pub fn new_v4() -> (res: Self)
        ensures
            is_random_uuid(res.0),
            drawn(res.0),
    {
        Self(random_uuid())
    }

    /// The identifier with the given UUID.
    #[must_use]
    pub fn from_uuid(uuid: u128) -> (res: Self)
        ensures
            res == PermissionGrantId(uuid),
    {
        Self(uuid)
    }

    /// The UUID of the identifier.
    #[must_use]
    pub fn as_uuid(&self) -> (res: &u128)
        ensures
            *res == self.0,
    {
        &self.0
    }
}

} // verus!
