//! Stored attachments.

use vstd::prelude::*;

use crate::id;
use crate::id::AttachmentId;
use crate::numeral;
use crate::persistence::error::{PersistenceError, PersistenceErrorView};
use crate::persistence::types::Attachment;
use crate::store::sql;
use crate::store::turn;
use crate::text;
use crate::time;

verus! {

/// An attachment as it is stored, without its bytes.
#[derive(Debug, Clone, PartialEq, Eq)]
pub struct AttachmentRow {
    pub id: String,
    pub turn_id: Option<String>,
    /// The whole record, encoded.
    pub kind: String,
    pub mime: String,
    pub created_at: i64,
}

impl AttachmentRow {
    /// Whether this is how a record is stored with the given encoding.
    pub open spec fn stores(self, metadata: Attachment, encoded: String) -> bool {
        &&& self.id@ == id::uuid_text(metadata.id.0)
        &&& text::optional(self.turn_id) == turn::parent_text(metadata.turn_id)
        &&& self.kind == encoded
        &&& self.mime == metadata.mime_type
        &&& self.created_at == metadata.created_at.secs()
    }

    /// How a record is stored, given how encoding it went.
    pub fn from_attachment(metadata: &Attachment, encoded: Result<String, String>) -> (res: Result<
        Self,
        PersistenceError,
    >)
        ensures
            match encoded {
                Err(err) => res matches Err(e) && e@ == PersistenceErrorView::IoError(err@),
                Ok(text) => res matches Ok(row) && row.stores(*metadata, text)
                    && time::instant_exists(row.created_at as int, 0),
            },
    {
        let kind = match encoded {
            Ok(text) => text,
            Err(err) => {
                return Err(PersistenceError::IoError(err));
            },
        };
        let turn_id = match metadata.turn_id {
            Some(t) => Some(sql::id_to_string(t.0)),
            None => None,
        };
        Ok(
            Self {
                id: sql::id_to_string(metadata.id.0),
                turn_id,
                kind,
                mime: metadata.mime_type.clone(),
                created_at: metadata.created_at.timestamp(),
            },
        )
    }
}

/// Whether `a` is what a row is read as whose payload decodes to `decoded`.
pub open spec fn reads(
    id: Seq<char>,
    decoded: Attachment,
    created_at: i64,
    a: Attachment,
) -> bool {
    &&& a.id.0 == sql::uuid_or_nil(id)
    &&& a.created_at.secs() == created_at
    &&& a.created_at.nanos() == 0
    &&& a.chat_id == decoded.chat_id
    &&& a.turn_id == decoded.turn_id
    &&& a.filename == decoded.filename
    &&& a.mime_type == decoded.mime_type
    &&& a.size_bytes == decoded.size_bytes
    &&& a.content_hash == decoded.content_hash
}

/// The record of a row: what its payload decodes to, with the identity and the
/// second of the row's own columns. Or what is wrong with the row.
pub fn attachment_from_parts(id: &str, decoded: Attachment, created_at: i64) -> (res: Result<
    Attachment,
    String,
>)
    ensures
        match res {
            Ok(a) => time::instant_exists(created_at as int, 0) && reads(
                id@,
                decoded,
                created_at,
                a,
            ),
            Err(message) => !time::instant_exists(created_at as int, 0) && message@
                == "invalid timestamp: "@ + numeral::signed_decimal(created_at as int),
        },
{
    match sql::ts_to_datetime(created_at) {
        Err(message) => Err(message),
        Ok(at) => Ok(
            Attachment::new(
                AttachmentId::from_uuid(sql::read_uuid_or_nil(id)),
                decoded.chat_id,
                decoded.turn_id,
                decoded.filename,
                decoded.mime_type,
                decoded.size_bytes,
                decoded.content_hash,
                at,
            ),
        ),
    }
}

/// A stored record whose payload decodes to itself is read back, to the second.
pub proof fn law_attachment_reads_back(
    metadata: Attachment,
    encoded: String,
    row: AttachmentRow,
    back: Attachment,
)
    requires
        row.stores(metadata, encoded),
        reads(row.id@, metadata, row.created_at, back),
    ensures
        back.id == metadata.id,
        back.created_at.secs() == metadata.created_at.secs(),
        back.chat_id == metadata.chat_id,
        back.turn_id == metadata.turn_id,
        back.filename == metadata.filename,
        back.mime_type == metadata.mime_type,
        back.size_bytes == metadata.size_bytes,
        back.content_hash == metadata.content_hash,
{
    sql::law_stored_uuid_reads_back(metadata.id.0);
}

/// The bytes of an attachment, or the refusal where there are none.
pub fn bytes_or_refusal(id: &str, found: Option<Vec<u8>>) -> (res: Result<Vec<u8>, String>)
    ensures
        match found {
            Some(bytes) => res == Ok::<Vec<u8>, String>(bytes),
            None => res matches Err(message) && message@ == "not found: "@ + sql::record_name(
                "attachment"@,
                id@,
            ),
        },
{
    match found {
        Some(bytes) => Ok(bytes),
        None => Err(sql::missing("attachment", id)),
    }
}

} // verus!
