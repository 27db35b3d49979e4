//! The transactional outbox: each change is queued in the same transaction
//! as the business write, carrying the record's UUID so that the server
//! upserts by record identity and a re-send never duplicates.

use crate::sync::identity::Identity;
use crate::sync::ids::{hex_digit, hyphenated_hex, is_v4_uuid, new_uuid};
use crate::text::owned;
use vstd::prelude::*;

verus! {

/// Operation recorded for a new record.
pub const OP_INSERT: &'static str = "insert";

/// Operation recorded for a changed record.
pub const OP_UPDATE: &'static str = "update";

/// Operation recorded for a removed record.
pub const OP_DELETE: &'static str = "delete";

/// The values of one queue row, as it is inserted with status `pending`.
#[derive(Debug, Clone)]
pub struct OutboxEntry {
    /// Unique to this queued change, and the same across its retries.
    pub idempotency_key: String,
    /// "ticket", "category", "unit" or "user_type".
    pub entity_type: String,
    /// The record's stable cross-device UUID.
    pub entity_id: String,
    /// `OP_INSERT`, `OP_UPDATE` or `OP_DELETE`.
    pub operation: String,
    /// The record's full intended state, as JSON.
    pub payload: String,
    pub tenant_id: String,
    pub device_id: String,
}

impl OutboxEntry {
    /// The queue row for a change to the record `entity_uuid`, stamped with
    /// this device's identity and a fresh idempotency key.
    pub fn new(
        identity: &Identity,
        entity_type: &str,
        entity_uuid: &str,
        operation: &str,
        payload: String,
    ) -> (r: Self)
        ensures
            r.entity_type@ == entity_type@,
            r.entity_id@ == entity_uuid@,
            r.operation@ == operation@,
            r.payload == payload,
            r.tenant_id == identity.tenant_id,
            r.device_id == identity.device_id,
            exists|b: Seq<u8>| is_v4_uuid(b) && #[trigger] hyphenated_hex(b) == r.idempotency_key@,
    {
        OutboxEntry {
            idempotency_key: new_uuid(),
            entity_type: owned(entity_type),
            entity_id: owned(entity_uuid),
            operation: owned(operation),
            payload,
            tenant_id: identity.tenant_id.clone(),
            device_id: identity.device_id.clone(),
        }
    }
}

/// How one character is written inside a JSON string: quote and backslash
/// are escaped, the control characters with a short escape take it, the other
/// control characters below U+0020 are written `\u00XX` (lowercase hex), and
/// every other character stands as it is.
pub open spec fn json_char(c: char) -> Seq<char> {
    let u = c as u32;
    if c == '"' {
        seq!['\\', '"']
    } else if c == '\\' {
        seq!['\\', '\\']
    } else if u == 0x08 {
        seq!['\\', 'b']
    } else if u == 0x0c {
        seq!['\\', 'f']
    } else if u == 0x0a {
        seq!['\\', 'n']
    } else if u == 0x0d {
        seq!['\\', 'r']
    } else if u == 0x09 {
        seq!['\\', 't']
    } else if u < 0x20 {
        seq!['\\', 'u', '0', '0', hex_digit((u / 16) as int), hex_digit((u % 16) as int)]
    } else {
        seq![c]
    }
}

/// The characters of a string, each written as inside a JSON string.
pub open spec fn json_escaped(s: Seq<char>) -> Seq<char>
    decreases s.len(),
{
    if s.len() == 0 {
        Seq::empty()
    } else {
        json_escaped(s.drop_last()) + json_char(s.last())
    }
}

/// The JSON text of a string: the escaped characters between double quotes.
pub open spec fn json_string(s: Seq<char>) -> Seq<char> {
    seq!['"'] + json_escaped(s) + seq!['"']
}

/// `serde_json::to_string` of a string, which cannot fail for a `str`.
#[verifier::external_body]
fn json_quote(s: &str) -> (r: String)
    ensures
        r@ == json_string(s@),
{
    match serde_json::to_string(s) {
        Ok(t) => t,
        Err(_) => String::new(),
    }
}

/// The payload queued when a record is deleted: a JSON object holding only
/// its UUID.
pub fn delete_payload(uuid: &str) -> (r: String)
    ensures
        r@ == "{\"uuid\":"@ + json_string(uuid@) + "}"@,
{
    let mut r = String::from_str("{\"uuid\":");
    let quoted = json_quote(uuid);
    r.append(quoted.as_str());
    r.append("}");
    r
}

} // verus!
