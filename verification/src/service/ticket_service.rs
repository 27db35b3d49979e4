//! Ticket rules: issuing a ticket with a unique code, looking one up, and
//! validating a ticket at the entrance, where an admitted ticket is marked used
//! so that it cannot enter twice.

use crate::domain::ticket::{ticket_entry_denial, Ticket, ValidationOutcome};
use crate::error::AppError;
use crate::sync::ids::{is_v4_uuid, random_uuid_bytes, simple_hex, uuid_simple};
use crate::text::{is_blank, trimmed};
use vstd::prelude::*;

verus! {

/// The reply to a validation at the entrance.
#[derive(Debug, Clone)]
pub struct ValidationResult {
    pub valid: bool,
    pub reason: String,
    pub ticket_code: Option<String>,
    pub valid_date: Option<String>,
}

/// A ticket may only be issued for a non-blank validity date.
pub fn check_valid_date(valid_date: &str) -> (r: Result<(), AppError>)
    ensures
        trimmed(valid_date@).len() == 0 ==> (r matches Err(AppError::Validation(m)) && m@
            == "valid_date is required"@),
        trimmed(valid_date@).len() != 0 ==> r is Ok,
{
    if is_blank(valid_date) {
        Err(AppError::Validation(String::from_str("valid_date is required")))
    } else {
        Ok(())
    }
}

/// The ticket code made from a UUID: `TKT-` and its 32 hexadecimal digits.
pub fn ticket_code_for(uuid: &[u8; 16]) -> (r: String)
    ensures
        r@ == "TKT-"@ + simple_hex(uuid@),
{
    let mut r = String::from_str("TKT-");
    let hex = uuid_simple(uuid);
    r.append(hex.as_str());
    r
}

/// A fresh ticket code from a random UUID.
pub fn new_ticket_code() -> (r: String)
    ensures
        exists|b: Seq<u8>| is_v4_uuid(b) && r@ == "TKT-"@ + #[trigger] simple_hex(b),
{
    let b = random_uuid_bytes();
    ticket_code_for(&b)
}

/// The ticket storage found, or "ticket not found".
pub fn found(ticket: Option<Ticket>) -> (r: Result<Ticket, AppError>)
    ensures
        ticket matches Some(t) ==> r == Ok::<Ticket, AppError>(t),
        ticket is None ==> (r matches Err(AppError::NotFound(w)) && w@ == "ticket"@),
{
    match ticket {
        Some(t) => Ok(t),
        None => Err(AppError::NotFound("ticket")),
    }
}

/// The reply when no ticket has the presented code.
pub fn not_found_result() -> (r: ValidationResult)
    ensures
        !r.valid,
        r.reason@ == "Ticket not found"@,
        r.ticket_code is None,
        r.valid_date is None,
{
    ValidationResult {
        valid: false,
        reason: String::from_str("Ticket not found"),
        ticket_code: None,
        valid_date: None,
    }
}

/// What the entrance does with a ticket that was found.
#[derive(Debug, Clone)]
pub enum EntryStep {
    /// Refuse entry with this reply; nothing is stored.
    Deny(ValidationResult),
    /// Admit: mark the ticket with this id used, then reply with the result.
    Admit { id: i64 },
}

/// Applies the entry rule to `ticket` on `today` (the local date as
/// "YYYY-MM-DD"): a refusal is answered at once, with its reason; an
/// admission asks storage to mark the ticket used first.
pub fn decide_entry(ticket: Ticket, today: &str) -> (r: EntryStep)
    ensures
        match r {
            EntryStep::Deny(v) => {
                &&& !v.valid
                &&& ticket_entry_denial(ticket, today@) == Some(v.reason@)
                &&& v.ticket_code == Some(ticket.ticket_code)
                &&& v.valid_date == Some(ticket.valid_date)
            },
            EntryStep::Admit { id } => {
                &&& ticket_entry_denial(ticket, today@) is None
                &&& id == ticket.id
            },
        },
{
    match ticket.evaluate_entry(today) {
        ValidationOutcome::Denied(reason) => EntryStep::Deny(
            ValidationResult {
                valid: false,
                reason,
                ticket_code: Some(ticket.ticket_code),
                valid_date: Some(ticket.valid_date),
            },
        ),
        ValidationOutcome::Granted => EntryStep::Admit { id: ticket.id },
    }
}

/// The reply once the admitted ticket has been marked used.
pub fn admitted_result(used: Ticket) -> (r: ValidationResult)
    ensures
        r.valid,
        r.reason@ == "Entry granted"@,
        r.ticket_code == Some(used.ticket_code),
        r.valid_date == Some(used.valid_date),
{
    ValidationResult {
        valid: true,
        reason: String::from_str("Entry granted"),
        ticket_code: Some(used.ticket_code),
        valid_date: Some(used.valid_date),
    }
}

} // verus!
