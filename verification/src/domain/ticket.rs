//! Ticket entity and the entry rule.

use crate::text::{same_text, text_option};
use vstd::prelude::*;

verus! {

/// The lifecycle states a ticket can be in.
#[derive(Debug, Clone, PartialEq, Eq, Structural)]
pub enum TicketStatus {
    Active,
    Used,
    Cancelled,
}

/// The stored text of each status.
pub open spec fn status_text(s: TicketStatus) -> Seq<char> {
    match s {
        TicketStatus::Active => "active"@,
        TicketStatus::Used => "used"@,
        TicketStatus::Cancelled => "cancelled"@,
    }
}

impl TicketStatus {
    /// The stored text of this status.
    pub fn as_str(&self) -> (r: &'static str)
        ensures
            r@ == status_text(*self),
    {
        match self {
            TicketStatus::Active => "active",
            TicketStatus::Used => "used",
            TicketStatus::Cancelled => "cancelled",
        }
    }
}

/// A ticket as stored and exchanged.
#[derive(Debug, Clone)]
pub struct Ticket {
    pub id: i64,
    pub ticket_code: String,
    pub invoice_id: Option<i64>,
    pub valid_date: String,
    pub status: String,
    pub used_at: Option<String>,
    pub created_at: String,
}

/// The decision on a ticket presented for entry, before anything is stored.
pub enum ValidationOutcome {
    Granted,
    Denied(String),
}

/// Why a ticket with these facts is refused entry on `today`, or `None` when
/// it may enter: cancelled and used tickets are refused, and so is any
/// ticket not valid on `today`.
pub open spec fn entry_denial(
    status: Seq<char>,
    valid_date: Seq<char>,
    used_at: Option<Seq<char>>,
    today: Seq<char>,
) -> Option<Seq<char>> {
    if status == "cancelled"@ {
        Some("Ticket has been cancelled"@)
    } else if status == "used"@ {
        Some(
            "Already used at "@ + match used_at {
                Some(u) => u,
                None => Seq::empty(),
            },
        )
    } else if valid_date != today {
        Some("Not valid today (valid on "@ + valid_date + ")"@)
    } else {
        None
    }
}

/// The entry decision for `t` on `today`.
pub open spec fn ticket_entry_denial(t: Ticket, today: Seq<char>) -> Option<Seq<char>> {
    entry_denial(t.status@, t.valid_date@, text_option(t.used_at), today)
}

impl Ticket {
    /// Decides whether this ticket may enter on `today` ("YYYY-MM-DD"),
    /// without changing anything.
    pub fn evaluate_entry(&self, today: &str) -> (r: ValidationOutcome)
        ensures
            match r {
                ValidationOutcome::Granted => ticket_entry_denial(*self, today@) is None,
                ValidationOutcome::Denied(m) => ticket_entry_denial(*self, today@) == Some(m@),
            },
    {
        if same_text(self.status.as_str(), "cancelled") {
            ValidationOutcome::Denied(String::from_str("Ticket has been cancelled"))
        } else if same_text(self.status.as_str(), "used") {
            let mut m = String::from_str("Already used at ");
            match &self.used_at {
                Some(u) => m.append(u.as_str()),
                None => {
                    assert(m@ + Seq::<char>::empty() =~= m@);
                },
            }
            ValidationOutcome::Denied(m)
        } else if !same_text(self.valid_date.as_str(), today) {
            let mut m = String::from_str("Not valid today (valid on ");
            m.append(self.valid_date.as_str());
            m.append(")");
            ValidationOutcome::Denied(m)
        } else {
            ValidationOutcome::Granted
        }
    }
}

/// A ticket is granted entry exactly when it is neither cancelled nor used
/// and is valid on the day it is presented.
pub proof fn lemma_granted_exactly_when_valid_today(
    status: Seq<char>,
    valid_date: Seq<char>,
    used_at: Option<Seq<char>>,
    today: Seq<char>,
)
    ensures
        entry_denial(status, valid_date, used_at, today) is None <==> (status != "cancelled"@
            && status != "used"@ && valid_date == today),
{
}

/// A ticket that has been used is refused entry whatever the day, so a ticket
/// cannot enter twice; the same holds of a cancelled ticket.
pub proof fn lemma_used_or_cancelled_never_enters(
    valid_date: Seq<char>,
    used_at: Option<Seq<char>>,
    today: Seq<char>,
)
    ensures
        entry_denial(status_text(TicketStatus::Used), valid_date, used_at, today) is Some,
        entry_denial(status_text(TicketStatus::Cancelled), valid_date, used_at, today) is Some,
{
    reveal_strlit("used");
    reveal_strlit("cancelled");
}

} // verus!
