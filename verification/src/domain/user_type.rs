//! User type (such as "admin" or "user"): backs the user form's type choice
//! and the user types list.

use vstd::prelude::*;

verus! {

/// A user type row.
#[derive(Debug, Clone)]
pub struct UserType {
    pub id: i64,
    pub name: String,
    pub is_active: bool,
    pub created_at: String,
    pub updated_at: String,
}

} // verus!
