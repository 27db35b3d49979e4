//! Category: backs the item form's category choice and the categories list
//! with its active toggle.

use vstd::prelude::*;

verus! {

/// A category row.
#[derive(Debug, Clone)]
pub struct Category {
    pub id: i64,
    pub name: String,
    pub hsn_code: Option<String>,
    pub is_active: bool,
    pub created_at: String,
    pub updated_at: String,
}

} // verus!
