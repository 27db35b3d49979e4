//! Unit of measure: backs the sales, purchase and stock unit choices and the
//! units list.

use vstd::prelude::*;

verus! {

/// A unit row.
#[derive(Debug, Clone)]
pub struct Unit {
    pub id: i64,
    pub unit_name: String,
    pub unit_code: String,
    pub is_active: bool,
    pub created_at: String,
    pub updated_at: String,
}

} // verus!
