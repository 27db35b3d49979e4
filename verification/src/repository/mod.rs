//! The SQL of each entity's storage queries, built from plain values.

pub mod query;

use crate::domain::pagination::PageRequest;
use crate::service::category_service::CategoryChanges;
use crate::service::unit_service::UnitChanges;
use crate::text::text_option;
use query::{
    count_sql, filter_binds, list_queries, page_binds, page_sql, partial_update,
    req_filter, set_binds, set_clause, values_view, ListQueries, Query, SqlValue, SqlValueView,
};
use vstd::prelude::*;

verus! {

/// The columns of a category row.
pub const CATEGORY_COLUMNS: &'static str = "id, name, hsn_code, is_active, created_at, updated_at";

/// The columns of a unit row.
pub const UNIT_COLUMNS: &'static str = "id, unit_name, unit_code, is_active, created_at, updated_at";

/// The columns of a user type row.
pub const USER_TYPE_COLUMNS: &'static str = "id, name, is_active, created_at, updated_at";

/// The columns of a ticket row.
pub const TICKET_COLUMNS: &'static str =
    "id, uuid, ticket_code, invoice_id, valid_date, status, used_at, created_at";

/// The queries of a categories page: search by name or HSN code.
pub fn category_list_queries(req: &PageRequest) -> (r: ListQueries)
    requires
        (req.page - 1) * req.per_page <= i64::MAX,
    ensures
        r.count.sql@ == count_sql("categories"@, req_filter(*req, "name"@, Some("hsn_code"@))),
        values_view(r.count.binds@) == filter_binds(text_option(req.search), Some("hsn_code"@)),
        r.page.sql@ == page_sql(
            CATEGORY_COLUMNS@,
            "categories"@,
            req_filter(*req, "name"@, Some("hsn_code"@)),
        ),
        values_view(r.page.binds@) == page_binds(*req, Some("hsn_code"@)),
{
    list_queries("categories", CATEGORY_COLUMNS, "name", Some("hsn_code"), req)
}

/// The queries of a units page: search by name or code.
pub fn unit_list_queries(req: &PageRequest) -> (r: ListQueries)
    requires
        (req.page - 1) * req.per_page <= i64::MAX,
    ensures
        r.count.sql@ == count_sql("units"@, req_filter(*req, "unit_name"@, Some("unit_code"@))),
        values_view(r.count.binds@) == filter_binds(text_option(req.search), Some("unit_code"@)),
        r.page.sql@ == page_sql(
            UNIT_COLUMNS@,
            "units"@,
            req_filter(*req, "unit_name"@, Some("unit_code"@)),
        ),
        values_view(r.page.binds@) == page_binds(*req, Some("unit_code"@)),
{
    list_queries("units", UNIT_COLUMNS, "unit_name", Some("unit_code"), req)
}

/// The queries of a user types page: search by name.
pub fn user_type_list_queries(req: &PageRequest) -> (r: ListQueries)
    requires
        (req.page - 1) * req.per_page <= i64::MAX,
    ensures
        r.count.sql@ == count_sql("user_types"@, req_filter(*req, "name"@, None)),
        values_view(r.count.binds@) == filter_binds(text_option(req.search), None),
        r.page.sql@ == page_sql(USER_TYPE_COLUMNS@, "user_types"@, req_filter(*req, "name"@, None)),
        values_view(r.page.binds@) == page_binds(*req, None),
{
    list_queries("user_types", USER_TYPE_COLUMNS, "name", None, req)
}

/// The partial update of category `id`: a new name and an HSN code change
/// (`Some(None)` clears it) only when given.
pub fn category_update_query(id: i64, changes: &CategoryChanges) -> (r: Query)
    ensures
        ({
            let name = match changes.name {
                Some(n) => Some(("name"@, SqlValueView::Text(n@))),
                None => None,
            };
            let hsn = match changes.hsn_code {
                Some(Some(h)) => Some(("hsn_code"@, SqlValueView::Text(h@))),
                Some(None) => Some(("hsn_code"@, SqlValueView::Null)),
                None => None,
            };
            &&& r.sql@ == "UPDATE "@ + "categories"@ + " SET updated_at = datetime('now')"@
                + set_clause(name) + set_clause(hsn) + " WHERE id = ?"@ + " RETURNING "@
                + CATEGORY_COLUMNS@
            &&& values_view(r.binds@) == set_binds(name) + set_binds(hsn) + seq![
                SqlValueView::Int(id),
            ]
        }),
{
    let name = match &changes.name {
        Some(n) => Some(("name", SqlValue::Text(n.clone()))),
        None => None,
    };
    let hsn = match &changes.hsn_code {
        Some(Some(h)) => Some(("hsn_code", SqlValue::Text(h.clone()))),
        Some(None) => Some(("hsn_code", SqlValue::Null)),
        None => None,
    };
    partial_update("categories", CATEGORY_COLUMNS, name, hsn, id)
}

/// The partial update of unit `id`: a new name and a new code only when given.
pub fn unit_update_query(id: i64, changes: &UnitChanges) -> (r: Query)
    ensures
        ({
            let name = match changes.unit_name {
                Some(n) => Some(("unit_name"@, SqlValueView::Text(n@))),
                None => None,
            };
            let code = match changes.unit_code {
                Some(c) => Some(("unit_code"@, SqlValueView::Text(c@))),
                None => None,
            };
            &&& r.sql@ == "UPDATE "@ + "units"@ + " SET updated_at = datetime('now')"@
                + set_clause(name) + set_clause(code) + " WHERE id = ?"@ + " RETURNING "@
                + UNIT_COLUMNS@
            &&& values_view(r.binds@) == set_binds(name) + set_binds(code) + seq![
                SqlValueView::Int(id),
            ]
        }),
{
    let name = match &changes.unit_name {
        Some(n) => Some(("unit_name", SqlValue::Text(n.clone()))),
        None => None,
    };
    let code = match &changes.unit_code {
        Some(c) => Some(("unit_code", SqlValue::Text(c.clone()))),
        None => None,
    };
    partial_update("units", UNIT_COLUMNS, name, code, id)
}

/// The statement that marks ticket `id` used and returns the row. It changes
/// the row only while the ticket may still enter (not used, not cancelled):
/// when two entrances race on one ticket, the second finds no row to mark and
/// gets nothing back, so the ticket is marked once.
pub fn mark_used_query(id: i64) -> (r: Query)
    ensures
        r.sql@ == "UPDATE tickets SET status = 'used', used_at = datetime('now')"@
            + " WHERE id = ? AND status NOT IN ('used', 'cancelled') RETURNING "@
            + TICKET_COLUMNS@,
        values_view(r.binds@) == seq![SqlValueView::Int(id)],
{
    let mut sql = String::from_str("UPDATE tickets SET status = 'used', used_at = datetime('now')");
    sql.append(" WHERE id = ? AND status NOT IN ('used', 'cancelled') RETURNING ");
    sql.append(TICKET_COLUMNS);
    let mut binds: Vec<SqlValue> = Vec::new();
    binds.push(SqlValue::Int(id));
    proof {
        assert(values_view(binds@) =~= seq![SqlValueView::Int(id)]);
    }
    Query { sql, binds }
}

} // verus!
