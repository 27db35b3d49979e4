use ticketing::domain::pagination::PageRequest;
use ticketing::repository::query::{partial_update, SqlValue};
use ticketing::repository::{
    category_list_queries, category_update_query, mark_used_query, unit_list_queries,
    unit_update_query, user_type_list_queries,
};
use ticketing::service::category_service::CategoryChanges;
use ticketing::service::unit_service::UnitChanges;

fn text(v: &SqlValue) -> Option<&str> {
    match v {
        SqlValue::Text(s) => Some(s.as_str()),
        _ => None,
    }
}

fn int_of(v: &SqlValue) -> Option<i64> {
    match v {
        SqlValue::Int(i) => Some(*i),
        _ => None,
    }
}

#[test]
fn plain_category_list() {
    let q = category_list_queries(&PageRequest::new(None, None, None, None));
    assert_eq!(q.count.sql, "SELECT COUNT(*) FROM categories");
    assert!(q.count.binds.is_empty());
    assert_eq!(
        q.page.sql,
        "SELECT id, name, hsn_code, is_active, created_at, updated_at FROM categories ORDER BY id ASC LIMIT ? OFFSET ?"
    );
    assert_eq!(q.page.binds.len(), 2);
    assert_eq!(int_of(&q.page.binds[0]), Some(25));
    assert_eq!(int_of(&q.page.binds[1]), Some(0));
}

#[test]
fn filtered_category_list() {
    let q = category_list_queries(&PageRequest::new(Some(3), Some(10), Some(" tea ".into()), Some(true)));
    assert_eq!(
        q.count.sql,
        "SELECT COUNT(*) FROM categories WHERE is_active = 1 AND (name LIKE ? OR hsn_code LIKE ?)"
    );
    assert_eq!(q.count.binds.len(), 2);
    assert_eq!(text(&q.count.binds[0]), Some("%tea%"));
    assert_eq!(text(&q.count.binds[1]), Some("%tea%"));
    assert!(q.page.sql.ends_with("WHERE is_active = 1 AND (name LIKE ? OR hsn_code LIKE ?) ORDER BY id ASC LIMIT ? OFFSET ?"));
    assert_eq!(int_of(&q.page.binds[2]), Some(10));
    assert_eq!(int_of(&q.page.binds[3]), Some(20));
}

#[test]
fn unit_and_user_type_lists() {
    let q = unit_list_queries(&PageRequest::new(None, None, Some("kg".into()), None));
    assert_eq!(q.count.sql, "SELECT COUNT(*) FROM units WHERE (unit_name LIKE ? OR unit_code LIKE ?)");
    let q = user_type_list_queries(&PageRequest::new(None, None, Some("adm".into()), Some(true)));
    assert_eq!(q.count.sql, "SELECT COUNT(*) FROM user_types WHERE is_active = 1 AND (name LIKE ?)");
    assert_eq!(q.count.binds.len(), 1);
    assert_eq!(
        q.page.sql,
        "SELECT id, name, is_active, created_at, updated_at FROM user_types WHERE is_active = 1 AND (name LIKE ?) ORDER BY id ASC LIMIT ? OFFSET ?"
    );
    let q = user_type_list_queries(&PageRequest::new(None, None, None, Some(true)));
    assert_eq!(q.count.sql, "SELECT COUNT(*) FROM user_types WHERE is_active = 1");
}

#[test]
fn partial_updates() {
    let q = category_update_query(5, &CategoryChanges { name: Some("Tea".into()), hsn_code: Some(None) });
    assert_eq!(
        q.sql,
        "UPDATE categories SET updated_at = datetime('now'), name = ?, hsn_code = ? WHERE id = ? RETURNING id, name, hsn_code, is_active, created_at, updated_at"
    );
    assert_eq!(q.binds.len(), 3);
    assert_eq!(text(&q.binds[0]), Some("Tea"));
    assert!(matches!(q.binds[1], SqlValue::Null));
    assert_eq!(int_of(&q.binds[2]), Some(5));

    let q = category_update_query(6, &CategoryChanges { name: None, hsn_code: None });
    assert_eq!(
        q.sql,
        "UPDATE categories SET updated_at = datetime('now') WHERE id = ? RETURNING id, name, hsn_code, is_active, created_at, updated_at"
    );
    assert_eq!(q.binds.len(), 1);

    let q = unit_update_query(7, &UnitChanges { unit_name: None, unit_code: Some("KG".into()) });
    assert_eq!(
        q.sql,
        "UPDATE units SET updated_at = datetime('now'), unit_code = ? WHERE id = ? RETURNING id, unit_name, unit_code, is_active, created_at, updated_at"
    );
    assert_eq!(text(&q.binds[0]), Some("KG"));
    assert_eq!(int_of(&q.binds[1]), Some(7));

    let q = partial_update("t", "id", Some(("a", SqlValue::Int(1))), Some(("b", SqlValue::Text("x".into()))), 9);
    assert_eq!(q.sql, "UPDATE t SET updated_at = datetime('now'), a = ?, b = ? WHERE id = ? RETURNING id");
}

#[test]
fn mark_used_touches_only_a_ticket_that_may_enter() {
    let q = mark_used_query(42);
    assert_eq!(
        q.sql,
        "UPDATE tickets SET status = 'used', used_at = datetime('now') \
         WHERE id = ? AND status NOT IN ('used', 'cancelled') \
         RETURNING id, uuid, ticket_code, invoice_id, valid_date, status, used_at, created_at"
    );
    assert_eq!(q.binds.len(), 1);
    assert_eq!(int_of(&q.binds[0]), Some(42));
}
