use ticketing::domain::ticket::Ticket;
use ticketing::error::AppError;
use ticketing::service::category_service::{
    check_changes, check_name_free, check_new, check_new_name_free, normalize_opt,
};
use ticketing::service::ticket_service::{
    admitted_result, check_valid_date, decide_entry, found, new_ticket_code, not_found_result,
    ticket_code_for, EntryStep,
};
use ticketing::service::{unit_service, user_type_service};

fn validation(r: Result<impl std::fmt::Debug, AppError>) -> String {
    match r {
        Err(AppError::Validation(m)) => m,
        other => panic!("expected a validation error, got {:?}", other),
    }
}

#[test]
fn category_name_is_required_and_trimmed() {
    assert_eq!(validation(check_new("   ", None)), "Category name is required");
    let c = check_new("  Snacks ", Some("  ".into())).unwrap();
    assert_eq!(c.name, "Snacks");
    assert_eq!(c.hsn_code, None);
    let c = check_new("Drinks", Some(" 2202 ".into())).unwrap();
    assert_eq!(c.hsn_code.as_deref(), Some("2202"));
}

#[test]
fn category_name_must_be_free() {
    let c = check_new("Snacks", None).unwrap();
    assert_eq!(
        validation(check_name_free(c.clone(), true)),
        "A category named 'Snacks' already exists"
    );
    assert_eq!(check_name_free(c, false).unwrap().name, "Snacks");
}

#[test]
fn category_changes() {
    assert_eq!(validation(check_changes(Some(" ".into()), None)), "Category name cannot be empty");
    let ch = check_changes(Some(" Tea ".into()), Some(Some("  ".into()))).unwrap();
    assert_eq!(ch.name.as_deref(), Some("Tea"));
    assert_eq!(ch.hsn_code, Some(None));
    let ch = check_changes(None, None).unwrap();
    assert!(ch.name.is_none() && ch.hsn_code.is_none());
    let ch = check_changes(Some("Tea".into()), None).unwrap();
    assert_eq!(
        validation(check_new_name_free(ch.clone(), true)),
        "A category named 'Tea' already exists"
    );
    assert!(check_new_name_free(ch, false).is_ok());
    let none = check_changes(None, Some(None)).unwrap();
    assert!(check_new_name_free(none, true).is_ok());
}

#[test]
fn normalize_optional_text() {
    assert_eq!(normalize_opt(None), None);
    assert_eq!(normalize_opt(Some(" \t".into())), None);
    assert_eq!(normalize_opt(Some(" x ".into())).as_deref(), Some("x"));
}

#[test]
fn unit_rules() {
    assert_eq!(validation(unit_service::check_new(" ", "KG")), "Unit name is required");
    assert_eq!(validation(unit_service::check_new("Kilogram", " ")), "Unit code is required");
    assert_eq!(validation(unit_service::check_new(" ", " ")), "Unit name is required");
    let u = unit_service::check_new(" Kilogram ", " KG ").unwrap();
    assert_eq!((u.unit_name.as_str(), u.unit_code.as_str()), ("Kilogram", "KG"));
    assert_eq!(
        validation(unit_service::check_code_free(u.clone(), true)),
        "A unit with code 'KG' already exists"
    );
    assert!(unit_service::check_code_free(u, false).is_ok());

    assert_eq!(
        validation(unit_service::check_changes(Some("".into()), Some("".into()))),
        "Unit name cannot be empty"
    );
    assert_eq!(
        validation(unit_service::check_changes(None, Some(" ".into()))),
        "Unit code cannot be empty"
    );
    let ch = unit_service::check_changes(Some(" Gram".into()), Some("G ".into())).unwrap();
    assert_eq!(ch.unit_name.as_deref(), Some("Gram"));
    assert_eq!(ch.unit_code.as_deref(), Some("G"));
    assert_eq!(
        validation(unit_service::check_new_code_free(ch.clone(), true)),
        "A unit with code 'G' already exists"
    );
    let name_only = unit_service::check_changes(Some("Gram".into()), None).unwrap();
    assert!(unit_service::check_new_code_free(name_only, true).is_ok());
}

#[test]
fn user_type_rules() {
    assert_eq!(validation(user_type_service::check_new("  ")), "User type name is required");
    assert_eq!(validation(user_type_service::check_rename("")), "User type name cannot be empty");
    assert_eq!(user_type_service::check_new(" admin ").unwrap(), "admin");
    assert_eq!(user_type_service::check_rename("user ").unwrap(), "user");
    assert_eq!(
        validation(user_type_service::check_name_free("admin".into(), true)),
        "A user type named 'admin' already exists"
    );
    assert_eq!(user_type_service::check_name_free("admin".into(), false).unwrap(), "admin");
}

fn ticket(status: &str, valid_date: &str) -> Ticket {
    Ticket {
        id: 42,
        ticket_code: "TKT-abc".into(),
        invoice_id: Some(3),
        valid_date: valid_date.into(),
        status: status.into(),
        used_at: None,
        created_at: "2026-01-01 00:00:00".into(),
    }
}

#[test]
fn ticket_issue_rules() {
    assert_eq!(validation(check_valid_date("  ")), "valid_date is required");
    assert!(check_valid_date("2026-06-15").is_ok());
    let bytes = [0x12, 0x34, 0x56, 0x78, 0x9a, 0xbc, 0x4d, 0xef, 0x80, 0x01, 0x02, 0x03, 0x04, 0x05, 0x06, 0xff];
    assert_eq!(ticket_code_for(&bytes), "TKT-123456789abc4def80010203040506ff");
    let code = new_ticket_code();
    assert_eq!(code.len(), 36);
    assert!(code.starts_with("TKT-"));
    assert!(code[4..].chars().all(|c| c.is_ascii_hexdigit() && !c.is_ascii_uppercase()));
    assert_eq!(&code[16..17], "4");
    assert_ne!(new_ticket_code(), code);
}

#[test]
fn ticket_lookup() {
    assert_eq!(found(Some(ticket("active", "2026-06-15"))).unwrap().id, 42);
    assert!(matches!(found(None), Err(AppError::NotFound("ticket"))));
}

#[test]
fn entrance_decisions() {
    let r = not_found_result();
    assert!(!r.valid);
    assert_eq!(r.reason, "Ticket not found");
    assert!(r.ticket_code.is_none() && r.valid_date.is_none());

    match decide_entry(ticket("active", "2026-06-15"), "2026-06-15") {
        EntryStep::Admit { id } => assert_eq!(id, 42),
        other => panic!("unexpected {:?}", other),
    }
    match decide_entry(ticket("used", "2026-06-15"), "2026-06-15") {
        EntryStep::Deny(v) => {
            assert!(!v.valid);
            assert_eq!(v.reason, "Already used at ");
            assert_eq!(v.ticket_code.as_deref(), Some("TKT-abc"));
            assert_eq!(v.valid_date.as_deref(), Some("2026-06-15"));
        }
        other => panic!("unexpected {:?}", other),
    }
    let granted = admitted_result(ticket("used", "2026-06-15"));
    assert!(granted.valid);
    assert_eq!(granted.reason, "Entry granted");
    assert_eq!(granted.ticket_code.as_deref(), Some("TKT-abc"));
}
