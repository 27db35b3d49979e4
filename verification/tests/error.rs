use ticketing::error::{AppError, CommandError};

#[test]
fn messages_follow_the_variant() {
    assert_eq!(AppError::Database("disk full".into()).message(), "database error: disk full");
    assert_eq!(AppError::Migration("bad".into()).message(), "migration error: bad");
    assert_eq!(AppError::NotFound("ticket").message(), "ticket not found");
    assert_eq!(AppError::Validation("x".into()).message(), "validation failed: x");
    assert_eq!(AppError::Config("y".into()).message(), "configuration error: y");
    assert_eq!(AppError::Internal("z".into()).message(), "z");
}

#[test]
fn command_error_carries_the_message() {
    let e = CommandError::from_error(AppError::NotFound("category"));
    assert_eq!(e.message, "category not found");
}
