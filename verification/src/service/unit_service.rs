//! Unit rules: a required name and a required, unique code.

use crate::error::AppError;
use crate::text::{is_blank, joined3, text_option, trim, trimmed};
use vstd::prelude::*;

verus! {

/// A unit ready to be stored: name and code trimmed and non-blank.
#[derive(Debug, Clone)]
pub struct NewUnit {
    pub unit_name: String,
    pub unit_code: String,
}

/// The changes asked of a unit: `None` leaves a field as it is.
#[derive(Debug, Clone)]
pub struct UnitChanges {
    pub unit_name: Option<String>,
    pub unit_code: Option<String>,
}

/// The message refusing a unit code already taken.
pub open spec fn duplicate_code_message(code: Seq<char>) -> Seq<char> {
    "A unit with code '"@ + code + "' already exists"@
}

/// First step of creating a unit: name, then code, must not be blank. What
/// comes back still has to pass the uniqueness check of its code.
pub fn check_new(unit_name: &str, unit_code: &str) -> (r: Result<NewUnit, AppError>)
    ensures
        trimmed(unit_name@).len() == 0 ==> (r matches Err(AppError::Validation(m)) && m@
            == "Unit name is required"@),
        trimmed(unit_name@).len() != 0 && trimmed(unit_code@).len() == 0 ==> (r matches Err(
            AppError::Validation(m),
        ) && m@ == "Unit code is required"@),
        trimmed(unit_name@).len() != 0 && trimmed(unit_code@).len() != 0 ==> (r matches Ok(u)
            && u.unit_name@ == trimmed(unit_name@) && u.unit_code@ == trimmed(unit_code@)),
{
    let unit_name = trim(unit_name);
    let unit_code = trim(unit_code);
    if unit_name.as_str().unicode_len() == 0 {
        return Err(AppError::Validation(String::from_str("Unit name is required")));
    }
    if unit_code.as_str().unicode_len() == 0 {
        return Err(AppError::Validation(String::from_str("Unit code is required")));
    }
    Ok(NewUnit { unit_name, unit_code })
}

/// Second step of creating a unit, once storage has said whether the code is
/// taken: a taken code is refused, otherwise the unit is stored.
pub fn check_code_free(draft: NewUnit, code_taken: bool) -> (r: Result<NewUnit, AppError>)
    ensures
        code_taken ==> (r matches Err(AppError::Validation(m)) && m@ == duplicate_code_message(
            draft.unit_code@,
        )),
        !code_taken ==> r == Ok::<NewUnit, AppError>(draft),
{
    if code_taken {
        Err(AppError::Validation(joined3("A unit with code '", draft.unit_code.as_str(), "' already exists")))
    } else {
        Ok(draft)
    }
}

/// First step of updating a unit: a new name, then a new code, when given,
/// must not be blank. A new code still has to pass the uniqueness check
/// (excluding the unit itself).
pub fn check_changes(unit_name: Option<String>, unit_code: Option<String>) -> (r: Result<
    UnitChanges,
    AppError,
>)
    ensures
        (unit_name matches Some(n) && trimmed(n@).len() == 0) ==> (r matches Err(
            AppError::Validation(m),
        ) && m@ == "Unit name cannot be empty"@),
        !(unit_name matches Some(n) && trimmed(n@).len() == 0) && (unit_code matches Some(c)
            && trimmed(c@).len() == 0) ==> (r matches Err(AppError::Validation(m)) && m@
            == "Unit code cannot be empty"@),
        !(unit_name matches Some(n) && trimmed(n@).len() == 0) && !(unit_code matches Some(c)
            && trimmed(c@).len() == 0) ==> (r matches Ok(u) && text_option(u.unit_name)
            == match unit_name {
            Some(n) => Some(trimmed(n@)),
            None => None::<Seq<char>>,
        } && text_option(u.unit_code) == match unit_code {
            Some(c) => Some(trimmed(c@)),
            None => None::<Seq<char>>,
        }),
{
    let unit_name = match unit_name {
        Some(n) => {
            if is_blank(n.as_str()) {
                return Err(AppError::Validation(String::from_str("Unit name cannot be empty")));
            }
            Some(trim(n.as_str()))
        },
        None => None,
    };
    let unit_code = match unit_code {
        Some(c) => {
            if is_blank(c.as_str()) {
                return Err(AppError::Validation(String::from_str("Unit code cannot be empty")));
            }
            Some(trim(c.as_str()))
        },
        None => None,
    };
    Ok(UnitChanges { unit_name, unit_code })
}

/// Second step of updating a unit, once storage has said whether the new
/// code is taken by another unit: a taken code is refused.
pub fn check_new_code_free(changes: UnitChanges, code_taken: bool) -> (r: Result<
    UnitChanges,
    AppError,
>)
    ensures
        changes.unit_code matches Some(c) ==> (code_taken ==> (r matches Err(
            AppError::Validation(m),
        ) && m@ == duplicate_code_message(c@))),
        !(changes.unit_code is Some && code_taken) ==> r == Ok::<UnitChanges, AppError>(changes),
{
    match &changes.unit_code {
        Some(c) => {
            if code_taken {
                return Err(AppError::Validation(joined3("A unit with code '", c.as_str(), "' already exists")));
            }
        },
        None => {},
    }
    Ok(changes)
}

} // verus!
