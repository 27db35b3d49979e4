//! User type rules: a required, unique name.

use crate::error::AppError;
use crate::text::{joined3, trim, trimmed};
use vstd::prelude::*;

verus! {

/// The message refusing a user type name already taken.
pub open spec fn duplicate_name_message(name: Seq<char>) -> Seq<char> {
    "A user type named '"@ + name + "' already exists"@
}

/// First step of creating a user type: the trimmed name must not be empty.
pub fn check_new(name: &str) -> (r: Result<String, AppError>)
    ensures
        trimmed(name@).len() == 0 ==> (r matches Err(AppError::Validation(m)) && m@
            == "User type name is required"@),
        trimmed(name@).len() != 0 ==> (r matches Ok(n) && n@ == trimmed(name@)),
{
    let name = trim(name);
    if name.as_str().unicode_len() == 0 {
        return Err(AppError::Validation(String::from_str("User type name is required")));
    }
    Ok(name)
}

/// First step of renaming a user type: the trimmed name must not be empty.
pub fn check_rename(name: &str) -> (r: Result<String, AppError>)
    ensures
        trimmed(name@).len() == 0 ==> (r matches Err(AppError::Validation(m)) && m@
            == "User type name cannot be empty"@),
        trimmed(name@).len() != 0 ==> (r matches Ok(n) && n@ == trimmed(name@)),
{
    let name = trim(name);
    if name.as_str().unicode_len() == 0 {
        return Err(AppError::Validation(String::from_str("User type name cannot be empty")));
    }
    Ok(name)
}

/// Second step of creating or renaming a user type, once storage has said
/// whether the name is taken (by another user type): a taken name is refused.
pub fn check_name_free(name: String, name_taken: bool) -> (r: Result<String, AppError>)
    ensures
        name_taken ==> (r matches Err(AppError::Validation(m)) && m@ == duplicate_name_message(
            name@,
        )),
        !name_taken ==> r == Ok::<String, AppError>(name),
{
    if name_taken {
        Err(AppError::Validation(joined3("A user type named '", name.as_str(), "' already exists")))
    } else {
        Ok(name)
    }
}

} // verus!
