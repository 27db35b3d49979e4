//! Category rules: a required, unique name; an optional HSN code where a
//! blank code means none.

use crate::error::AppError;
use crate::text::{is_blank, joined3, text_option, trim, trimmed, trimmed_non_blank};
use vstd::prelude::*;

verus! {

/// A category ready to be stored: name trimmed and non-blank, HSN code
/// trimmed and absent when blank.
#[derive(Debug, Clone)]
pub struct NewCategory {
    pub name: String,
    pub hsn_code: Option<String>,
}

/// The changes asked of a category: `None` leaves a field as it is; an HSN
/// code of `Some(None)` clears it.
#[derive(Debug, Clone)]
pub struct CategoryChanges {
    pub name: Option<String>,
    pub hsn_code: Option<Option<String>>,
}

/// The message refusing a category name already taken.
pub open spec fn duplicate_name_message(name: Seq<char>) -> Seq<char> {
    "A category named '"@ + name + "' already exists"@
}

/// Trims an optional text; a blank one counts as absent.
pub fn normalize_opt(value: Option<String>) -> (r: Option<String>)
    ensures
        text_option(r) == trimmed_non_blank(text_option(value)),
{
    match value {
        Some(s) => {
            let t = trim(s.as_str());
            if t.as_str().unicode_len() == 0 {
                None
            } else {
                Some(t)
            }
        },
        None => None,
    }
}

/// First step of creating a category: the trimmed name must not be empty.
/// What comes back still has to pass the uniqueness check of its name.
pub fn check_new(name: &str, hsn_code: Option<String>) -> (r: Result<NewCategory, AppError>)
    ensures
        trimmed(name@).len() == 0 ==> (r matches Err(AppError::Validation(m)) && m@
            == "Category name is required"@),
        trimmed(name@).len() != 0 ==> (r matches Ok(c) && c.name@ == trimmed(name@)
            && text_option(c.hsn_code) == trimmed_non_blank(text_option(hsn_code))),
{
    let name = trim(name);
    if name.as_str().unicode_len() == 0 {
        return Err(AppError::Validation(String::from_str("Category name is required")));
    }
    Ok(NewCategory { name, hsn_code: normalize_opt(hsn_code) })
}

/// Second step of creating a category, once storage has said whether the
/// name is taken: a taken name is refused, otherwise the category is stored.
pub fn check_name_free(draft: NewCategory, name_taken: bool) -> (r: Result<NewCategory, AppError>)
    ensures
        name_taken ==> (r matches Err(AppError::Validation(m)) && m@ == duplicate_name_message(
            draft.name@,
        )),
        !name_taken ==> r == Ok::<NewCategory, AppError>(draft),
{
    if name_taken {
        Err(AppError::Validation(joined3("A category named '", draft.name.as_str(), "' already exists")))
    } else {
        Ok(draft)
    }
}

/// First step of updating a category: a new name, when given, must not be
/// blank; the HSN code, when given, is normalised. A new name still has to
/// pass the uniqueness check (excluding the category itself).
pub fn check_changes(name: Option<String>, hsn_code: Option<Option<String>>) -> (r: Result<
    CategoryChanges,
    AppError,
>)
    ensures
        (name matches Some(n) && trimmed(n@).len() == 0) ==> (r matches Err(AppError::Validation(m))
            && m@ == "Category name cannot be empty"@),
        !(name matches Some(n) && trimmed(n@).len() == 0) ==> (r matches Ok(c) && text_option(c.name)
            == match name {
            Some(n) => Some(trimmed(n@)),
            None => None::<Seq<char>>,
        } && match (c.hsn_code, hsn_code) {
            (None, None) => true,
            (Some(new), Some(given)) => text_option(new) == trimmed_non_blank(text_option(given)),
            _ => false,
        }),
{
    let name = match name {
        Some(n) => {
            if is_blank(n.as_str()) {
                return Err(AppError::Validation(String::from_str("Category name cannot be empty")));
            }
            Some(trim(n.as_str()))
        },
        None => None,
    };
    let hsn_code = match hsn_code {
        Some(h) => Some(normalize_opt(h)),
        None => None,
    };
    Ok(CategoryChanges { name, hsn_code })
}

/// Second step of updating a category, once storage has said whether the
/// new name is taken by another category: a taken name is refused.
pub fn check_new_name_free(changes: CategoryChanges, name_taken: bool) -> (r: Result<
    CategoryChanges,
    AppError,
>)
    ensures
        changes.name matches Some(n) ==> (name_taken ==> (r matches Err(AppError::Validation(m))
            && m@ == duplicate_name_message(n@))),
        !(changes.name is Some && name_taken) ==> r == Ok::<CategoryChanges, AppError>(changes),
{
    match &changes.name {
        Some(n) => {
            if name_taken {
                return Err(AppError::Validation(joined3("A category named '", n.as_str(), "' already exists")));
            }
        },
        None => {},
    }
    Ok(changes)
}

} // verus!
