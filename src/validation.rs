//! Validators that turn raw input into domain values.

use vstd::prelude::*;
use vstd::string::StrSliceExecFns;

use crate::error::{Error, NAME_TOO_SHORT, NO_MEMBERS};

verus! {

/// The name rule of members and teams: longer than three characters, counted
/// as they stand, with no trimming.
pub open spec fn is_valid_name(s: Seq<char>) -> bool {
    s.len() > 3
}

/// Accepts a name longer than three characters and hands it back unchanged.
pub fn validate_name(name: String) -> (r: Result<String, Error>)
    ensures
        is_valid_name(name@) ==> r == Ok::<String, Error>(name),
        !is_valid_name(name@) ==> r == Err::<String, Error>(
            Error::EntityValidationError(NAME_TOO_SHORT),
        ),
{
    if name.as_str().unicode_len() <= 3 {
        return Err(Error::EntityValidationError(NAME_TOO_SHORT));
    }
    Ok(name)
}

/// Accepts a non-empty member list and hands it back unchanged.
pub fn validate_members<T>(members: Vec<T>) -> (r: Result<Vec<T>, Error>)
    ensures
        members@.len() > 0 ==> r == Ok::<Vec<T>, Error>(members),
        members@.len() == 0 ==> r == Err::<Vec<T>, Error>(
            Error::EntityValidationError(NO_MEMBERS),
        ),
{
    if members.len() == 0 {
        return Err(Error::EntityValidationError(NO_MEMBERS));
    }
    Ok(members)
}

} // verus!
