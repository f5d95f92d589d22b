//! The crate's error type and the fixed messages of its validation rules.

use vstd::prelude::*;
use vstd::string::StringExecFns;

use uuid::Error as UuidError;

use crate::identity::identity_error_text;

verus! {

/// A name is accepted only when it is longer than three characters.
pub const NAME_TOO_SHORT: &'static str = "name must be more than 3 characters";

/// A team needs at least one member.
pub const NO_MEMBERS: &'static str = "No members";

/// A team built without a name.
pub const NO_NAME: &'static str = "No name";

/// The minimal member accepts any name but the empty one.
pub const MEMBER_WITHOUT_NAME: &'static str = "member without name is not allowed";

#[derive(Debug)]
pub enum Error {
    /// A field failed a content or presence rule; the message names the rule.
    EntityValidationError(&'static str),
    /// A supplied identity text is not a UUID.
    UUID(UuidError),
}

impl Error {
    /// The message of a validation error, as it is shown to a user.
    pub open spec fn validation_text(m: Seq<char>) -> Seq<char> {
        "Entity Validation Error: '"@ + m + "'"@
    }

    /// Human-readable text of the error.
    pub fn to_string(&self) -> (r: String)
        ensures
            self matches Error::EntityValidationError(m) ==> r@ == Self::validation_text(m@),
    {
        match self {
            Error::EntityValidationError(m) => {
                let mut s = String::from_str("Entity Validation Error: '");
                s.append(m);
                s.append("'");
                s
            },
            Error::UUID(e) => identity_error_text(e),
        }
    }
}

} // verus!
