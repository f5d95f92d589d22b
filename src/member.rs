//! A member that carries its own identity.

use vstd::prelude::*;

use crate::error::{Error, NAME_TOO_SHORT};
use crate::seedwork::{accepts_source, identity_from, source_of, UniqueEntityId};
use crate::validation::{is_valid_name, validate_name};

verus! {

/// A person with an identity and a name longer than three characters.
#[derive(Debug, PartialEq)]
pub struct Member {
    id: UniqueEntityId,
    name: String,
}

impl Clone for Member {
    fn clone(&self) -> (r: Self)
        ensures
            r == *self,
    {
        proof {
            use_type_invariant(self);
        }
        Member { id: self.id.clone(), name: self.name.clone() }
    }
}

impl Member {
    #[verifier::type_invariant]
    spec fn inv(&self) -> bool {
        is_valid_name(self.name@)
    }

    pub closed spec fn spec_id(&self) -> Seq<char> {
        self.id@
    }

    pub closed spec fn spec_name(&self) -> Seq<char> {
        self.name@
    }

    /// A member with a fresh identity.
    pub fn new(name: &str) -> (r: Result<Self, Error>)
        ensures
            r is Ok <==> is_valid_name(name@),
            !is_valid_name(name@) ==> r == Err::<Self, Error>(
                Error::EntityValidationError(NAME_TOO_SHORT),
            ),
            r is Ok ==> r->Ok_0.spec_name() == name@ && identity_from(None, r->Ok_0.spec_id()),
    {
        let id = match UniqueEntityId::new(None) {
            Ok(id) => id,
            Err(e) => return Err(e),
        };
        Member::build(name, id)
    }

    /// A member whose identity is parsed from `id`, or fresh when `id` is
    /// `None`. The identity is resolved before the name is checked.
    pub fn new_with_id(name: &str, id: Option<&str>) -> (r: Result<Self, Error>)
        ensures
            r is Ok <==> accepts_source(source_of(id)) && is_valid_name(name@),
            !accepts_source(source_of(id)) ==> r matches Err(Error::UUID(_)),
            accepts_source(source_of(id)) && !is_valid_name(name@) ==> r == Err::<Self, Error>(
                Error::EntityValidationError(NAME_TOO_SHORT),
            ),
            r is Ok ==> r->Ok_0.spec_name() == name@ && identity_from(
                source_of(id),
                r->Ok_0.spec_id(),
            ),
    {
        let id = match UniqueEntityId::new(id) {
            Ok(id) => id,
            Err(e) => return Err(e),
        };
        Member::build(name, id)
    }

    fn build(name: &str, id: UniqueEntityId) -> (r: Result<Self, Error>)
        ensures
            is_valid_name(name@) ==> (r matches Ok(m) && m.spec_name() == name@ && m.spec_id()
                == id@),
            !is_valid_name(name@) ==> r == Err::<Self, Error>(
                Error::EntityValidationError(NAME_TOO_SHORT),
            ),
    {
        let name = match validate_name(name.to_owned()) {
            Ok(name) => name,
            Err(e) => return Err(e),
        };
        Ok(Self { id, name })
    }

    pub fn id(&self) -> (r: &UniqueEntityId)
        ensures
            r@ == self.spec_id(),
    {
        &self.id
    }

    pub fn name(&self) -> (r: &String)
        ensures
            r@ == self.spec_name(),
            is_valid_name(r@),
    {
        proof {
            use_type_invariant(self);
        }
        &self.name
    }
}

} // verus!
