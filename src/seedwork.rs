//! The identity that every entity carries.

use vstd::prelude::*;

use crate::error::Error;
use crate::identity::{
    canonical_of, fresh_identity, is_canonical, is_identity_text, is_random_version,
    lemma_canonical_of_is_canonical, parse_identity,
};

verus! {

/// The text an identity is taken from, if one is supplied.
pub open spec fn source_of(id: Option<&str>) -> Option<Seq<char>> {
    match id {
        Some(s) => Some(s@),
        None => None,
    }
}

/// The text an identity is taken from, when the caller owns it.
pub open spec fn owned_source_of(id: Option<String>) -> Option<Seq<char>> {
    match id {
        Some(s) => Some(s@),
        None => None,
    }
}

/// Whether an identity can be made from the source: a fresh one always can.
pub open spec fn accepts_source(src: Option<Seq<char>>) -> bool {
    match src {
        Some(s) => is_identity_text(s),
        None => true,
    }
}

/// `v` is an identity made from the source: the canonical rendering of the
/// supplied text, or a fresh random one.
pub open spec fn identity_from(src: Option<Seq<char>>, v: Seq<char>) -> bool {
    &&& is_canonical(v)
    &&& match src {
        Some(s) => v == canonical_of(s),
        None => is_random_version(v),
    }
}

/// A UUID in canonical text: hyphenated, lower-case hex digits.
#[derive(Debug, PartialEq)]
pub struct UniqueEntityId {
    value: String,
}

impl View for UniqueEntityId {
    type V = Seq<char>;

    closed spec fn view(&self) -> Seq<char> {
        self.value@
    }
}

impl Clone for UniqueEntityId {
    fn clone(&self) -> (r: Self)
        ensures
            r == *self,
    {
        proof {
            use_type_invariant(self);
        }
        Self { value: self.value.clone() }
    }
}

impl UniqueEntityId {
    #[verifier::type_invariant]
    spec fn inv(&self) -> bool {
        is_canonical(self.value@)
    }

    /// Parses the supplied text, or makes a fresh random identity when none is
    /// supplied.
    pub fn new(id: Option<&str>) -> (r: Result<Self, Error>)
        ensures
            r is Ok <==> accepts_source(source_of(id)),
            r is Ok ==> identity_from(source_of(id), r->Ok_0@),
            r is Err ==> r->Err_0 is UUID,
    {
        match id {
            Some(text) => match parse_identity(text) {
                Ok(value) => {
                    proof {
                        lemma_canonical_of_is_canonical(text@);
                    }
                    Ok(Self { value })
                },
                Err(e) => Err(Error::UUID(e)),
            },
            None => Ok(Self { value: fresh_identity() }),
        }
    }

    /// The canonical text of the identity.
    pub fn value(&self) -> (r: &String)
        ensures
            r@ == self@,
            is_canonical(r@),
    {
        proof {
            use_type_invariant(self);
        }
        &self.value
    }
}

} // verus!
