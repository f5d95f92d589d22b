//! The identity by which a team refers to a member.

use vstd::prelude::*;

use crate::error::Error;
use crate::identity::{
    canonical_of, is_canonical, is_identity_text, lemma_canonical_of_is_canonical,
    parse_identity,
};

verus! {

/// A member's identity in canonical text.
#[derive(Debug, PartialEq)]
pub struct MemberId {
    value: String,
}

impl View for MemberId {
    type V = Seq<char>;

    closed spec fn view(&self) -> Seq<char> {
        self.value@
    }
}

impl Clone for MemberId {
    fn clone(&self) -> (r: Self)
        ensures
            r == *self,
    {
        proof {
            use_type_invariant(self);
        }
        MemberId { value: self.value.clone() }
    }
}

impl MemberId {
    #[verifier::type_invariant]
    spec fn inv(&self) -> bool {
        is_canonical(self.value@)
    }

    /// Parses `id` as a UUID and keeps its canonical text.
    pub fn new(id: &str) -> (r: Result<Self, Error>)
        ensures
            r is Ok <==> is_identity_text(id@),
            r is Ok ==> r->Ok_0@ == canonical_of(id@) && is_canonical(r->Ok_0@),
            r is Err ==> r->Err_0 is UUID,
    {
        match parse_identity(id) {
            Ok(value) => {
                proof {
                    lemma_canonical_of_is_canonical(id@);
                }
                Ok(MemberId { value })
            },
            Err(e) => Err(Error::UUID(e)),
        }
    }

    pub fn value(&self) -> (r: &String)
        ensures
            r@ == self@,
            is_canonical(r@),
    {
        proof {
            use_type_invariant(self);
        }
        &self.value
    }
}

} // verus!
