//! A member's place in a team: the member's identity and a role.

use vstd::prelude::*;

use crate::error::Error;
use crate::seedwork::{accepts_source, identity_from, source_of, UniqueEntityId};
use crate::team::member_id_vo::MemberId;

verus! {

/// The roles a member can hold in a team.
#[derive(Debug, Clone, Copy, PartialEq, Eq, Structural)]
pub enum Role {
    Manager,
    Leader,
    Analyst,
}

/// An identity-bearing association of a member with a role.
#[derive(Debug, PartialEq)]
pub struct TeamMember {
    id: UniqueEntityId,
    member_id: MemberId,
    role: Role,
}

impl TeamMember {
    pub closed spec fn spec_id(&self) -> Seq<char> {
        self.id@
    }

    pub closed spec fn spec_member_id(&self) -> MemberId {
        self.member_id
    }

    pub closed spec fn spec_role(&self) -> Role {
        self.role
    }

    /// An association with a fresh identity; it cannot fail.
    pub fn new(member_id: MemberId, role: Role) -> (r: Result<Self, Error>)
        ensures
            r is Ok,
            r->Ok_0.spec_member_id() == member_id,
            r->Ok_0.spec_role() == role,
            identity_from(None, r->Ok_0.spec_id()),
    {
        let id = match UniqueEntityId::new(None) {
            Ok(id) => id,
            Err(e) => return Err(e),
        };
        Ok(Self { id, member_id, role })
    }

    /// An association whose identity is parsed from `id`, or fresh when `id`
    /// is `None`.
    pub fn new_with_id(member_id: MemberId, role: Role, id: Option<&str>) -> (r: Result<
        Self,
        Error,
    >)
        ensures
            r is Ok <==> accepts_source(source_of(id)),
            r is Err ==> r->Err_0 is UUID,
            r is Ok ==> r->Ok_0.spec_member_id() == member_id && r->Ok_0.spec_role() == role
                && identity_from(source_of(id), r->Ok_0.spec_id()),
    {
        let id = match UniqueEntityId::new(id) {
            Ok(id) => id,
            Err(e) => return Err(e),
        };
        Ok(Self { id, member_id, role })
    }

    pub fn id(&self) -> (r: &UniqueEntityId)
        ensures
            r@ == self.spec_id(),
    {
        &self.id
    }

    pub fn member_id(&self) -> (r: &MemberId)
        ensures
            *r == self.spec_member_id(),
    {
        &self.member_id
    }

    pub fn role(&self) -> (r: Role)
        ensures
            r == self.spec_role(),
    {
        self.role
    }
}

} // verus!
