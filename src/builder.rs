//! A fluent builder for teams whose members are embedded, each with a role.

use vstd::prelude::*;

use crate::error::{Error, MEMBER_WITHOUT_NAME, NAME_TOO_SHORT, NO_MEMBERS, NO_NAME};
use crate::identity::{
    canonical_of, fresh_identity, is_canonical, is_identity_text, is_random_version,
    lemma_canonical_of_is_canonical, parse_identity,
};
use crate::seedwork::{accepts_source, identity_from};
use crate::validation::{is_valid_name, validate_members, validate_name};

pub use crate::team::Role;

verus! {

/// A UUID in canonical text: hyphenated, lower-case hex digits.
#[derive(Debug, PartialEq)]
pub struct UniqueEntityId {
    value: String,
}

impl View for UniqueEntityId {
    type V = Seq<char>;

    closed spec fn view(&self) -> Seq<char> {
        self.value@
    }
}

impl UniqueEntityId {
    #[verifier::type_invariant]
    spec fn inv(&self) -> bool {
        is_canonical(self.value@)
    }

    /// A fresh random identity.
    pub fn new() -> (r: Self)
        ensures
            is_canonical(r@),
            is_random_version(r@),
    {
        Self { value: fresh_identity() }
    }

    /// Parses `id` as a UUID and keeps its canonical text.
    pub fn with_id(id: &str) -> (r: Result<Self, Error>)
        ensures
            r is Ok <==> is_identity_text(id@),
            r is Ok ==> r->Ok_0@ == canonical_of(id@) && is_canonical(r->Ok_0@),
            r is Err ==> r->Err_0 is UUID,
    {
        match parse_identity(id) {
            Ok(value) => {
                proof {
                    lemma_canonical_of_is_canonical(id@);
                }
                Ok(Self { value })
            },
            Err(e) => Err(Error::UUID(e)),
        }
    }

    pub fn value(&self) -> (r: &String)
        ensures
            r@ == self@,
            is_canonical(r@),
    {
        proof {
            use_type_invariant(self);
        }
        &self.value
    }
}

/// A member known by name alone; any name but the empty one is accepted.
#[derive(Debug, PartialEq)]
pub struct Member {
    name: String,
}

impl Clone for Member {
    fn clone(&self) -> (r: Self)
        ensures
            r == *self,
    {
        proof {
            use_type_invariant(self);
        }
        Member { name: self.name.clone() }
    }
}

impl Member {
    #[verifier::type_invariant]
    spec fn inv(&self) -> bool {
        self.name@.len() > 0
    }

    pub closed spec fn spec_name(&self) -> Seq<char> {
        self.name@
    }

    pub fn new(name: &str) -> (r: Result<Self, Error>)
        ensures
            r is Ok <==> name@.len() > 0,
            name@.len() == 0 ==> r == Err::<Self, Error>(
                Error::EntityValidationError(MEMBER_WITHOUT_NAME),
            ),
            r is Ok ==> r->Ok_0.spec_name() == name@,
    {
        if name.is_empty() {
            return Err(Error::EntityValidationError(MEMBER_WITHOUT_NAME));
        }
        Ok(Self { name: name.to_owned() })
    }

    pub fn name(&self) -> (r: &String)
        ensures
            r@ == self.spec_name(),
            r@.len() > 0,
    {
        proof {
            use_type_invariant(self);
        }
        &self.name
    }
}

/// A member together with the role held in the team.
#[derive(Debug, PartialEq)]
pub struct TeamMember {
    member: Member,
    role: Role,
}

impl Clone for TeamMember {
    fn clone(&self) -> (r: Self)
        ensures
            r == *self,
    {
        TeamMember { member: self.member.clone(), role: self.role }
    }
}

impl TeamMember {
    pub closed spec fn spec_member(&self) -> Member {
        self.member
    }

    pub closed spec fn spec_role(&self) -> Role {
        self.role
    }

    pub fn new(member: Member, role: Role) -> (r: Self)
        ensures
            r.spec_member() == member,
            r.spec_role() == role,
    {
        Self { member, role }
    }

    pub fn member(&self) -> (r: &Member)
        ensures
            *r == self.spec_member(),
    {
        &self.member
    }

    pub fn role(&self) -> (r: Role)
        ensures
            r == self.spec_role(),
    {
        self.role
    }
}

/// A team with a name longer than three characters and at least one member.
#[derive(Debug)]
pub struct Team {
    id: UniqueEntityId,
    name: String,
    members: Vec<TeamMember>,
}

impl Team {
    #[verifier::type_invariant]
    spec fn inv(&self) -> bool {
        &&& is_valid_name(self.name@)
        &&& self.members@.len() > 0
    }

    pub closed spec fn spec_id(&self) -> Seq<char> {
        self.id@
    }

    pub closed spec fn spec_name(&self) -> Seq<char> {
        self.name@
    }

    pub closed spec fn spec_members(&self) -> Seq<TeamMember> {
        self.members@
    }

    pub fn id(&self) -> (r: &UniqueEntityId)
        ensures
            r@ == self.spec_id(),
    {
        &self.id
    }

    pub fn name(&self) -> (r: &String)
        ensures
            r@ == self.spec_name(),
            is_valid_name(r@),
    {
        proof {
            use_type_invariant(self);
        }
        &self.name
    }

    pub fn members(&self) -> (r: &Vec<TeamMember>)
        ensures
            r@ == self.spec_members(),
            r@.len() > 0,
    {
        proof {
            use_type_invariant(self);
        }
        &self.members
    }
}

/// Collects an optional identity, an optional name and members, then builds
/// a `Team` from them.
pub struct TeamBuilder {
    id: Option<String>,
    name: Option<String>,
    members: Vec<TeamMember>,
}

impl TeamBuilder {
    pub closed spec fn spec_id(&self) -> Option<Seq<char>> {
        match self.id {
            Some(s) => Some(s@),
            None => None,
        }
    }

    pub closed spec fn spec_name(&self) -> Option<Seq<char>> {
        match self.name {
            Some(s) => Some(s@),
            None => None,
        }
    }

    pub closed spec fn spec_members(&self) -> Seq<TeamMember> {
        self.members@
    }

    /// An empty builder: no identity, no name, no members.
    pub fn new() -> (r: Self)
        ensures
            r.spec_id() is None,
            r.spec_name() is None,
            r.spec_members().len() == 0,
    {
        TeamBuilder { id: None, name: None, members: Vec::new() }
    }

    /// Sets the identity text the team's identity is parsed from.
    pub fn id(&mut self, id: &str) -> (r: &mut Self)
        ensures
            (*r).spec_id() == Some(id@),
            (*r).spec_name() == old(self).spec_name(),
            (*r).spec_members() == old(self).spec_members(),
            *final(self) == *final(r),
    {
        self.id = Some(id.to_owned());
        self
    }

    /// Sets the team's name.
    pub fn name(&mut self, name: &str) -> (r: &mut Self)
        ensures
            (*r).spec_id() == old(self).spec_id(),
            (*r).spec_name() == Some(name@),
            (*r).spec_members() == old(self).spec_members(),
            *final(self) == *final(r),
    {
        self.name = Some(name.to_owned());
        self
    }

    /// Appends a member.
    pub fn member(&mut self, member: TeamMember) -> (r: &mut Self)
        ensures
            (*r).spec_id() == old(self).spec_id(),
            (*r).spec_name() == old(self).spec_name(),
            (*r).spec_members() == old(self).spec_members().push(member),
            *final(self) == *final(r),
    {
        self.members.push(member);
        self
    }

    /// Builds the team. The identity is resolved first, then the name must be
    /// present, then there must be a member, and last the name must be longer
    /// than three characters.
    pub fn build(&self) -> (r: Result<Team, Error>)
        ensures
            r is Ok <==> accepts_source(self.spec_id()) && self.spec_name() is Some
                && is_valid_name(self.spec_name()->Some_0) && self.spec_members().len() > 0,
            !accepts_source(self.spec_id()) ==> r matches Err(Error::UUID(_)),
            accepts_source(self.spec_id()) && self.spec_name() is None ==> r == Err::<
                Team,
                Error,
            >(Error::EntityValidationError(NO_NAME)),
            accepts_source(self.spec_id()) && self.spec_name() is Some
                && self.spec_members().len() == 0 ==> r == Err::<Team, Error>(
                Error::EntityValidationError(NO_MEMBERS),
            ),
            accepts_source(self.spec_id()) && self.spec_name() is Some
                && self.spec_members().len() > 0 && !is_valid_name(self.spec_name()->Some_0)
                ==> r == Err::<Team, Error>(Error::EntityValidationError(NAME_TOO_SHORT)),
            r is Ok ==> r->Ok_0.spec_name() == self.spec_name()->Some_0 && r->Ok_0.spec_members()
                == self.spec_members() && identity_from(self.spec_id(), r->Ok_0.spec_id()),
    {
        let id = match &self.id {
            Some(text) => match UniqueEntityId::with_id(text.as_str()) {
                Ok(id) => id,
                Err(e) => return Err(e),
            },
            None => UniqueEntityId::new(),
        };
        let name = match &self.name {
            Some(name) => name.clone(),
            None => return Err(Error::EntityValidationError(NO_NAME)),
        };
        let members = match validate_members(self.members.clone()) {
            Ok(members) => members,
            Err(e) => return Err(e),
        };
        assert(members@ =~= self.members@);
        let name = match validate_name(name) {
            Ok(name) => name,
            Err(e) => return Err(e),
        };
        Ok(Team { id, name, members })
    }
}

} // verus!
