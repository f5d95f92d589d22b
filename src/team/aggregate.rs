//! The `Team` aggregate root and the properties it is made from.

use vstd::prelude::*;

use crate::error::{Error, NAME_TOO_SHORT, NO_MEMBERS};
use crate::identity::is_identity_text;
use crate::seedwork::{identity_from, UniqueEntityId};
use crate::team::member_id_vo::MemberId;
use crate::validation::{is_valid_name, validate_members, validate_name};

verus! {

/// A team refers to its members by identity.
pub type TeamMemberId = MemberId;

/// The raw input a team is made from or changed to.
#[derive(Default)]
pub struct TeamProps {
    pub name: String,
    pub team_members: Vec<TeamMemberId>,
}

/// What validating the properties gives: the name is checked first, then
/// the member list.
pub open spec fn props_verdict(props: TeamProps) -> Result<(), Error> {
    if !is_valid_name(props.name@) {
        Err(Error::EntityValidationError(NAME_TOO_SHORT))
    } else if props.team_members@.len() == 0 {
        Err(Error::EntityValidationError(NO_MEMBERS))
    } else {
        Ok(())
    }
}

/// An empty member list is rejected with the members error whenever the name
/// itself passes; an invalid name is reported first.
pub proof fn lemma_empty_members_rejected(props: TeamProps)
    requires
        props.team_members@.len() == 0,
        is_valid_name(props.name@),
    ensures
        props_verdict(props) == Err::<(), Error>(Error::EntityValidationError(NO_MEMBERS)),
{
}

/// A team with a name longer than three characters and at least one member.
#[derive(Debug)]
pub struct Team {
    id: UniqueEntityId,
    name: String,
    team_members: Vec<TeamMemberId>,
}

impl Team {
    #[verifier::type_invariant]
    spec fn inv(&self) -> bool {
        &&& is_valid_name(self.name@)
        &&& self.team_members@.len() > 0
    }

    pub closed spec fn spec_id(&self) -> Seq<char> {
        self.id@
    }

    pub closed spec fn spec_name(&self) -> Seq<char> {
        self.name@
    }

    pub closed spec fn spec_members(&self) -> Seq<TeamMemberId> {
        self.team_members@
    }

    /// A team with a fresh identity.
    pub fn new(props: TeamProps) -> (r: Result<Team, Error>)
        ensures
            r is Ok <==> props_verdict(props) is Ok,
            props_verdict(props) is Err ==> r == Err::<Team, Error>(
                props_verdict(props)->Err_0,
            ),
            r is Ok ==> r->Ok_0.spec_name() == props.name@ && r->Ok_0.spec_members()
                == props.team_members@ && identity_from(None, r->Ok_0.spec_id()),
    {
        let id = match UniqueEntityId::new(None) {
            Ok(id) => id,
            Err(e) => return Err(e),
        };
        Team::build(props, id)
    }

    /// A team whose identity is parsed from `id`; the identity is resolved
    /// before the properties are checked.
    pub fn new_with_id(props: TeamProps, id: &str) -> (r: Result<Team, Error>)
        ensures
            r is Ok <==> is_identity_text(id@) && props_verdict(props) is Ok,
            !is_identity_text(id@) ==> r matches Err(Error::UUID(_)),
            is_identity_text(id@) && props_verdict(props) is Err ==> r == Err::<Team, Error>(
                props_verdict(props)->Err_0,
            ),
            r is Ok ==> r->Ok_0.spec_name() == props.name@ && r->Ok_0.spec_members()
                == props.team_members@ && identity_from(Some(id@), r->Ok_0.spec_id()),
    {
        let id = match UniqueEntityId::new(Some(id)) {
            Ok(id) => id,
            Err(e) => return Err(e),
        };
        Team::build(props, id)
    }

    fn build(props: TeamProps, id: UniqueEntityId) -> (r: Result<Team, Error>)
        ensures
            props_verdict(props) is Err ==> r == Err::<Team, Error>(props_verdict(props)->Err_0),
            props_verdict(props) is Ok ==> (r matches Ok(t) && t.spec_name() == props.name@
                && t.spec_members() == props.team_members@ && t.spec_id() == id@),
    {
        let TeamProps { name, team_members } = props;
        let name = match validate_name(name) {
            Ok(name) => name,
            Err(e) => return Err(e),
        };
        let team_members = match validate_members(team_members) {
            Ok(members) => members,
            Err(e) => return Err(e),
        };
        Ok(Team { id, name, team_members })
    }

    /// Replaces the name and the members together, after checking both by the
    /// rules of construction. On an error the team is left as it was.
    pub fn change(&mut self, props: TeamProps) -> (r: Result<(), Error>)
        ensures
            r == props_verdict(props),
            r is Ok ==> final(self).spec_name() == props.name@ && final(self).spec_members()
                == props.team_members@ && final(self).spec_id() == old(self).spec_id(),
            r is Err ==> *final(self) == *old(self),
    {
        let TeamProps { name, team_members } = props;
        let name = match validate_name(name) {
            Ok(name) => name,
            Err(e) => return Err(e),
        };
        let team_members = match validate_members(team_members) {
            Ok(members) => members,
            Err(e) => return Err(e),
        };
        proof {
            use_type_invariant(&*self);
        }
        self.name = name;
        self.team_members = team_members;
        Ok(())
    }

    pub fn id(&self) -> (r: &UniqueEntityId)
        ensures
            r@ == self.spec_id(),
    {
        &self.id
    }

    pub fn name(&self) -> (r: &String)
        ensures
            r@ == self.spec_name(),
            is_valid_name(r@),
    {
        proof {
            use_type_invariant(self);
        }
        &self.name
    }

    pub fn team_members(&self) -> (r: &Vec<TeamMemberId>)
        ensures
            r@ == self.spec_members(),
            r@.len() > 0,
    {
        proof {
            use_type_invariant(self);
        }
        &self.team_members
    }
}

} // verus!
