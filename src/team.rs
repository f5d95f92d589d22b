//! The team aggregate: a named, non-empty list of member identities, with
//! members and their roles in the team.

pub mod aggregate;
pub mod member;
pub mod member_id_vo;
pub mod team_member;

pub use self::aggregate::{lemma_empty_members_rejected, props_verdict, Team, TeamMemberId, TeamProps};
pub use self::member::Member;
pub use self::member_id_vo::MemberId;
pub use self::team_member::{Role, TeamMember};
