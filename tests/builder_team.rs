use expense_forecast::builder::{Member, Role, TeamBuilder, TeamMember, UniqueEntityId};
use expense_forecast::error::{Error, NAME_TOO_SHORT, NO_MEMBERS, NO_NAME};
use uuid::{Uuid, Version};

#[test]
fn team_test_should_not_create_new_id() {
    if let Err(e) = UniqueEntityId::with_id("fake") {
        assert_eq!(e.to_string(), "invalid character: expected an optional prefix of `urn:uuid:` followed by [0-9a-fA-F-], found `k` at 3")
    } else {
        panic!("it has not thrown an error")
    }
}

#[test]
fn team_test_should_create_id() {
    let id = UniqueEntityId::new();
    let uuid = Uuid::try_parse(id.value()).unwrap();

    assert_eq!(uuid.get_version(), Some(Version::Random));
}

#[test]
fn team_test_should_create_with_id() {
    let expected_uuid = "5b3b22ec-5fdf-4a68-9880-1ca3eed22b82";

    let id = UniqueEntityId::with_id(expected_uuid).unwrap();
    let uuid = Uuid::try_parse(id.value()).unwrap();

    assert_eq!(uuid.get_version(), Some(Version::Random),);
    assert_eq!(id.value(), expected_uuid);
}

#[test]
fn team_test_should_not_create_member() {
    assert!(matches!(
        Member::new(""),
        Err(Error::EntityValidationError(
            "member without name is not allowed"
        ))
    ));
}

#[test]
fn team_test_should_create_member() {
    let member = Member::new("John Doe").unwrap();
    assert_eq!(member.name(), "John Doe");
}

#[test]
fn team_test_should_create_team_member() {
    let member = Member::new("John Doe").unwrap();

    let team_member = TeamMember::new(member.clone(), Role::Analyst);

    assert_eq!(team_member.member(), &member);
    assert_eq!(team_member.role(), Role::Analyst);
}

#[test]
fn team_test_should_create_team() {
    let team = TeamBuilder::new()
        .name("Technical Documentation")
        .member(TeamMember::new(
            Member::new("John Doe").unwrap(),
            Role::Leader,
        ))
        .build()
        .unwrap();

    assert_eq!(
        Uuid::try_parse(team.id().value()).unwrap().get_version(),
        Some(Version::Random)
    );
    assert_eq!(team.name(), "Technical Documentation");
    assert_eq!(team.members().len(), 1);
    assert_eq!(team.members()[0].member().name(), "John Doe");
    assert_eq!(team.members()[0].role(), Role::Leader);
}

#[test]
fn team_test_should_create_team_with_id() {
    let team = TeamBuilder::new()
        .id("5b3b22ec-5fdf-4a68-9880-1ca3eed22b82")
        .name("Technical Documentation")
        .member(TeamMember::new(
            Member::new("John Doe").unwrap(),
            Role::Leader,
        ))
        .build()
        .unwrap();

    assert_eq!(
        Uuid::try_parse(team.id().value()).unwrap().get_version(),
        Some(Version::Random)
    );
    assert_eq!(team.id().value(), "5b3b22ec-5fdf-4a68-9880-1ca3eed22b82");
    assert_eq!(
        team.id(),
        &UniqueEntityId::with_id("5b3b22ec-5fdf-4a68-9880-1ca3eed22b82").unwrap()
    );
    assert_eq!(team.name(), "Technical Documentation");
    assert_eq!(team.members().len(), 1);
    assert_eq!(team.members()[0].member().name(), "John Doe");
    assert_eq!(team.members()[0].role(), Role::Leader);
}

fn john() -> TeamMember {
    TeamMember::new(Member::new("John Doe").unwrap(), Role::Leader)
}

#[test]
fn builder_without_name_fails() {
    let r = TeamBuilder::new().member(john()).build();
    assert!(matches!(r, Err(Error::EntityValidationError(m)) if m == NO_NAME));
}

#[test]
fn builder_without_members_fails() {
    let r = TeamBuilder::new().name("Engineering").build();
    assert!(matches!(r, Err(Error::EntityValidationError(m)) if m == NO_MEMBERS));
}

#[test]
fn builder_reports_missing_members_before_short_name() {
    let r = TeamBuilder::new().name("Eng").build();
    assert!(matches!(r, Err(Error::EntityValidationError("No members"))));
}

#[test]
fn builder_with_short_name_fails() {
    let r = TeamBuilder::new().name("Eng").member(john()).build();
    assert!(matches!(r, Err(Error::EntityValidationError(m)) if m == NAME_TOO_SHORT));
}

#[test]
fn builder_with_bad_id_fails_first() {
    let r = TeamBuilder::new().id("fake").build();
    assert!(matches!(r, Err(Error::UUID(_))));
}

#[test]
fn builder_keeps_member_order() {
    let jane = TeamMember::new(Member::new("Jane Roe").unwrap(), Role::Manager);
    let team = TeamBuilder::new()
        .name("Engineering")
        .member(john())
        .member(jane.clone())
        .build()
        .unwrap();
    assert_eq!(team.members(), &vec![john(), jane]);
}
