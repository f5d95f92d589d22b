use expense_forecast::error::Error;
use expense_forecast::team::Member;

#[test]
fn domain_member_test_should_not_create_member() {
    assert!(matches!(
        Member::new("", None),
        Err(Error::EntityValidationError(
            "name must be more than 3 characters"
        ))
    ));
}

#[test]
fn domain_member_test_should_create_member() {
    let member = Member::new("John Doe", None).unwrap();
    assert_eq!(member.name(), "John Doe");
}

#[test]
fn domain_member_with_id() {
    let member = Member::new("John Doe", Some("5b3b22ec-5fdf-4a68-9880-1ca3eed22b82".to_string())).unwrap();
    assert_eq!(member.id().value(), "5b3b22ec-5fdf-4a68-9880-1ca3eed22b82");
    assert!(matches!(Member::new("John Doe", Some("fake".to_string())), Err(Error::UUID(_))));
}
