use hexagonal_users::error::DomainError;
use hexagonal_users::user::{Email, Timestamp, User, UserId};

#[test]
fn test_email_validation_valid() {
    let email = Email::new("test@example.com");
    assert!(email.is_ok());
    assert_eq!(email.unwrap().as_str(), "test@example.com");
}

#[test]
fn test_email_validation_uppercase_normalized() {
    let email = Email::new("Test@Example.COM").unwrap();
    assert_eq!(email.as_str(), "test@example.com");
}

#[test]
fn test_email_validation_empty() {
    let email = Email::new("");
    assert!(email.is_err());
}

#[test]
fn test_email_validation_no_at() {
    let email = Email::new("invalid-email");
    assert!(email.is_err());
}

#[test]
fn test_email_validation_no_domain_dot() {
    let email = Email::new("test@localhost");
    assert!(email.is_err());
}

#[test]
fn email_without_dot_in_short_domain_is_rejected() {
    assert!(matches!(Email::new("a@b"), Err(DomainError::ValidationError(_))));
}

#[test]
fn email_with_two_at_signs_is_rejected() {
    assert!(matches!(Email::new("a@b@c.com"), Err(DomainError::ValidationError(_))));
    assert!(matches!(Email::new("a@@b.com"), Err(DomainError::ValidationError(_))));
}

#[test]
fn email_with_empty_local_or_domain_part_is_rejected() {
    assert!(matches!(Email::new("@example.com"), Err(DomainError::ValidationError(_))));
    assert!(matches!(Email::new("user@"), Err(DomainError::ValidationError(_))));
}

#[test]
fn email_dot_must_follow_the_at_sign() {
    assert!(Email::new("first.last@localhost").is_err());
    assert_eq!(Email::new("a@.com").unwrap().as_str(), "a@.com");
}

#[test]
fn email_rejections_name_the_broken_rule() {
    match Email::new("") {
        Err(DomainError::ValidationError(m)) => assert_eq!(m, "Email cannot be empty"),
        _ => panic!("expected a validation error"),
    }
    match Email::new("invalid-email") {
        Err(DomainError::ValidationError(m)) => assert_eq!(m, "Email must contain @"),
        _ => panic!("expected a validation error"),
    }
    match Email::new("a@b@c.com") {
        Err(DomainError::ValidationError(m)) => assert_eq!(m, "Invalid email format"),
        _ => panic!("expected a validation error"),
    }
    match Email::new("test@localhost") {
        Err(DomainError::ValidationError(m)) => assert_eq!(m, "Email domain must contain a dot"),
        _ => panic!("expected a validation error"),
    }
}

#[test]
fn emails_compare_by_normalized_text() {
    let a = Email::new("User@Example.com").unwrap();
    let b = Email::new("user@example.COM").unwrap();
    assert_eq!(a, b);
    assert_eq!(a.to_string(), "user@example.com");
    assert_ne!(a, Email::new("other@example.com").unwrap());
}

#[test]
fn test_user_creation() {
    let email = Email::new("test@example.com").unwrap();
    let user = User::new(email, "Test User");

    assert_eq!(user.name, "Test User");
    assert_eq!(user.email.as_str(), "test@example.com");
}

#[test]
fn new_user_is_stamped_once() {
    let user = User::new(Email::new("test@example.com").unwrap(), "Test User");
    assert_eq!(user.created_at, user.updated_at);
    assert!(user.created_at.0 > 0);
}

#[test]
fn test_user_update_name() {
    let email = Email::new("test@example.com").unwrap();
    let mut user = User::new(email, "Old Name");
    let original_updated = user.updated_at;

    user.update_name("New Name");

    assert_eq!(user.name, "New Name");
    assert!(user.updated_at > original_updated);
}

#[test]
fn update_name_advances_even_when_clock_has_not_moved() {
    let mut user = User::new(Email::new("test@example.com").unwrap(), "Old Name");
    let stamp = user.updated_at;
    user.update_name_at("Renamed", stamp);
    assert_eq!(user.updated_at, Timestamp(stamp.0 + 1));
    user.update_name_at("Later", Timestamp(stamp.0 + 500));
    assert_eq!(user.updated_at, Timestamp(stamp.0 + 500));
    assert_eq!(user.name, "Later");
    assert_eq!(user.created_at, stamp);
}

#[test]
fn update_email_keeps_identity_and_refreshes_stamp() {
    let mut user = User::new(Email::new("old@example.com").unwrap(), "Name");
    let id = user.id;
    let before = user.updated_at;
    user.update_email(Email::new("new@example.com").unwrap());
    assert_eq!(user.email.as_str(), "new@example.com");
    assert_eq!(user.id, id);
    assert!(user.updated_at > before);
}

#[test]
fn refreshed_stamp_rules() {
    assert_eq!(Timestamp(10).refreshed(Timestamp(20)), Timestamp(20));
    assert_eq!(Timestamp(10).refreshed(Timestamp(10)), Timestamp(11));
    assert_eq!(Timestamp(10).refreshed(Timestamp(3)), Timestamp(11));
    assert_eq!(Timestamp(i64::MAX).refreshed(Timestamp(3)), Timestamp(i64::MAX));
}

#[test]
fn fresh_ids_are_version_four_and_distinct() {
    let a = UserId::new();
    let b = UserId::default();
    assert_ne!(a, b);
    assert_eq!((a.0 >> 76) & 0xF, 4);
    assert_eq!((a.0 >> 62) & 0x3, 2);
    assert_eq!(UserId::from_uuid(a.0), a);
}

#[test]
fn id_text_is_the_hyphenated_uuid() {
    let id = UserId::from_uuid(0x67e5_5044_10b1_426f_9247_bb68_0e5f_e0c8);
    assert_eq!(id.to_string(), "67e55044-10b1-426f-9247-bb680e5fe0c8");
    let parsed = uuid::Uuid::parse_str(&id.to_string()).unwrap();
    assert_eq!(parsed.as_u128(), id.0);
}

#[test]
fn domain_error_constructors_carry_their_message() {
    assert!(matches!(DomainError::validation("bad"), DomainError::ValidationError(m) if m == "bad"));
    assert!(matches!(DomainError::business_rule("rule"), DomainError::BusinessRuleViolation(m) if m == "rule"));
    assert!(matches!(DomainError::conflict("dup"), DomainError::Conflict(m) if m == "dup"));
    match DomainError::not_found("User", "key".to_string()) {
        DomainError::NotFound { entity_type, key } => {
            assert_eq!(entity_type, "User");
            assert_eq!(key, "key");
        }
        _ => panic!("expected not found"),
    }
}
