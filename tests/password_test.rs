use mimir::{
    admin_login_outcome, check_password_length, identical_passwords, validate_admin_credentials,
    DomainError, Password,
};

fn validation_message(r: Result<Password, DomainError>) -> String {
    match r {
        Err(DomainError::UserValidationError(m)) => m,
        Err(other) => panic!("expected a validation error, got {:?}", other),
        Ok(_) => panic!("expected a validation error, got a password"),
    }
}

#[test]
fn empty_is_rejected() {
    let password = "".to_string();
    assert!(Password::parse(password).is_err());
}

#[test]
fn too_short_is_rejected() {
    let password = "pass123".to_string();
    assert!(Password::parse(password).is_err());
}

#[test]
fn too_long_is_rejected() {
    let password = "w00t".repeat(100);
    assert!(Password::parse(password).is_err());
}

#[test]
fn valid_is_accepted() {
    let password = "password123".to_string();
    assert!(Password::parse(password).is_ok());
}

#[test]
fn length_bounds_are_inclusive() {
    assert!(Password::parse("a".repeat(8)).is_ok());
    assert!(Password::parse("a".repeat(255)).is_ok());
    assert_eq!(
        validation_message(Password::parse("a".repeat(7))),
        "password must be at least 8 characters long."
    );
    assert_eq!(
        validation_message(Password::parse("a".repeat(256))),
        "password must be at most 255 characters long."
    );
}

#[test]
fn length_is_counted_in_graphemes() {
    // Eight user-perceived characters written with sixteen code points.
    let combined = "e\u{301}".repeat(8);
    assert_eq!(combined.chars().count(), 16);
    let p = Password::parse(combined.clone()).expect("eight graphemes are enough");
    assert_eq!(p.expose_password(), combined);
    // Seven graphemes are too few, however many code points they take.
    assert!(Password::parse("e\u{301}".repeat(7)).is_err());
    // 255 graphemes of two code points each are still accepted.
    assert!(Password::parse("e\u{301}".repeat(255)).is_ok());
}

#[test]
fn check_password_length_is_exact() {
    assert!(check_password_length(0).is_err());
    assert!(check_password_length(7).is_err());
    assert!(check_password_length(8).is_ok());
    assert!(check_password_length(255).is_ok());
    assert!(check_password_length(256).is_err());
}

#[test]
fn hash_then_verify_round_trips() {
    let p = Password::parse("correct horse battery".to_string()).unwrap();
    let hash = p.hash_password().unwrap();
    assert!(hash.starts_with("$argon2id$v=19$m=19456,t=2,p=1$"), "{}", hash);
    assert_eq!(identical_passwords(&hash, "correct horse battery").unwrap(), true);
    assert_eq!(identical_passwords(&hash, "correct horse battery!").unwrap(), false);
}

#[test]
fn two_hashes_of_one_password_differ() {
    let p = Password::parse("password123".to_string()).unwrap();
    let a = p.hash_password().unwrap();
    let b = p.hash_password().unwrap();
    assert_ne!(a, b);
    assert!(identical_passwords(&a, "password123").unwrap());
    assert!(identical_passwords(&b, "password123").unwrap());
}

#[test]
fn malformed_stored_hash_is_unexpected() {
    assert!(matches!(
        identical_passwords("not a hash", "password123"),
        Err(DomainError::UnexpectedError(_))
    ));
    assert!(matches!(
        validate_admin_credentials("not a hash", "password123"),
        Err(DomainError::UnexpectedError(_))
    ));
}

#[test]
fn admin_credentials_are_checked() {
    let stored = Password::parse("admin password".to_string())
        .unwrap()
        .hash_password()
        .unwrap();
    assert!(validate_admin_credentials(&stored, "admin password").is_ok());
    assert!(matches!(
        validate_admin_credentials(&stored, "guess guess"),
        Err(DomainError::AdminAuthError)
    ));
}

#[test]
fn login_outcome_maps_each_case() {
    assert!(admin_login_outcome(Ok(true)).is_ok());
    assert!(matches!(admin_login_outcome(Ok(false)), Err(DomainError::AdminAuthError)));
    match admin_login_outcome(Err(DomainError::UnexpectedError("boom".to_string()))) {
        Err(DomainError::UnexpectedError(m)) => assert_eq!(m, "boom"),
        other => panic!("unexpected {:?}", other),
    }
}

#[test]
fn error_messages() {
    assert_eq!(DomainError::AdminAuthError.message(), "Incorrect admin password");
    assert_eq!(
        DomainError::InvalidRegistrationToken.message(),
        "The registration token is not valid"
    );
    assert_eq!(DomainError::UserValidationError("x".to_string()).message(), "x");
    assert_eq!(DomainError::UnexpectedError("y".to_string()).message(), "y");
}
