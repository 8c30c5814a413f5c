use auth_backend::models::auth::LoginRequest;
use auth_backend::models::auth::RegisterRequest;
use auth_backend::models::user::ChangePasswordRequest;
use auth_backend::models::user::UpdateProfileRequest;
use auth_backend::utils::validation::validate_password_strength;
use auth_backend::utils::validation::validate_terms_accepted;
use auth_backend::utils::validation::ValidationErrors;

fn summary(errors: &ValidationErrors) -> Vec<(String, String, String)> {
    errors
        .errors
        .iter()
        .map(|error| (error.field.clone(), error.code.clone(), error.message.clone()))
        .collect()
}

fn refused(field: &str, code: &str, message: &str) -> (String, String, String) {
    (field.to_string(), code.to_string(), message.to_string())
}

#[test]
fn strong_passwords_are_accepted() {
    // All five points.
    assert!(validate_password_strength("Password1!").is_ok());
    // Four points: no special character.
    assert!(validate_password_strength("Password1").is_ok());
    // Four points: shorter than eight bytes.
    assert!(validate_password_strength("Pw1!").is_ok());
    // Four points: no upper-case letter.
    assert!(validate_password_strength("password1!").is_ok());
    // Four points: no digit.
    assert!(validate_password_strength("Password!").is_ok());
    // Four points: no lower-case letter.
    assert!(validate_password_strength("PASSWORD1!").is_ok());
}

#[test]
fn weak_passwords_are_refused() {
    for password in ["", "password", "Password", "12345678", "pass1", "PASS!", "!!!!!!!!!"] {
        let error = validate_password_strength(password).unwrap_err();
        assert_eq!(error.code, "weak_password");
    }
}

#[test]
fn every_special_character_counts() {
    for special in "!@#$%^&*()_+-=[]{}|;:,.<>?".chars() {
        let password = format!("Aa1{}", special);
        assert!(validate_password_strength(&password).is_ok());
    }
    for plain in ['/', '\\', '"', '\'', ' ', '~', '`'] {
        let password = format!("Aa1{}", plain);
        assert!(validate_password_strength(&password).is_err());
    }
}

#[test]
fn password_length_counts_bytes_and_classes_follow_unicode() {
    // Four characters of two bytes each: eight bytes, lower case, upper case.
    assert!(validate_password_strength("ééÉÉ").is_err());
    assert!(validate_password_strength("ééÉÉ1").is_ok());
    // An Arabic-Indic digit is numeric.
    assert!(validate_password_strength("Abcdefg\u{0663}").is_ok());
    assert!(validate_password_strength("Abcdefgh").is_err());
}

#[test]
fn the_terms_must_be_accepted() {
    assert!(validate_terms_accepted(&true).is_ok());
    assert_eq!(validate_terms_accepted(&false).unwrap_err().code, "terms_not_accepted");
}

#[test]
fn a_registration_of_the_right_shape_is_accepted() {
    let request = RegisterRequest {
        email: "a@x.com".to_string(),
        password: "Password1!".to_string(),
        confirm_password: "Password1!".to_string(),
        agree_to_terms: true,
    };
    assert!(request.validate().is_ok());
}

#[test]
fn every_refused_field_of_a_registration_is_listed_in_order() {
    let request = RegisterRequest {
        email: "not an email".to_string(),
        password: "short".to_string(),
        confirm_password: "other".to_string(),
        agree_to_terms: false,
    };
    let errors = request.validate().unwrap_err();
    assert_eq!(
        summary(&errors),
        vec![
            refused("email", "email", "Please enter a valid email address"),
            refused("password", "length", "Password must be at least 8 characters long"),
            refused("confirm_password", "must_match", "Passwords do not match"),
            refused(
                "agree_to_terms",
                "terms_not_accepted",
                "You must agree to the terms and conditions"
            ),
        ]
    );
}

#[test]
fn a_single_refused_field_is_listed_alone() {
    let valid = || RegisterRequest {
        email: "a@x.com".to_string(),
        password: "Password1!".to_string(),
        confirm_password: "Password1!".to_string(),
        agree_to_terms: true,
    };
    let errors = RegisterRequest { agree_to_terms: false, ..valid() }.validate().unwrap_err();
    assert_eq!(summary(&errors).len(), 1);
    assert_eq!(errors.errors[0].field, "agree_to_terms");
    let errors = RegisterRequest { confirm_password: "Password1?".to_string(), ..valid() }
        .validate()
        .unwrap_err();
    assert_eq!(summary(&errors).len(), 1);
    assert_eq!(errors.errors[0].code, "must_match");
    let errors = RegisterRequest { email: "".to_string(), ..valid() }.validate().unwrap_err();
    assert_eq!(summary(&errors).len(), 1);
    assert_eq!(errors.errors[0].code, "email");
}

#[test]
fn password_length_is_counted_in_characters() {
    let request = |password: &str| RegisterRequest {
        email: "a@x.com".to_string(),
        password: password.to_string(),
        confirm_password: password.to_string(),
        agree_to_terms: true,
    };
    assert!(request("12345678").validate().is_ok());
    assert!(request("1234567").validate().is_err());
    // Seven characters, fourteen bytes.
    assert!(request("ééééééé").validate().is_err());
    assert!(request("éééééééé").validate().is_ok());
}

#[test]
fn email_addresses_are_judged_by_their_shape() {
    let request = |email: &str| LoginRequest {
        email: email.to_string(),
        password: "p".to_string(),
        remember_me: false,
    };
    for email in ["a@x.com", "first.last@example.org", "a+b@sub.example.co", "a@localhost"] {
        assert!(request(email).validate().is_ok());
    }
    for email in ["", "a", "a@", "@x.com", "a b@x.com", "a@x..com", "a@-x.com"] {
        let errors = request(email).validate().unwrap_err();
        assert_eq!(
            summary(&errors),
            vec![refused("email", "email", "Please enter a valid email address")]
        );
    }
}

#[test]
fn a_login_needs_a_password() {
    let request =
        LoginRequest { email: "a@x.com".to_string(), password: "".to_string(), remember_me: true };
    let errors = request.validate().unwrap_err();
    assert_eq!(summary(&errors), vec![refused("password", "length", "Password is required")]);
    let request =
        LoginRequest { email: "x".to_string(), password: "".to_string(), remember_me: true };
    assert_eq!(summary(&request.validate().unwrap_err()).len(), 2);
}

#[test]
fn a_profile_update_needs_a_name_and_an_email() {
    let request = UpdateProfileRequest { name: "Ann".to_string(), email: "ann@x.com".to_string() };
    assert!(request.validate().is_ok());
    let request = UpdateProfileRequest { name: "".to_string(), email: "ann".to_string() };
    assert_eq!(
        summary(&request.validate().unwrap_err()),
        vec![
            refused("name", "length", "Name is required"),
            refused("email", "email", "Please enter a valid email address"),
        ]
    );
}

#[test]
fn a_password_change_is_checked_field_by_field() {
    let request = ChangePasswordRequest {
        current_password: "old".to_string(),
        new_password: "NewPassword1!".to_string(),
        confirm_password: "NewPassword1!".to_string(),
    };
    assert!(request.validate().is_ok());
    let request = ChangePasswordRequest {
        current_password: "".to_string(),
        new_password: "short".to_string(),
        confirm_password: "shorter".to_string(),
    };
    assert_eq!(
        summary(&request.validate().unwrap_err()),
        vec![
            refused("current_password", "length", "Current password is required"),
            refused("new_password", "length", "Password must be at least 8 characters long"),
            refused("confirm_password", "must_match", "Passwords do not match"),
        ]
    );
}
