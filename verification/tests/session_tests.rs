use auth_backend::database::Database;
use auth_backend::error::AuthError;
use auth_backend::models::auth::LoginRequest;
use auth_backend::models::auth::RegisterRequest;
use auth_backend::models::user::User;
use auth_backend::services::auth_service::AuthService;
use auth_backend::services::auth_service::EXPIRES_IN;
use auth_backend::utils::ident::id_to_string;
use auth_backend::utils::jwt::JwtKeys;
use auth_backend::utils::password::hash_password;
use auth_backend::utils::password::hash_token;
use auth_backend::utils::password::verify_password;

const T0: u64 = 1_700_000_000;

fn session_keys() -> JwtKeys {
    JwtKeys::new("access-secret".to_string(), "refresh-secret".to_string())
}

fn registration(email: &str, password: &str) -> RegisterRequest {
    RegisterRequest {
        email: email.to_string(),
        password: password.to_string(),
        confirm_password: password.to_string(),
        agree_to_terms: true,
    }
}

fn credentials(email: &str, password: &str) -> LoginRequest {
    LoginRequest { email: email.to_string(), password: password.to_string(), remember_me: false }
}

fn register_at(
    service: &AuthService,
    db: &mut Database,
    email: &str,
    password: &str,
    user_id: u128,
    record_id: u128,
    now: u64,
) -> User {
    let hash = hash_password(password, 4).unwrap();
    service
        .register_with(db, &registration(email, password), hash, user_id, record_id, now)
        .unwrap()
        .user
}

#[test]
fn register_then_refresh_scenario() {
    let keys = session_keys();
    let service = AuthService::with_cost(&keys, 4);
    let mut db = Database::new();
    let response = service.register(&mut db, registration("a@x.com", "Password1!")).unwrap();
    assert_eq!(response.expires_in, 600);
    assert_eq!(response.user.email, "a@x.com");
    let claims = keys.verify_access_token(&response.token).unwrap();
    assert_eq!(claims.sub, id_to_string(response.user.id));
    assert_eq!(db.user_count(), 1);
    assert_eq!(db.user_at(0).id, response.user.id);
    assert_eq!(db.record_count(), 1);
    assert_eq!(db.record_at(0).token_hash, hash_token(&response.refresh_token));

    // The refresh follows at once, most likely in the same second.
    let issued_at = claims.iat as u64;
    let refreshed = service.refresh_token(&mut db, response.refresh_token.clone()).unwrap();
    assert_ne!(refreshed.token, response.token);
    assert_ne!(refreshed.refresh_token, response.refresh_token);
    assert_eq!(refreshed.user.id, response.user.id);
    assert_eq!(refreshed.expires_in, 600);
    assert_eq!(db.record_count(), 1);
    assert_eq!(db.record_at(0).token_hash, hash_token(&refreshed.refresh_token));
    assert_eq!(
        service.refresh_token(&mut db, response.refresh_token.clone()).unwrap_err(),
        AuthError::InvalidToken
    );
    assert_eq!(
        service.refresh_token_at(&mut db, &response.refresh_token, 78, issued_at + 2).unwrap_err(),
        AuthError::InvalidToken
    );
    // The new refresh token is good for one rotation of its own.
    assert!(service.refresh_token_at(&mut db, &refreshed.refresh_token, 79, issued_at + 2).is_ok());
}

#[test]
fn login_with_unregistered_email_is_invalid_credentials() {
    let keys = session_keys();
    let service = AuthService::with_cost(&keys, 4);
    let mut db = Database::new();
    let error = service.login(&mut db, credentials("nobody@x.com", "Password1!")).unwrap_err();
    assert_eq!(error, AuthError::InvalidCredentials);
    assert_ne!(error, AuthError::NotFound);
    assert_eq!(db.user_count(), 0);
    assert_eq!(db.record_count(), 0);
}

#[test]
fn registration_stores_the_user_and_the_hash_of_the_refresh_token() {
    let keys = session_keys();
    let service = AuthService::with_cost(&keys, 4);
    let mut db = Database::new();
    let hash = hash_password("Password1!", 4).unwrap();
    let response = service
        .register_with(&mut db, &registration("a@x.com", "Password1!"), hash.clone(), 7, 8, T0)
        .unwrap();
    assert_eq!(response.user.id, 7);
    assert_eq!(response.user.email, "a@x.com");
    assert_eq!(response.user.role, "user");
    assert_eq!(response.user.name, None);
    assert_eq!(response.user.avatar_url, None);
    assert!(!response.user.email_verified);
    assert!(response.user.terms_accepted);
    assert_eq!((response.user.created_at, response.user.updated_at), (T0, T0));
    assert_eq!(response.user.last_login, None);
    assert_eq!(response.expires_in, EXPIRES_IN);
    assert_eq!(response.token, keys.generate_access_token_at(&response.user, 8, T0).unwrap());
    assert_eq!(
        response.refresh_token,
        keys.generate_refresh_token_at(&response.user, 8, T0).unwrap()
    );
    let refresh_claims = keys.verify_refresh_token_at(&response.refresh_token, T0).unwrap();
    assert_eq!(refresh_claims.jti, id_to_string(8));
    assert_eq!(refresh_claims.sub, id_to_string(7));

    let claims = keys.verify_access_token_at(&response.token, T0).unwrap();
    assert_eq!(claims.sub, id_to_string(7));
    assert_eq!(claims.email, "a@x.com");
    assert_eq!(claims.role, "user");
    assert_eq!(claims.jti, id_to_string(8));

    let row = db.find_user_by_email("a@x.com").unwrap();
    assert_eq!(row.id, 7);
    assert_eq!(row.password_hash, hash);
    assert_eq!(db.record_count(), 1);
    let record = db.record_at(0);
    assert_eq!(record.id, 8);
    assert_eq!(record.user_id, 7);
    assert_eq!(record.token_hash, hash_token(&response.refresh_token));
    assert_ne!(record.token_hash, response.refresh_token);
    assert_eq!(record.expires_at, T0 + 604_800);
    assert_eq!(record.created_at, T0);
}

#[test]
fn registering_a_taken_email_already_exists() {
    let keys = session_keys();
    let service = AuthService::with_cost(&keys, 4);
    let mut db = Database::new();
    register_at(&service, &mut db, "a@x.com", "Password1!", 1, 2, T0);
    let error = service.register(&mut db, registration("a@x.com", "Other123!")).unwrap_err();
    assert_eq!(error, AuthError::AlreadyExists);
    let error = service
        .register_with(&mut db, &registration("a@x.com", "Other123!"), "h".to_string(), 5, 6, T0)
        .unwrap_err();
    assert_eq!(error, AuthError::AlreadyExists);
    assert_eq!(db.user_count(), 1);
    assert_eq!(db.record_count(), 1);
    // The email is compared as it is stored.
    assert!(service
        .register_with(&mut db, &registration("A@x.com", "Other123!"), "h".to_string(), 5, 6, T0)
        .is_ok());
}

#[test]
fn registering_under_a_used_identifier_is_an_internal_failure() {
    let keys = session_keys();
    let service = AuthService::with_cost(&keys, 4);
    let mut db = Database::new();
    register_at(&service, &mut db, "a@x.com", "Password1!", 1, 2, T0);
    let error = service
        .register_with(&mut db, &registration("b@x.com", "Other123!"), "h".to_string(), 1, 6, T0)
        .unwrap_err();
    assert_eq!(error, AuthError::Internal);
    assert_eq!(db.user_count(), 1);
    assert_eq!(db.record_count(), 1);
}

#[test]
fn a_failed_registration_leaves_the_store_as_it_was() {
    let keys = session_keys();
    let service = AuthService::with_cost(&keys, 4);
    let mut db = Database::new();
    // No token can be issued at the end of time.
    let error = service
        .register_with(&mut db, &registration("a@x.com", "x"), "h".to_string(), 1, 2, u64::MAX)
        .unwrap_err();
    assert_eq!(error, AuthError::Internal);
    assert_eq!(db.user_count(), 0);
    assert_eq!(db.record_count(), 0);
    // Nor can a password be hashed at a work factor out of range.
    let weak = AuthService::with_cost(&keys, 2);
    let error = weak.register(&mut db, registration("a@x.com", "Password1!")).unwrap_err();
    assert_eq!(error, AuthError::Internal);
    assert_eq!(db.user_count(), 0);
}

#[test]
fn login_with_the_password_opens_a_session() {
    let keys = session_keys();
    let service = AuthService::with_cost(&keys, 4);
    let mut db = Database::new();
    register_at(&service, &mut db, "a@x.com", "Password1!", 1, 2, T0);
    let response =
        service.login_at(&mut db, &credentials("a@x.com", "Password1!"), 3, T0 + 60).unwrap();
    assert_eq!(response.user.id, 1);
    assert_eq!(response.user.last_login, Some(T0 + 60));
    assert_eq!(response.expires_in, 600);
    assert_eq!(db.find_user_by_id(1).unwrap().last_login, Some(T0 + 60));
    assert_eq!(db.record_count(), 2);
    assert_eq!(db.record_at(1).id, 3);
    assert_eq!(db.record_at(1).token_hash, hash_token(&response.refresh_token));
    assert_eq!(db.record_at(1).expires_at, T0 + 60 + 604_800);
    let claims = keys.verify_access_token_at(&response.token, T0 + 60).unwrap();
    assert_eq!(claims.sub, id_to_string(1));
    assert_eq!((claims.iat, claims.exp), ((T0 + 60) as usize, (T0 + 660) as usize));

    let again = service.login(&mut db, credentials("a@x.com", "Password1!")).unwrap();
    assert_eq!(again.user.id, 1);
    assert_eq!(db.record_count(), 3);
}

#[test]
fn wrong_password_and_unknown_email_fail_alike() {
    let keys = session_keys();
    let service = AuthService::with_cost(&keys, 4);
    let mut db = Database::new();
    register_at(&service, &mut db, "a@x.com", "Password1!", 1, 2, T0);
    let wrong_password =
        service.login_at(&mut db, &credentials("a@x.com", "Password2!"), 3, T0).unwrap_err();
    let unknown_email =
        service.login_at(&mut db, &credentials("b@x.com", "Password1!"), 3, T0).unwrap_err();
    assert_eq!(wrong_password, AuthError::InvalidCredentials);
    assert_eq!(unknown_email, wrong_password);
    assert_eq!(unknown_email.message(), wrong_password.message());
    assert_eq!(unknown_email.message(), "Invalid credentials");
    assert_eq!(unknown_email.status(), wrong_password.status());
    assert_eq!(db.record_count(), 1);
    assert_eq!(db.find_user_by_id(1).unwrap().last_login, None);
}

#[test]
fn login_against_a_malformed_hash_is_an_internal_failure() {
    let keys = session_keys();
    let service = AuthService::with_cost(&keys, 4);
    let mut db = Database::new();
    service
        .register_with(&mut db, &registration("a@x.com", "p"), "no hash".to_string(), 1, 2, T0)
        .unwrap();
    let error = service.login_at(&mut db, &credentials("a@x.com", "p"), 3, T0).unwrap_err();
    assert_eq!(error, AuthError::Internal);
    assert_eq!(db.record_count(), 1);
}

#[test]
fn rotation_is_single_use() {
    let keys = session_keys();
    let service = AuthService::with_cost(&keys, 4);
    let mut db = Database::new();
    let user = register_at(&service, &mut db, "a@x.com", "Password1!", 1, 2, T0);
    let old_token = keys.generate_refresh_token_at(&user, 2, T0).unwrap();
    let first = service.refresh_token_at(&mut db, &old_token, 3, T0 + 10);
    let second = service.refresh_token_at(&mut db, &old_token, 4, T0 + 20);
    assert!(first.is_ok());
    assert_eq!(second.unwrap_err(), AuthError::InvalidToken);
    assert_eq!(db.record_count(), 1);
    assert_eq!(db.record_at(0).id, 3);
    assert_eq!(db.record_at(0).token_hash, hash_token(&first.unwrap().refresh_token));
    // Nor at any other time, under any other identifier.
    for (record_id, now) in [(5, T0), (6, T0 + 10), (7, T0 + 604_799), (3, T0 + 10), (2, T0)] {
        assert_eq!(
            service.refresh_token_at(&mut db, &old_token, record_id, now).unwrap_err(),
            AuthError::InvalidToken
        );
    }
    assert_eq!(db.record_count(), 1);
    assert_eq!(db.record_at(0).id, 3);
}

#[test]
fn a_rotation_in_the_second_of_issue_makes_a_new_pair() {
    let keys = session_keys();
    let service = AuthService::with_cost(&keys, 4);
    let mut db = Database::new();
    let hash = hash_password("Password1!", 4).unwrap();
    let first = service
        .register_with(&mut db, &registration("a@x.com", "Password1!"), hash, 1, 2, T0)
        .unwrap();
    let second = service.refresh_token_at(&mut db, &first.refresh_token, 3, T0).unwrap();
    assert_ne!(second.refresh_token, first.refresh_token);
    assert_ne!(second.token, first.token);
    assert_eq!(second.user.id, first.user.id);
    assert_eq!(second.expires_in, 600);
    let refresh_claims = keys.verify_refresh_token_at(&second.refresh_token, T0).unwrap();
    assert_eq!(refresh_claims.jti, id_to_string(3));
    assert_eq!(keys.verify_access_token_at(&second.token, T0).unwrap().jti, id_to_string(3));
    // Exactly one record went, exactly one came.
    assert_eq!(db.record_count(), 1);
    assert_eq!(db.record_at(0).id, 3);
    assert_eq!(db.record_at(0).token_hash, hash_token(&second.refresh_token));
    // The old token is spent, in this very second too.
    assert_eq!(
        service.refresh_token_at(&mut db, &first.refresh_token, 4, T0).unwrap_err(),
        AuthError::InvalidToken
    );
    assert_eq!(db.record_count(), 1);
    assert_eq!(db.record_at(0).id, 3);
    // The new one is good for a rotation of its own.
    let third = service.refresh_token_at(&mut db, &second.refresh_token, 4, T0).unwrap();
    assert_ne!(third.refresh_token, second.refresh_token);
    assert_ne!(third.refresh_token, first.refresh_token);
}

#[test]
fn two_logins_in_one_second_open_two_sessions() {
    let keys = session_keys();
    let service = AuthService::with_cost(&keys, 4);
    let mut db = Database::new();
    register_at(&service, &mut db, "a@x.com", "Password1!", 1, 2, T0);
    let first = service.login_at(&mut db, &credentials("a@x.com", "Password1!"), 3, T0).unwrap();
    let second = service.login_at(&mut db, &credentials("a@x.com", "Password1!"), 4, T0).unwrap();
    assert_ne!(first.token, second.token);
    assert_ne!(first.refresh_token, second.refresh_token);
    assert_eq!(db.record_count(), 3);
    assert_ne!(db.record_at(1).token_hash, db.record_at(2).token_hash);
    // Each is rotated on its own; the other stays.
    assert!(service.refresh_token_at(&mut db, &first.refresh_token, 5, T0).is_ok());
    assert_eq!(db.record_count(), 3);
    assert_eq!(
        service.refresh_token_at(&mut db, &first.refresh_token, 6, T0).unwrap_err(),
        AuthError::InvalidToken
    );
    assert!(service.refresh_token_at(&mut db, &second.refresh_token, 6, T0).is_ok());
    let ids: Vec<u128> = (0..db.record_count()).map(|i| db.record_at(i).id).collect();
    assert_eq!(ids, vec![2, 5, 6]);
}

#[test]
fn an_identifier_that_is_on_record_is_not_issued_again() {
    let keys = session_keys();
    let service = AuthService::with_cost(&keys, 4);
    let mut db = Database::new();
    let hash = hash_password("Password1!", 4).unwrap();
    let first = service
        .register_with(&mut db, &registration("a@x.com", "Password1!"), hash, 1, 2, T0)
        .unwrap();
    assert_eq!(
        service.login_at(&mut db, &credentials("a@x.com", "Password1!"), 2, T0 + 1).unwrap_err(),
        AuthError::Internal
    );
    assert_eq!(
        service.generate_tokens_at(&mut db, &first.user, 2, T0 + 1).unwrap_err(),
        AuthError::Internal
    );
    assert_eq!(
        service
            .register_with(&mut db, &registration("b@x.com", "p"), "h".to_string(), 9, 2, T0)
            .unwrap_err(),
        AuthError::Internal
    );
    // A rotation cannot reuse the identifier of the token that it is given.
    assert_eq!(
        service.refresh_token_at(&mut db, &first.refresh_token, 2, T0 + 1).unwrap_err(),
        AuthError::Internal
    );
    assert_eq!(db.user_count(), 1);
    assert_eq!(db.record_count(), 1);
    assert_eq!(db.find_user_by_id(1).unwrap().last_login, None);
    // The refusals left the session as it was.
    assert!(service.refresh_token_at(&mut db, &first.refresh_token, 3, T0 + 1).is_ok());
}

#[test]
fn rotation_refuses_tokens_that_do_not_verify() {
    let keys = session_keys();
    let service = AuthService::with_cost(&keys, 4);
    let mut db = Database::new();
    let user = register_at(&service, &mut db, "a@x.com", "Password1!", 1, 2, T0);
    for token in ["", "a.jwt.token", "garbage"] {
        assert_eq!(
            service.refresh_token_at(&mut db, token, 3, T0).unwrap_err(),
            AuthError::InvalidToken
        );
    }
    // An access token is signed with the other secret.
    let access = keys.generate_access_token_at(&user, 2, T0).unwrap();
    assert_eq!(
        service.refresh_token_at(&mut db, &access, 3, T0).unwrap_err(),
        AuthError::InvalidToken
    );
    // A token signed by someone else.
    let forged = JwtKeys::new("x".to_string(), "y".to_string())
        .generate_refresh_token_at(&user, 2, T0)
        .unwrap();
    assert_eq!(
        service.refresh_token_at(&mut db, &forged, 3, T0).unwrap_err(),
        AuthError::InvalidToken
    );
    assert_eq!(db.record_count(), 1);
    assert_eq!(db.record_at(0).id, 2);
}

#[test]
fn rotation_refuses_tokens_that_are_not_on_record() {
    let keys = session_keys();
    let service = AuthService::with_cost(&keys, 4);
    let mut db = Database::new();
    let user = register_at(&service, &mut db, "a@x.com", "Password1!", 1, 2, T0);
    // Signed with the right secret, but under an identifier that is not on
    // record.
    let unrecorded = keys.generate_refresh_token_at(&user, 99, T0).unwrap();
    assert_eq!(
        service.refresh_token_at(&mut db, &unrecorded, 3, T0).unwrap_err(),
        AuthError::InvalidToken
    );
    // Under the identifier of a record, but not the token of that record.
    let other = keys.generate_refresh_token_at(&user, 2, T0 + 5).unwrap();
    assert_eq!(
        service.refresh_token_at(&mut db, &other, 3, T0 + 5).unwrap_err(),
        AuthError::InvalidToken
    );
    assert_eq!(db.record_count(), 1);
    assert_eq!(db.record_at(0).id, 2);
}

#[test]
fn rotation_refuses_expired_tokens() {
    let keys = session_keys();
    let service = AuthService::with_cost(&keys, 4);
    let mut db = Database::new();
    let user = register_at(&service, &mut db, "a@x.com", "Password1!", 1, 2, T0);
    let token = keys.generate_refresh_token_at(&user, 2, T0).unwrap();
    assert_eq!(
        service.refresh_token_at(&mut db, &token, 3, T0 + 604_801).unwrap_err(),
        AuthError::InvalidToken
    );
    // At the very second of expiry the token still verifies, but its record
    // is valid only before that second.
    assert_eq!(
        service.refresh_token_at(&mut db, &token, 3, T0 + 604_800).unwrap_err(),
        AuthError::InvalidToken
    );
    assert_eq!(db.record_count(), 1);
    assert!(service.refresh_token_at(&mut db, &token, 3, T0 + 604_799).is_ok());
}

#[test]
fn rotation_for_a_vanished_user_is_not_found() {
    let keys = session_keys();
    let service = AuthService::with_cost(&keys, 4);
    let mut db = Database::new();
    let ghost = User {
        id: 99,
        email: "ghost@x.com".to_string(),
        name: None,
        avatar_url: None,
        role: "user".to_string(),
        email_verified: false,
        terms_accepted: true,
        created_at: T0,
        updated_at: T0,
        last_login: None,
    };
    // A record whose user is not in the store.
    let response = service.generate_tokens_at(&mut db, &ghost, 5, T0).unwrap();
    assert_eq!(db.record_count(), 1);
    assert_eq!(
        service.refresh_token_at(&mut db, &response.refresh_token, 6, T0 + 1).unwrap_err(),
        AuthError::NotFound
    );
    assert_eq!(db.record_count(), 1);
    assert_eq!(db.record_at(0).id, 5);
}

#[test]
fn logout_revokes_every_refresh_token_of_the_user() {
    let keys = session_keys();
    let service = AuthService::with_cost(&keys, 4);
    let mut db = Database::new();
    let password = hash_password("Password1!", 4).unwrap();
    let first = service
        .register_with(&mut db, &registration("a@x.com", "Password1!"), password, 1, 2, T0)
        .unwrap();
    let second =
        service.login_at(&mut db, &credentials("a@x.com", "Password1!"), 3, T0 + 10).unwrap();
    let third =
        service.login_at(&mut db, &credentials("a@x.com", "Password1!"), 4, T0 + 20).unwrap();
    let other = service
        .register_with(&mut db, &registration("b@x.com", "p"), "h".to_string(), 5, 6, T0 + 30)
        .unwrap();
    assert_eq!(db.record_count(), 4);

    assert_eq!(service.logout(&mut db, 1), Ok(()));
    assert_eq!(db.record_count(), 1);
    assert_eq!(db.record_at(0).user_id, 5);
    for token in [&first.refresh_token, &second.refresh_token, &third.refresh_token] {
        assert_eq!(
            service.refresh_token_at(&mut db, token, 9, T0 + 40).unwrap_err(),
            AuthError::InvalidToken
        );
    }
    // The sessions of other users go on.
    assert!(service.refresh_token_at(&mut db, &other.refresh_token, 9, T0 + 40).is_ok());
    // The access tokens issued before stay valid until they expire.
    assert!(keys.verify_access_token_at(&first.token, T0 + 40).is_ok());
}

#[test]
fn logout_is_idempotent() {
    let keys = session_keys();
    let service = AuthService::with_cost(&keys, 4);
    let mut db = Database::new();
    assert_eq!(service.logout(&mut db, 1), Ok(()));
    register_at(&service, &mut db, "a@x.com", "Password1!", 1, 2, T0);
    assert_eq!(service.logout(&mut db, 1), Ok(()));
    assert_eq!(db.record_count(), 0);
    assert_eq!(service.logout(&mut db, 1), Ok(()));
    assert_eq!(service.logout(&mut db, 42), Ok(()));
    assert_eq!(db.record_count(), 0);
    assert_eq!(db.user_count(), 1);
}

#[test]
fn tokens_can_be_issued_on_their_own() {
    let keys = session_keys();
    let service = AuthService::new(&keys);
    let mut db = Database::new();
    let user = register_at(&service, &mut db, "a@x.com", "Password1!", 1, 2, T0);
    let response = service.generate_tokens(&mut db, &user).unwrap();
    assert_eq!(response.user.id, 1);
    assert_eq!(response.expires_in, 600);
    assert_eq!(db.record_count(), 2);
    assert_eq!(db.record_at(1).user_id, 1);
    assert_eq!(db.record_at(1).token_hash, hash_token(&response.refresh_token));
    assert_eq!(keys.verify_access_token(&response.token).unwrap().sub, id_to_string(1));
    assert_eq!(
        service.generate_tokens_at(&mut db, &user, 9, u64::MAX).unwrap_err(),
        AuthError::Internal
    );
    assert_eq!(db.record_count(), 2);
}

#[test]
fn the_default_work_factor_is_used_where_none_is_given() {
    let keys = session_keys();
    let service = AuthService::new(&keys);
    let mut db = Database::new();
    let response = service.register(&mut db, registration("a@x.com", "Password1!")).unwrap();
    let row = db.find_user_by_id(response.user.id).unwrap();
    assert!(row.password_hash.starts_with("$2b$12$"));
    assert_eq!(verify_password("Password1!", &row.password_hash), Ok(true));
}
