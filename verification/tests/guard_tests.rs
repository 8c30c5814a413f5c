use auth_backend::config::settings::Settings;
use auth_backend::database::Database;
use auth_backend::middleware::auth::AuthUser;
use auth_backend::middleware::auth::Rejection;
use auth_backend::middleware::auth::RequireRole;
use auth_backend::models::user::User;
use auth_backend::models::user::UserRow;
use auth_backend::utils::jwt::JwtKeys;
use auth_backend::AppState;

// The identifier of an issue, where a test needs none in particular.
const TOKEN_ID: u128 = 0x6ba7b810_9dad_41d1_80b4_00c04fd430c8;

const GUARD_T0: u64 = 1_700_000_000;

fn guard_keys() -> JwtKeys {
    JwtKeys::new("access-secret".to_string(), "refresh-secret".to_string())
}

fn guard_row(id: u128, email: &str, role: &str) -> UserRow {
    UserRow {
        id,
        email: email.to_string(),
        password_hash: "hash".to_string(),
        name: None,
        avatar_url: None,
        role: role.to_string(),
        email_verified: false,
        terms_accepted: true,
        created_at: GUARD_T0,
        updated_at: GUARD_T0,
        last_login: None,
    }
}

fn guard_store() -> Database {
    let mut db = Database::new();
    db.insert_user(guard_row(1, "user@x.com", "user")).unwrap();
    db.insert_user(guard_row(2, "admin@x.com", "admin")).unwrap();
    db
}

fn bearer(keys: &JwtKeys, row: &UserRow, now: u64) -> String {
    let user = User::from(row.clone());
    format!("Bearer {}", keys.generate_access_token_at(&user, TOKEN_ID, now).unwrap())
}

#[test]
fn a_request_with_a_valid_token_acts_for_its_user() {
    let keys = guard_keys();
    let db = guard_store();
    let header = bearer(&keys, &guard_row(1, "user@x.com", "user"), GUARD_T0);
    let auth_user =
        AuthUser::from_request_parts_at(Some(&header), &db, &keys, GUARD_T0 + 5).unwrap();
    assert_eq!(auth_user.user.id, 1);
    assert_eq!(auth_user.user.email, "user@x.com");
    assert_eq!(auth_user.user.role, "user");
}

#[test]
fn a_request_without_a_header_is_turned_away() {
    let keys = guard_keys();
    let db = guard_store();
    let rejection = AuthUser::from_request_parts_at(None, &db, &keys, GUARD_T0).unwrap_err();
    assert_eq!(rejection, Rejection::MissingHeader);
    assert_eq!(rejection.status(), 401);
    assert_eq!(rejection.message(), "Missing authorization header");
}

#[test]
fn a_header_of_another_scheme_is_turned_away() {
    let keys = guard_keys();
    let db = guard_store();
    let header = bearer(&keys, &guard_row(1, "user@x.com", "user"), GUARD_T0);
    let token = header.strip_prefix("Bearer ").unwrap();
    for header in [
        token.to_string(),
        format!("bearer {}", token),
        format!("Bearer{}", token),
        format!("Basic {}", token),
        format!(" Bearer {}", token),
        "Bearer".to_string(),
        "".to_string(),
    ] {
        let rejection =
            AuthUser::from_request_parts_at(Some(&header), &db, &keys, GUARD_T0).unwrap_err();
        assert_eq!(rejection, Rejection::InvalidFormat);
        assert_eq!(rejection.status(), 401);
        assert_eq!(rejection.message(), "Invalid authorization header format");
    }
}

#[test]
fn a_token_that_does_not_verify_is_turned_away() {
    let keys = guard_keys();
    let db = guard_store();
    let header = bearer(&keys, &guard_row(1, "user@x.com", "user"), GUARD_T0);
    for (header, now) in [
        ("Bearer ".to_string(), GUARD_T0),
        ("Bearer a.jwt.token".to_string(), GUARD_T0),
        (format!("{}x", header), GUARD_T0),
        // After a second space the rest is no token.
        (format!("Bearer  {}", header.strip_prefix("Bearer ").unwrap()), GUARD_T0),
        // Expired.
        (header.clone(), GUARD_T0 + 601),
    ] {
        let rejection =
            AuthUser::from_request_parts_at(Some(&header), &db, &keys, now).unwrap_err();
        assert_eq!(rejection, Rejection::InvalidToken);
        assert_eq!(rejection.status(), 401);
        assert_eq!(rejection.message(), "Invalid token");
    }
    let other = JwtKeys::new("other".to_string(), "other".to_string());
    let forged = bearer(&other, &guard_row(1, "user@x.com", "user"), GUARD_T0);
    assert_eq!(
        AuthUser::from_request_parts_at(Some(&forged), &db, &keys, GUARD_T0).unwrap_err(),
        Rejection::InvalidToken
    );
    // A refresh token is no access token.
    let user = User::from(guard_row(1, "user@x.com", "user"));
    let refresh =
        format!("Bearer {}", keys.generate_refresh_token_at(&user, TOKEN_ID, GUARD_T0).unwrap());
    assert_eq!(
        AuthUser::from_request_parts_at(Some(&refresh), &db, &keys, GUARD_T0).unwrap_err(),
        Rejection::InvalidToken
    );
}

#[test]
fn a_token_for_a_user_that_is_gone_is_turned_away() {
    let keys = guard_keys();
    let mut db = guard_store();
    let header = bearer(&keys, &guard_row(1, "user@x.com", "user"), GUARD_T0);
    assert!(AuthUser::from_request_parts_at(Some(&header), &db, &keys, GUARD_T0).is_ok());
    db.delete_user(1);
    let rejection =
        AuthUser::from_request_parts_at(Some(&header), &db, &keys, GUARD_T0).unwrap_err();
    assert_eq!(rejection, Rejection::UserNotFound);
    assert_eq!(rejection.status(), 401);
    assert_eq!(rejection.message(), "User not found");
}

#[test]
fn the_user_is_read_from_the_store_not_from_the_token() {
    let keys = guard_keys();
    let mut db = guard_store();
    let header = bearer(&keys, &guard_row(1, "user@x.com", "user"), GUARD_T0);
    db.update_profile(1, "Ann".to_string(), "ann@x.com".to_string(), GUARD_T0 + 1).unwrap();
    let auth_user =
        AuthUser::from_request_parts_at(Some(&header), &db, &keys, GUARD_T0 + 2).unwrap();
    assert_eq!(auth_user.user.email, "ann@x.com");
    assert_eq!(auth_user.user.name.as_deref(), Some("Ann"));
}

#[test]
fn only_admins_pass_the_role_check() {
    let keys = guard_keys();
    let db = guard_store();
    let admin = bearer(&keys, &guard_row(2, "admin@x.com", "admin"), GUARD_T0);
    let user = bearer(&keys, &guard_row(1, "user@x.com", "user"), GUARD_T0);
    assert!(RequireRole::from_request_parts_at(Some(&admin), &db, &keys, GUARD_T0).is_ok());
    let rejection =
        RequireRole::from_request_parts_at(Some(&user), &db, &keys, GUARD_T0).unwrap_err();
    assert_eq!(rejection, Rejection::AdminRequired);
    assert_eq!(rejection.status(), 403);
    assert_eq!(rejection.message(), "Admin access required");
    assert_eq!(
        RequireRole::from_request_parts_at(None, &db, &keys, GUARD_T0).unwrap_err(),
        Rejection::MissingHeader
    );
    assert_eq!(
        RequireRole::from_request_parts_at(Some(&admin), &db, &keys, GUARD_T0 + 601).unwrap_err(),
        Rejection::InvalidToken
    );
}

#[test]
fn the_role_is_read_from_the_store_not_from_the_token() {
    let keys = guard_keys();
    let db = guard_store();
    // A token that claims the admin role for a user who is none.
    let claimed = bearer(&keys, &guard_row(1, "user@x.com", "admin"), GUARD_T0);
    assert_eq!(
        RequireRole::from_request_parts_at(Some(&claimed), &db, &keys, GUARD_T0).unwrap_err(),
        Rejection::AdminRequired
    );
    // The role is compared as it is stored.
    let mut other = Database::new();
    other.insert_user(guard_row(3, "c@x.com", "Admin")).unwrap();
    let header = bearer(&keys, &guard_row(3, "c@x.com", "Admin"), GUARD_T0);
    assert_eq!(
        RequireRole::from_request_parts_at(Some(&header), &other, &keys, GUARD_T0).unwrap_err(),
        Rejection::AdminRequired
    );
}

#[test]
fn the_state_of_the_application_guards_at_the_current_time() {
    let state = AppState {
        db: guard_store(),
        jwt_keys: guard_keys(),
        settings: Settings::new(None, None, None, None, None),
    };
    let user = User::from(guard_row(2, "admin@x.com", "admin"));
    let header = format!("Bearer {}", state.jwt_keys.generate_access_token(&user).unwrap());
    assert_eq!(AuthUser::from_request_parts(Some(&header), &state).unwrap().user.id, 2);
    assert!(RequireRole::from_request_parts(Some(&header), &state).is_ok());
    assert_eq!(
        AuthUser::from_request_parts(None, &state).unwrap_err(),
        Rejection::MissingHeader
    );
    // A token issued long ago has expired by now.
    let stale = format!(
        "Bearer {}",
        state.jwt_keys.generate_access_token_at(&user, TOKEN_ID, GUARD_T0).unwrap()
    );
    assert_eq!(
        AuthUser::from_request_parts(Some(&stale), &state).unwrap_err(),
        Rejection::InvalidToken
    );
}

#[test]
fn every_rejection_has_its_status_and_message() {
    let all = [
        (Rejection::MissingHeader, 401, "Missing authorization header"),
        (Rejection::InvalidFormat, 401, "Invalid authorization header format"),
        (Rejection::InvalidToken, 401, "Invalid token"),
        (Rejection::InvalidUserId, 401, "Invalid user ID in token"),
        (Rejection::UserNotFound, 401, "User not found"),
        (Rejection::AdminRequired, 403, "Admin access required"),
    ];
    for (rejection, status, message) in all {
        assert_eq!(rejection.status(), status);
        assert_eq!(rejection.message(), message);
    }
}
