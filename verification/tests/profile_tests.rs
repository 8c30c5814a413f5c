use auth_backend::database::Database;
use auth_backend::error::AuthError;
use auth_backend::models::auth::RefreshToken;
use auth_backend::models::user::ChangePasswordRequest;
use auth_backend::models::user::UpdateProfileRequest;
use auth_backend::models::user::User;
use auth_backend::models::user::UserProfile;
use auth_backend::models::user::UserRow;
use auth_backend::services::user_service::UserService;
use auth_backend::utils::password::hash_password;
use auth_backend::utils::password::verify_password;
use auth_backend::utils::password::DEFAULT_COST;

fn profile_row(id: u128, email: &str, password: &str, created_at: u64) -> UserRow {
    UserRow {
        id,
        email: email.to_string(),
        password_hash: hash_password(password, 4).unwrap(),
        name: Some("Old Name".to_string()),
        avatar_url: None,
        role: "user".to_string(),
        email_verified: true,
        terms_accepted: true,
        created_at,
        updated_at: created_at,
        last_login: Some(created_at + 1),
    }
}

fn profile_store() -> Database {
    let mut db = Database::new();
    db.insert_user(profile_row(1, "a@x.com", "Password1!", 100)).unwrap();
    db.insert_user(profile_row(2, "b@x.com", "Password2!", 300)).unwrap();
    db.insert_user(profile_row(3, "c@x.com", "Password3!", 200)).unwrap();
    db
}

fn password_change(current: &str, new: &str) -> ChangePasswordRequest {
    ChangePasswordRequest {
        current_password: current.to_string(),
        new_password: new.to_string(),
        confirm_password: new.to_string(),
    }
}

#[test]
fn a_user_is_read_by_identifier() {
    let db = profile_store();
    let service = UserService::new();
    let user = service.get_user_by_id(&db, 2).unwrap();
    assert_eq!(user.id, 2);
    assert_eq!(user.email, "b@x.com");
    assert_eq!(user.name.as_deref(), Some("Old Name"));
    assert_eq!(user.role, "user");
    assert!(user.email_verified);
    assert_eq!((user.created_at, user.updated_at, user.last_login), (300, 300, Some(301)));
    assert_eq!(service.get_user_by_id(&db, 9).unwrap_err(), AuthError::NotFound);
}

#[test]
fn a_wrong_current_password_leaves_the_hash_unchanged() {
    let mut db = profile_store();
    let service = UserService::with_cost(4);
    let before = db.find_user_by_id(1).unwrap();
    let error = service
        .change_password(&mut db, 1, password_change("Wrong!", "NewPassword1!"))
        .unwrap_err();
    assert_eq!(error, AuthError::InvalidCurrentPassword);
    assert_ne!(error, AuthError::InvalidCredentials);
    assert_eq!(error.message(), "Invalid current password");
    let after = db.find_user_by_id(1).unwrap();
    assert_eq!(after.password_hash, before.password_hash);
    assert_eq!(after.updated_at, before.updated_at);
    assert_eq!(verify_password("Password1!", &after.password_hash), Ok(true));
    assert_eq!(verify_password("NewPassword1!", &after.password_hash), Ok(false));

    let error = service
        .change_password_with(&mut db, 1, &password_change("Wrong!", "x"), "h".to_string(), 5)
        .unwrap_err();
    assert_eq!(error, AuthError::InvalidCurrentPassword);
    assert_eq!(db.find_user_by_id(1).unwrap().password_hash, before.password_hash);
}

#[test]
fn the_right_current_password_changes_the_hash() {
    let mut db = profile_store();
    let service = UserService::with_cost(4);
    assert_eq!(
        service.change_password(&mut db, 1, password_change("Password1!", "NewPassword1!")),
        Ok(())
    );
    let row = db.find_user_by_id(1).unwrap();
    assert_eq!(verify_password("NewPassword1!", &row.password_hash), Ok(true));
    assert_eq!(verify_password("Password1!", &row.password_hash), Ok(false));
    assert!(row.updated_at > 100);
    // The other users keep their passwords.
    let other = db.find_user_by_id(2).unwrap();
    assert_eq!(verify_password("Password2!", &other.password_hash), Ok(true));

    let hash = hash_password("Third1!", 4).unwrap();
    let request = password_change("NewPassword1!", "Third1!");
    assert_eq!(service.change_password_with(&mut db, 1, &request, hash.clone(), 999), Ok(()));
    let row = db.find_user_by_id(1).unwrap();
    assert_eq!(row.password_hash, hash);
    assert_eq!(row.updated_at, 999);
}

#[test]
fn changing_the_password_of_a_missing_user_is_not_found() {
    let mut db = profile_store();
    let service = UserService::with_cost(4);
    assert_eq!(
        service.change_password(&mut db, 9, password_change("Password1!", "NewPassword1!")),
        Err(AuthError::NotFound)
    );
    assert_eq!(service.check_current_password(&db, 9, "x"), Err(AuthError::NotFound));
    assert_eq!(service.check_current_password(&db, 1, "Password1!"), Ok(()));
    assert_eq!(
        service.check_current_password(&db, 1, "Password2!"),
        Err(AuthError::InvalidCurrentPassword)
    );
}

#[test]
fn a_password_that_cannot_be_hashed_is_an_internal_failure() {
    let mut db = profile_store();
    let before = db.find_user_by_id(1).unwrap().password_hash;
    let service = UserService::with_cost(99);
    assert_eq!(
        service.change_password(&mut db, 1, password_change("Password1!", "NewPassword1!")),
        Err(AuthError::Internal)
    );
    assert_eq!(db.find_user_by_id(1).unwrap().password_hash, before);
    let mut broken = Database::new();
    let mut row = profile_row(1, "a@x.com", "p", 1);
    row.password_hash = "no hash".to_string();
    broken.insert_user(row).unwrap();
    assert_eq!(
        UserService::with_cost(4).change_password(&mut broken, 1, password_change("p", "q")),
        Err(AuthError::Internal)
    );
}

#[test]
fn a_profile_update_answers_the_updated_user() {
    let mut db = profile_store();
    let service = UserService::new();
    let request = UpdateProfileRequest { name: "Ann".to_string(), email: "ann@x.com".to_string() };
    let user = service.update_profile_at(&mut db, 1, request, 500).unwrap();
    assert_eq!(user.id, 1);
    assert_eq!(user.name.as_deref(), Some("Ann"));
    assert_eq!(user.email, "ann@x.com");
    assert_eq!(user.updated_at, 500);
    assert_eq!(user.created_at, 100);
    let row = db.find_user_by_id(1).unwrap();
    assert_eq!(row.name.as_deref(), Some("Ann"));
    assert_eq!((row.email.as_str(), row.updated_at), ("ann@x.com", 500));

    let request =
        UpdateProfileRequest { name: "Ann B".to_string(), email: "ann@x.com".to_string() };
    let user = service.update_profile(&mut db, 1, request).unwrap();
    assert_eq!(user.name.as_deref(), Some("Ann B"));
    assert!(user.updated_at > 500);
}

#[test]
fn a_profile_update_refuses_the_email_of_another_user() {
    let mut db = profile_store();
    let service = UserService::new();
    let request = UpdateProfileRequest { name: "Ann".to_string(), email: "b@x.com".to_string() };
    assert_eq!(
        service.update_profile_at(&mut db, 1, request, 500).unwrap_err(),
        AuthError::AlreadyExists
    );
    let row = db.find_user_by_id(1).unwrap();
    assert_eq!(row.name.as_deref(), Some("Old Name"));
    assert_eq!((row.email.as_str(), row.updated_at), ("a@x.com", 100));
    let request = UpdateProfileRequest { name: "Zed".to_string(), email: "z@x.com".to_string() };
    let error = service.update_profile_at(&mut db, 9, request, 500).unwrap_err();
    assert_eq!(error, AuthError::NotFound);
}

#[test]
fn deleting_an_account_removes_user_and_sessions() {
    let mut db = profile_store();
    db.insert_refresh_record(RefreshToken {
        id: 10,
        user_id: 1,
        token_hash: "h1".to_string(),
        expires_at: 1000,
        created_at: 1,
    })
    .unwrap();
    db.insert_refresh_record(RefreshToken {
        id: 11,
        user_id: 2,
        token_hash: "h2".to_string(),
        expires_at: 1000,
        created_at: 1,
    })
    .unwrap();
    let service = UserService::new();
    assert_eq!(service.delete_account(&mut db, 1), Ok(()));
    assert!(db.find_user_by_id(1).is_none());
    assert_eq!(db.user_count(), 2);
    assert_eq!(db.record_count(), 1);
    assert_eq!(db.record_at(0).user_id, 2);
    assert_eq!(service.delete_account(&mut db, 1), Ok(()));
    assert_eq!(db.user_count(), 2);
}

#[test]
fn users_are_listed_newest_first() {
    let mut db = profile_store();
    db.insert_user(profile_row(4, "d@x.com", "Password4!", 300)).unwrap();
    let users = UserService::new().list_users(&db).unwrap();
    let ids: Vec<u128> = users.iter().map(|user| user.id).collect();
    // Users 2 and 4 were created in the same second and keep their order.
    assert_eq!(ids, vec![2, 4, 3, 1]);
    assert_eq!(users[0].email, "b@x.com");
    assert!(UserService::new().list_users(&Database::new()).unwrap().is_empty());
}

#[test]
fn the_avatar_of_a_user_is_recorded() {
    let mut db = profile_store();
    let service = UserService::new();
    let url = service
        .store_avatar_at(&mut db, 1, "/uploads/avatars/a.png".to_string(), 700)
        .unwrap();
    assert_eq!(url, "/uploads/avatars/a.png");
    let row = db.find_user_by_id(1).unwrap();
    assert_eq!(row.avatar_url.as_deref(), Some("/uploads/avatars/a.png"));
    assert_eq!(row.updated_at, 700);
    assert_eq!(service.store_avatar(&mut db, 2, "/u.gif".to_string()).unwrap(), "/u.gif");
    assert_eq!(db.find_user_by_id(2).unwrap().avatar_url.as_deref(), Some("/u.gif"));
    // A user that is gone changes nothing.
    assert_eq!(service.store_avatar_at(&mut db, 9, "/v.gif".to_string(), 1).unwrap(), "/v.gif");
    assert_eq!(db.user_count(), 3);
}

#[test]
fn a_row_converts_to_a_user_and_a_user_to_a_profile() {
    let row = profile_row(7, "g@x.com", "Password7!", 70);
    let copy = row.clone();
    assert_eq!(copy.password_hash, row.password_hash);
    let user = User::from(row);
    assert_eq!(user.id, 7);
    assert_eq!(user.email, "g@x.com");
    assert_eq!(user.name.as_deref(), Some("Old Name"));
    assert_eq!(user.avatar_url, None);
    assert_eq!(user.role, "user");
    assert!(user.email_verified && user.terms_accepted);
    assert_eq!((user.created_at, user.updated_at, user.last_login), (70, 70, Some(71)));
    let twin = user.clone();
    assert_eq!(twin.email, user.email);
    let profile: UserProfile = user.into();
    assert_eq!(profile.id, 7);
    assert_eq!(profile.email, "g@x.com");
    assert_eq!(profile.name.as_deref(), Some("Old Name"));
    assert_eq!(profile.role, "user");
    assert_eq!((profile.created_at, profile.last_login), (70, Some(71)));
}

#[test]
fn the_services_hash_at_the_default_work_factor() {
    assert_eq!(DEFAULT_COST, 12);
    let mut db = Database::new();
    db.insert_user(profile_row(1, "a@x.com", "Password1!", 100)).unwrap();
    assert_eq!(
        UserService::new().change_password(&mut db, 1, password_change("Password1!", "Next1234!")),
        Ok(())
    );
    assert!(db.find_user_by_id(1).unwrap().password_hash.starts_with("$2b$12$"));
}
