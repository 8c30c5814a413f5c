use auth_backend::database::Database;
use auth_backend::models::auth::RefreshToken;
use auth_backend::models::response::DashboardStats;
use auth_backend::models::user::UserRow;
use auth_backend::services::admin_service::AdminService;
use auth_backend::utils::ident::id_to_string;

const DAY: u64 = 86_400;
// Wednesday the 15th of November 2023, 00:00:00 UTC.
const WEDNESDAY: u64 = 1_700_006_400;

fn admin_row(id: u128, email: &str, created_at: u64) -> UserRow {
    UserRow {
        id,
        email: email.to_string(),
        password_hash: "hash".to_string(),
        name: None,
        avatar_url: None,
        role: "user".to_string(),
        email_verified: false,
        terms_accepted: true,
        created_at,
        updated_at: created_at,
        last_login: None,
    }
}

fn admin_record(id: u128, user_id: u128, created_at: u64) -> RefreshToken {
    RefreshToken {
        id,
        user_id,
        token_hash: format!("hash-{}", id),
        expires_at: created_at + 7 * DAY,
        created_at,
    }
}

fn chart(db: &Database, now: u64) -> Vec<(String, i64)> {
    AdminService::new()
        .get_logins_per_day_at(db, now)
        .unwrap()
        .into_iter()
        .map(|entry| (entry.date, entry.logins))
        .collect()
}

#[test]
fn the_dashboard_of_an_empty_store_is_all_zero() {
    let stats = AdminService::new().get_dashboard_stats_at(&Database::new(), WEDNESDAY).unwrap();
    assert_eq!(
        stats,
        DashboardStats {
            total_users: 0,
            active_sessions: 0,
            new_registrations_today: 0,
            login_attempts_today: 0
        }
    );
    assert_eq!(AdminService::new().get_dashboard_stats(&Database::new()).unwrap(), stats);
}

#[test]
fn the_dashboard_counts_users_sessions_and_the_day() {
    let now = WEDNESDAY + 12 * 3600;
    let mut db = Database::new();
    db.insert_user(admin_row(1, "a@x.com", WEDNESDAY - 1)).unwrap();
    db.insert_user(admin_row(2, "b@x.com", WEDNESDAY)).unwrap();
    db.insert_user(admin_row(3, "c@x.com", now)).unwrap();
    db.insert_user(admin_row(4, "d@x.com", WEDNESDAY + DAY)).unwrap();
    // Yesterday.
    db.insert_refresh_record(admin_record(10, 1, WEDNESDAY - 1)).unwrap();
    // Today, but more than ten minutes ago.
    db.insert_refresh_record(admin_record(11, 1, now - 600)).unwrap();
    // Today, less than ten minutes ago: two sessions of one user, one of another.
    db.insert_refresh_record(admin_record(12, 2, now - 599)).unwrap();
    db.insert_refresh_record(admin_record(13, 2, now - 1)).unwrap();
    db.insert_refresh_record(admin_record(14, 3, now)).unwrap();
    let stats = AdminService::new().get_dashboard_stats_at(&db, now).unwrap();
    assert_eq!(stats.total_users, 4);
    assert_eq!(stats.active_sessions, 2);
    assert_eq!(stats.new_registrations_today, 2);
    assert_eq!(stats.login_attempts_today, 4);
}

#[test]
fn the_dashboard_works_at_the_start_of_time() {
    let mut db = Database::new();
    db.insert_user(admin_row(1, "a@x.com", 0)).unwrap();
    db.insert_refresh_record(admin_record(10, 1, 0)).unwrap();
    let stats = AdminService::new().get_dashboard_stats_at(&db, 5).unwrap();
    assert_eq!(
        stats,
        DashboardStats {
            total_users: 1,
            active_sessions: 1,
            new_registrations_today: 1,
            login_attempts_today: 1
        }
    );
}

#[test]
fn the_feed_of_an_empty_store_is_empty() {
    assert!(AdminService::new().get_recent_activity(&Database::new()).unwrap().is_empty());
}

#[test]
fn the_feed_lists_registrations_and_logins_newest_first() {
    let mut db = Database::new();
    db.insert_user(admin_row(1, "a@x.com", 100)).unwrap();
    db.insert_user(admin_row(2, "b@x.com", 300)).unwrap();
    db.insert_refresh_record(admin_record(10, 1, 200)).unwrap();
    db.insert_refresh_record(admin_record(11, 2, 300)).unwrap();
    // The user of this record is not in the store: no line.
    db.insert_refresh_record(admin_record(12, 9, 400)).unwrap();
    let feed = AdminService::new().get_recent_activity(&db).unwrap();
    let lines: Vec<(String, String, String, u64, String)> = feed
        .into_iter()
        .map(|item| (item.id, item.action, item.user_email, item.timestamp, item.status))
        .collect();
    let line = |id: u128, action: &str, email: &str, at: u64| {
        (id_to_string(id), action.to_string(), email.to_string(), at, "success".to_string())
    };
    assert_eq!(
        lines,
        vec![
            // In the same second the registration comes before the login.
            line(2, "User registration", "b@x.com", 300),
            line(11, "User login", "b@x.com", 300),
            line(10, "User login", "a@x.com", 200),
            line(1, "User registration", "a@x.com", 100),
        ]
    );
}

#[test]
fn the_feed_draws_on_ten_registrations_and_ten_logins() {
    let mut db = Database::new();
    for i in 0..15u64 {
        db.insert_user(admin_row(i as u128 + 1, &format!("u{}@x.com", i), 1000 + i)).unwrap();
    }
    for i in 0..12u64 {
        db.insert_refresh_record(admin_record(100 + i as u128, 1, 500 + i)).unwrap();
    }
    let feed = AdminService::new().get_recent_activity(&db).unwrap();
    assert_eq!(feed.len(), 20);
    // The ten newest registrations, then the ten newest logins, which are older.
    for (i, item) in feed.iter().take(10).enumerate() {
        assert_eq!(item.action, "User registration");
        assert_eq!(item.timestamp, 1014 - i as u64);
        assert_eq!(item.user_email, format!("u{}@x.com", 14 - i));
    }
    for (i, item) in feed.iter().skip(10).enumerate() {
        assert_eq!(item.action, "User login");
        assert_eq!(item.timestamp, 511 - i as u64);
        assert_eq!(item.id, id_to_string(111 - i as u128));
        assert_eq!(item.user_email, "u0@x.com");
    }
}

#[test]
fn logins_are_charted_by_weekday() {
    let mut db = Database::new();
    db.insert_user(admin_row(1, "a@x.com", 0)).unwrap();
    // Two on Wednesday, one on the Tuesday before, one on the Sunday before.
    db.insert_refresh_record(admin_record(10, 1, WEDNESDAY)).unwrap();
    db.insert_refresh_record(admin_record(11, 1, WEDNESDAY + 3600)).unwrap();
    db.insert_refresh_record(admin_record(12, 1, WEDNESDAY - 1)).unwrap();
    db.insert_refresh_record(admin_record(13, 1, WEDNESDAY - 3 * DAY + 60)).unwrap();
    let day = |name: &str, logins: i64| (name.to_string(), logins);
    assert_eq!(
        chart(&db, WEDNESDAY + 2 * 3600),
        vec![day("Sun", 1), day("Tue", 1), day("Wed", 2)]
    );
    assert!(AdminService::new().get_logins_per_day(&db).unwrap().is_empty());
}

#[test]
fn the_chart_looks_back_six_days() {
    let mut db = Database::new();
    let now = WEDNESDAY + 10 * DAY;
    db.insert_refresh_record(admin_record(10, 1, now - 6 * DAY)).unwrap();
    db.insert_refresh_record(admin_record(11, 1, now - 6 * DAY - 1)).unwrap();
    db.insert_refresh_record(admin_record(12, 1, now)).unwrap();
    let day = |name: &str, logins: i64| (name.to_string(), logins);
    // Ten days after a Wednesday is a Saturday; six days before that, a Sunday.
    assert_eq!(chart(&db, now), vec![day("Sun", 1), day("Sat", 1)]);
    assert!(chart(&Database::new(), now).is_empty());
}

#[test]
fn every_weekday_has_its_name() {
    let mut db = Database::new();
    // The epoch was a Thursday.
    for i in 0..7u64 {
        db.insert_refresh_record(admin_record(i as u128, 1, i * DAY)).unwrap();
    }
    let names: Vec<String> = chart(&db, 6 * DAY).into_iter().map(|(name, _)| name).collect();
    assert_eq!(names, vec!["Sun", "Mon", "Tue", "Wed", "Thu", "Fri", "Sat"]);
    let early: Vec<(String, i64)> = chart(&db, 0);
    assert_eq!(early.len(), 7);
    assert!(early.iter().all(|(_, logins)| *logins == 1));
}
