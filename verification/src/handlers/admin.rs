//! The admin dashboard, as the transport sees it. Each operation is open to
//! admins alone.

use vstd::prelude::*;
use crate::utils::clock::is_clock_value;
use crate::AppState;
use crate::handlers::reply::OK;
use crate::handlers::reply::Reply;
use crate::handlers::reply::rejection_outline;
use crate::handlers::reply::success_outline;
use crate::middleware::auth::RequireRole;
use crate::middleware::auth::admin_verdict;
use crate::middleware::auth::header_text;
use crate::models::response::ActivityItem;
use crate::models::response::DashboardStats;
use crate::models::user::User;
use crate::services::admin_service::AdminService;
use crate::services::admin_service::dashboard_stats_at;
use crate::services::admin_service::item_views;
use crate::services::admin_service::recent_activity;
use crate::services::user_service::UserService;
use crate::services::user_service::user_views;
use crate::services::user_service::users_newest_first;

verus! {

/// Answers the figures of the dashboard to an admin.
pub fn get_dashboard_stats(state: &AppState, authorization: Option<&str>) -> (reply: Reply<
    DashboardStats,
>)
    ensures
        exists|checked_at: u64|
            is_clock_value(checked_at) && match #[trigger] admin_verdict(
                state.db@,
                state.jwt_keys@,
                header_text(authorization),
                checked_at,
            ) {
                Err(rejection) => reply.outline() == rejection_outline(rejection),
                Ok(_) => reply.outline() == success_outline(OK, "Dashboard stats retrieved"@)
                    && exists|at: u64|
                    is_clock_value(at) && reply.data() == Some(
                        #[trigger] dashboard_stats_at(state.db@, at),
                    ),
            },
{
    match RequireRole::from_request_parts(authorization, state) {
        Ok(_) => {},
        Err(rejection) => {
            return Reply::rejected(rejection);
        },
    }
    let service = AdminService::new();
    match service.get_dashboard_stats(&state.db) {
        Ok(stats) => Reply::success(OK, stats, "Dashboard stats retrieved"),
        Err(error) => Reply::from_error(error),
    }
}

/// Answers the activity feed to an admin.
pub fn get_recent_activity(state: &AppState, authorization: Option<&str>) -> (reply: Reply<
    Vec<ActivityItem>,
>)
    ensures
        exists|checked_at: u64|
            is_clock_value(checked_at) && match #[trigger] admin_verdict(
                state.db@,
                state.jwt_keys@,
                header_text(authorization),
                checked_at,
            ) {
                Err(rejection) => reply.outline() == rejection_outline(rejection),
                Ok(_) => reply.outline() == success_outline(OK, "Recent activity retrieved"@) && (
                reply.data() matches Some(items) && item_views(items@) == recent_activity(
                    state.db@,
                )),
            },
{
    match RequireRole::from_request_parts(authorization, state) {
        Ok(_) => {},
        Err(rejection) => {
            return Reply::rejected(rejection);
        },
    }
    let service = AdminService::new();
    match service.get_recent_activity(&state.db) {
        Ok(items) => Reply::success(OK, items, "Recent activity retrieved"),
        Err(error) => Reply::from_error(error),
    }
}

/// Answers the list of all users, newest first, to an admin.
pub fn list_users(state: &AppState, authorization: Option<&str>) -> (reply: Reply<Vec<User>>)
    ensures
        exists|checked_at: u64|
            is_clock_value(checked_at) && match #[trigger] admin_verdict(
                state.db@,
                state.jwt_keys@,
                header_text(authorization),
                checked_at,
            ) {
                Err(rejection) => reply.outline() == rejection_outline(rejection),
                Ok(_) => reply.outline() == success_outline(OK, "User list retrieved"@) && (
                reply.data() matches Some(users) && user_views(users@) == users_newest_first(
                    state.db@,
                )),
            },
{
    match RequireRole::from_request_parts(authorization, state) {
        Ok(_) => {},
        Err(rejection) => {
            return Reply::rejected(rejection);
        },
    }
    let service = UserService::new();
    match service.list_users(&state.db) {
        Ok(users) => Reply::success(OK, users, "User list retrieved"),
        Err(error) => Reply::from_error(error),
    }
}

} // verus!
