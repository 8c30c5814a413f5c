//! The chart of logins, as the transport sees it.

use vstd::prelude::*;
use crate::utils::clock::is_clock_value;
use crate::AppState;
use crate::handlers::reply::OK;
use crate::handlers::reply::Reply;
use crate::handlers::reply::rejection_outline;
use crate::handlers::reply::success_outline;
use crate::middleware::auth::RequireRole;
use crate::middleware::auth::admin_verdict;
use crate::middleware::auth::header_text;
use crate::services::admin_service::AdminService;
use crate::services::admin_service::LoginsPerDay;
use crate::services::admin_service::chart_views;
use crate::services::admin_service::logins_per_day_at;

verus! {

/// Answers the chart of logins per weekday to an admin.
pub fn logins_per_day(state: &AppState, authorization: Option<&str>) -> (reply: Reply<
    Vec<LoginsPerDay>,
>)
    ensures
        exists|checked_at: u64|
            is_clock_value(checked_at) && match #[trigger] admin_verdict(
                state.db@,
                state.jwt_keys@,
                header_text(authorization),
                checked_at,
            ) {
                Err(rejection) => reply.outline() == rejection_outline(rejection),
                Ok(_) => reply.outline() == success_outline(OK, "Logins per day retrieved"@)
                    && exists|at: u64|
                    is_clock_value(at) && (reply.data() matches Some(chart) && chart_views(chart@)
                        == #[trigger] logins_per_day_at(state.db@, at)),
            },
{
    match RequireRole::from_request_parts(authorization, state) {
        Ok(_) => {},
        Err(rejection) => {
            return Reply::rejected(rejection);
        },
    }
    let service = AdminService::new();
    match service.get_logins_per_day(&state.db) {
        Ok(chart) => Reply::success(OK, chart, "Logins per day retrieved"),
        Err(error) => Reply::from_error(error),
    }
}

} // verus!
