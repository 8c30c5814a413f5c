//! The envelopes in which results and errors are handed to callers, and the
//! figures of the admin dashboard.

use vstd::prelude::*;
use crate::utils::validation::FieldErrorView;
use crate::utils::validation::ValidationErrors;

verus! {

/// The envelope of a successful result.
#[derive(Debug)]
pub struct ApiResponse<T> {
    pub success: bool,
    pub data: T,
    pub message: String,
}

impl<T> ApiResponse<T> {
    /// Wraps `data` as a success with the message `message`.
    pub fn success(data: T, message: &str) -> (response: Self)
        ensures
            response.success,
            response.data == data,
            response.message@ == message@,
    {
        Self { success: true, data, message: message.to_string() }
    }
}

/// The envelope of a failure: a message and, for a request that was refused
/// for its shape, the fields that were refused.
#[derive(Debug)]
pub struct ErrorResponse {
    pub success: bool,
    pub error: String,
    pub details: Option<ValidationErrors>,
}

/// The refused fields that a failure reports, if it reports any.
pub open spec fn details_of(details: Option<ValidationErrors>) -> Option<Seq<FieldErrorView>> {
    match details {
        Some(errors) => Some(errors@),
        None => None,
    }
}

impl ErrorResponse {
    /// A failure with the message `error` and no details.
    pub fn new(error: &str) -> (response: Self)
        ensures
            !response.success,
            response.error@ == error@,
            response.details is None,
    {
        Self { success: false, error: error.to_string(), details: None }
    }

    /// A failure with the message `error` and the refused fields `details`.
    pub fn with_details(error: &str, details: ValidationErrors) -> (response: Self)
        ensures
            !response.success,
            response.error@ == error@,
            response.details == Some(details),
    {
        Self { success: false, error: error.to_string(), details: Some(details) }
    }
}

/// The figures of the admin dashboard.
#[derive(Clone, Copy, Debug, PartialEq, Eq, Structural)]
pub struct DashboardStats {
    pub total_users: i64,
    pub active_sessions: i64,
    pub new_registrations_today: i64,
    pub login_attempts_today: i64,
}

/// One line of the activity feed.
#[derive(Debug)]
pub struct ActivityItem {
    pub id: String,
    pub action: String,
    pub user_email: String,
    pub timestamp: u64,
    pub status: String,
}

/// The mathematical value of an [`ActivityItem`].
pub ghost struct ActivityItemView {
    pub id: Seq<char>,
    pub action: Seq<char>,
    pub user_email: Seq<char>,
    pub timestamp: u64,
    pub status: Seq<char>,
}

impl View for ActivityItem {
    type V = ActivityItemView;

    open spec fn view(&self) -> ActivityItemView {
        ActivityItemView {
            id: self.id@,
            action: self.action@,
            user_email: self.user_email@,
            timestamp: self.timestamp,
            status: self.status@,
        }
    }
}

impl Clone for ActivityItem {
    fn clone(&self) -> (copy: Self)
        ensures
            copy == *self,
    {
        ActivityItem {
            id: self.id.clone(),
            action: self.action.clone(),
            user_email: self.user_email.clone(),
            timestamp: self.timestamp,
            status: self.status.clone(),
        }
    }
}

} // verus!
