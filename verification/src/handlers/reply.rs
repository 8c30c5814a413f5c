//! The answer to a request: a status and an envelope.
//!
//! The status of a failure is a function of the kind of error, never of its
//! message.

use vstd::prelude::*;
use crate::error::AuthError;
use crate::middleware::auth::Rejection;
use crate::models::response::ApiResponse;
use crate::models::response::ErrorResponse;
use crate::models::response::details_of;
use crate::services::avatar::UploadError;
use crate::utils::validation::FieldErrorView;
use crate::utils::validation::ValidationErrors;

verus! {

/// The status of a success.
pub const OK: u16 = 200;

/// The status of a success that created something.
pub const CREATED: u16 = 201;

/// The status of a request that is refused for its shape or content.
pub const BAD_REQUEST: u16 = 400;

/// The answer to a request.
#[derive(Debug)]
pub struct Reply<T> {
    pub status: u16,
    pub body: Result<ApiResponse<T>, ErrorResponse>,
}

/// What an answer says, its data apart: the status, whether it is a success,
/// the message, and the refused fields where it reports any.
pub ghost struct Outline {
    pub status: u16,
    pub success: bool,
    pub message: Seq<char>,
    pub details: Option<Seq<FieldErrorView>>,
}

/// The outline of a success.
pub open spec fn success_outline(status: u16, message: Seq<char>) -> Outline {
    Outline { status: status, success: true, message: message, details: None }
}

/// The outline of a failure without details.
pub open spec fn failure_outline(status: u16, message: Seq<char>) -> Outline {
    Outline { status: status, success: false, message: message, details: None }
}

/// The outline of the answer to a request of the wrong shape.
pub open spec fn invalid_outline(errors: Seq<FieldErrorView>) -> Outline {
    Outline {
        status: BAD_REQUEST,
        success: false,
        message: "Validation failed"@,
        details: Some(errors),
    }
}

/// The outline of the answer to an error of the core: status and message of
/// its kind.
pub open spec fn error_outline(error: AuthError) -> Outline {
    failure_outline(error.status_code(), error.message_text())
}

/// The outline of the answer to a request that the guard turned away.
pub open spec fn rejection_outline(rejection: Rejection) -> Outline {
    failure_outline(rejection.status_code(), rejection.message_text())
}

/// The outline of the answer to an upload that was refused.
pub open spec fn upload_error_outline(error: UploadError) -> Outline {
    failure_outline(BAD_REQUEST, error.message_text())
}

/// The outline of the answer to the result of an operation: a success with
/// the status and message given, or the answer to the error.
pub open spec fn result_outline<V>(result: Result<V, AuthError>, status: u16, message: Seq<char>)
    -> Outline {
    match result {
        Ok(_) => success_outline(status, message),
        Err(error) => error_outline(error),
    }
}

impl<T> Reply<T> {
    /// What this answer says, its data apart.
    pub open spec fn outline(self) -> Outline {
        match self.body {
            Ok(body) => Outline {
                status: self.status,
                success: body.success,
                message: body.message@,
                details: None,
            },
            Err(body) => Outline {
                status: self.status,
                success: body.success,
                message: body.error@,
                details: details_of(body.details),
            },
        }
    }

    /// The data of this answer, if it is a success.
    pub open spec fn data(self) -> Option<T> {
        match self.body {
            Ok(body) => Some(body.data),
            Err(_) => None,
        }
    }

    /// A success with the status and message given.
    pub fn success(status: u16, data: T, message: &str) -> (reply: Self)
        ensures
            reply.outline() == success_outline(status, message@),
            reply.data() == Some(data),
    {
        Reply { status, body: Ok(ApiResponse::success(data, message)) }
    }

    /// A failure with the status and message given.
    pub fn failure(status: u16, message: &str) -> (reply: Self)
        ensures
            reply.outline() == failure_outline(status, message@),
            reply.data() is None,
    {
        Reply { status, body: Err(ErrorResponse::new(message)) }
    }

    /// The answer to a request of the wrong shape: status 400, and the
    /// refused fields.
    pub fn invalid(errors: ValidationErrors) -> (reply: Self)
        ensures
            reply.outline() == invalid_outline(errors@),
            reply.data() is None,
    {
        Reply {
            status: BAD_REQUEST,
            body: Err(ErrorResponse::with_details("Validation failed", errors)),
        }
    }

    /// The answer to an error of the core: the status and the message of its
    /// kind.
    pub fn from_error(error: AuthError) -> (reply: Self)
        ensures
            reply.outline() == error_outline(error),
            reply.data() is None,
    {
        let message = error.message();
        Reply::failure(error.status(), message.as_str())
    }

    /// The answer to a request that the guard turned away.
    pub fn rejected(rejection: Rejection) -> (reply: Self)
        ensures
            reply.outline() == rejection_outline(rejection),
            reply.data() is None,
    {
        let message = rejection.message();
        Reply::failure(rejection.status(), message.as_str())
    }

    /// The answer to an upload that was refused: status 400, and the message
    /// of the refusal.
    pub fn refused(error: UploadError) -> (reply: Self)
        ensures
            reply.outline() == upload_error_outline(error),
            reply.data() is None,
    {
        let message = error.message();
        Reply::failure(BAD_REQUEST, message.as_str())
    }

    /// The answer to the result of an operation: a success with the status
    /// and message given, or the answer to the error.
    pub fn from_result(result: Result<T, AuthError>, status: u16, message: &str) -> (reply: Self)
        ensures
            reply.outline() == result_outline(result, status, message@),
            reply.data() == match result {
                Ok(data) => Some(data),
                Err(_) => None,
            },
    {
        match result {
            Ok(data) => Reply::success(status, data, message),
            Err(error) => Reply::from_error(error),
        }
    }
}

} // verus!
