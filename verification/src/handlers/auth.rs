//! Registration, login, logout, refresh and the current user, as the
//! transport sees them.

use vstd::prelude::*;
use crate::utils::clock::is_clock_value;
use crate::AppState;
use crate::error::AuthError;
use crate::handlers::reply::CREATED;
use crate::handlers::reply::OK;
use crate::handlers::reply::Reply;
use crate::handlers::reply::failure_outline;
use crate::handlers::reply::invalid_outline;
use crate::handlers::reply::rejection_outline;
use crate::handlers::reply::result_outline;
use crate::handlers::reply::success_outline;
use crate::middleware::auth::AuthUser;
use crate::middleware::auth::auth_verdict;
use crate::middleware::auth::header_text;
use crate::models::auth::AuthResponse;
use crate::models::auth::AuthResponseView;
use crate::models::auth::LoginRequest;
use crate::models::auth::RefreshRequest;
use crate::models::auth::RegisterRequest;
use crate::models::user::User;
use crate::services::auth_service::AuthService;
use crate::services::auth_service::is_login;
use crate::services::auth_service::is_registration;
use crate::services::auth_service::is_rotation;
use crate::services::auth_service::response_result;
use crate::utils::validation::login_errors;
use crate::utils::validation::register_errors;

verus! {

/// The view of the data of an answer that carries an [`AuthResponse`].
pub open spec fn response_data(reply: Reply<AuthResponse>) -> Option<AuthResponseView> {
    match reply.data() {
        Some(response) => Some(response@),
        None => None,
    }
}

/// The success of a result, if it is one.
pub open spec fn success_of<V>(result: Result<V, AuthError>) -> Option<V> {
    match result {
        Ok(value) => Some(value),
        Err(_) => None,
    }
}

/// The message that a refresh answers for an error: a refused token is
/// named as a refresh token.
pub open spec fn refresh_message(error: AuthError) -> Seq<char> {
    if error == AuthError::InvalidToken {
        "Invalid refresh token"@
    } else {
        error.message_text()
    }
}

/// Registers a user. A request of the wrong shape is answered with status
/// 400 and changes nothing; otherwise the answer is that of the
/// registration: status 201 and the new session, 409 where the email is
/// taken, 500 for an internal failure.
pub fn register(state: &mut AppState, payload: RegisterRequest) -> (reply: Reply<AuthResponse>)
    ensures
        final(state).jwt_keys == old(state).jwt_keys,
        final(state).settings == old(state).settings,
        register_errors(payload).len() > 0 ==> reply.outline() == invalid_outline(
            register_errors(payload),
        ) && final(state).db@ == old(state).db@,
        register_errors(payload).len() == 0 ==> exists|
            result: Result<AuthResponseView, AuthError>,
        |
            #![trigger success_of(result)]
            is_registration(
                old(state).db@,
                old(state).jwt_keys@,
                payload.email@,
                payload.password@,
                payload.agree_to_terms,
                result,
                final(state).db@,
            ) && reply.outline() == result_outline(result, CREATED, "User registered successfully"@)
                && response_data(reply) == success_of(result),
{
    match payload.validate() {
        Err(errors) => Reply::invalid(errors),
        Ok(_) => {
            let service = AuthService::new(&state.jwt_keys);
            let result = service.register(&mut state.db, payload);
            let ghost outcome = response_result(result);
            let reply = Reply::from_result(result, CREATED, "User registered successfully");
            assert(response_data(reply) == success_of(outcome));
            reply
        },
    }
}

/// Logs a user in. A request of the wrong shape is answered with status 400
/// and changes nothing; otherwise the answer is that of the login: status
/// 200 and the new session, 401 for an unknown email and for a wrong
/// password alike.
pub fn login(state: &mut AppState, payload: LoginRequest) -> (reply: Reply<AuthResponse>)
    ensures
        final(state).jwt_keys == old(state).jwt_keys,
        final(state).settings == old(state).settings,
        login_errors(payload).len() > 0 ==> reply.outline() == invalid_outline(
            login_errors(payload),
        ) && final(state).db@ == old(state).db@,
        login_errors(payload).len() == 0 ==> exists|result: Result<AuthResponseView, AuthError>|
            #![trigger success_of(result)]
            is_login(
                old(state).db@,
                old(state).jwt_keys@,
                payload.email@,
                payload.password@,
                result,
                final(state).db@,
            ) && reply.outline() == result_outline(result, OK, "Login successful"@)
                && response_data(reply) == success_of(result),
{
    match payload.validate() {
        Err(errors) => Reply::invalid(errors),
        Ok(_) => {
            let service = AuthService::new(&state.jwt_keys);
            let result = service.login(&mut state.db, payload);
            let ghost outcome = response_result(result);
            let reply = Reply::from_result(result, OK, "Login successful");
            assert(response_data(reply) == success_of(outcome));
            reply
        },
    }
}

/// Logs the user of the request out: every refresh-token record of the user
/// is removed. A request that the guard turns away changes nothing.
pub fn logout(state: &mut AppState, authorization: Option<&str>) -> (reply: Reply<String>)
    ensures
        final(state).jwt_keys == old(state).jwt_keys,
        final(state).settings == old(state).settings,
        exists|at: u64|
            is_clock_value(at) && match #[trigger] auth_verdict(
                old(state).db@,
                old(state).jwt_keys@,
                header_text(authorization),
                at,
            ) {
                Err(rejection) => reply.outline() == rejection_outline(rejection)
                    && final(state).db@ == old(state).db@,
                Ok(user) => reply.outline() == success_outline(OK, "Logout successful"@)
                    && final(state).db@ == old(state).db@.without_records_of(user.id) && (
                reply.data() matches Some(data) && data@ == "Logged out"@),
            },
{
    let auth_user = match AuthUser::from_request_parts(authorization, state) {
        Ok(auth_user) => auth_user,
        Err(rejection) => {
            return Reply::rejected(rejection);
        },
    };
    let service = AuthService::new(&state.jwt_keys);
    match service.logout(&mut state.db, auth_user.user.id) {
        Ok(_) => Reply::success(OK, "Logged out".to_string(), "Logout successful"),
        Err(error) => Reply::from_error(error),
    }
}

/// Exchanges a refresh token for a new session. The answer is that of the
/// rotation: status 200 and the new session, or the status of the error; a
/// refused token is answered with status 401 and named as a refresh token.
pub fn refresh_token(state: &mut AppState, payload: RefreshRequest) -> (reply: Reply<AuthResponse>)
    ensures
        final(state).jwt_keys == old(state).jwt_keys,
        final(state).settings == old(state).settings,
        exists|result: Result<AuthResponseView, AuthError>|
            #![trigger success_of(result)]
            is_rotation(
                old(state).db@,
                old(state).jwt_keys@,
                payload.refresh_token@,
                result,
                final(state).db@,
            ) && response_data(reply) == success_of(result) && match result {
                Ok(_) => reply.outline() == success_outline(OK, "Token refreshed successfully"@),
                Err(error) => reply.outline() == failure_outline(
                    error.status_code(),
                    refresh_message(error),
                ),
            },
{
    let service = AuthService::new(&state.jwt_keys);
    let result = service.refresh_token(&mut state.db, payload.refresh_token);
    let ghost outcome = response_result(result);
    let reply = match result {
        Ok(response) => Reply::success(OK, response, "Token refreshed successfully"),
        Err(error) => {
            if error == AuthError::InvalidToken {
                Reply::failure(error.status(), "Invalid refresh token")
            } else {
                Reply::from_error(error)
            }
        },
    };
    assert(response_data(reply) == success_of(outcome));
    reply
}

/// Answers the user of the request.
pub fn get_current_user(state: &AppState, authorization: Option<&str>) -> (reply: Reply<User>)
    ensures
        exists|at: u64|
            is_clock_value(at) && match #[trigger] auth_verdict(
                state.db@,
                state.jwt_keys@,
                header_text(authorization),
                at,
            ) {
                Err(rejection) => reply.outline() == rejection_outline(rejection),
                Ok(user) => reply.outline() == success_outline(OK, "Current user retrieved"@)
                    && (reply.data() matches Some(data) && data@ == user),
            },
{
    match AuthUser::from_request_parts(authorization, state) {
        Ok(auth_user) => Reply::success(OK, auth_user.user, "Current user retrieved"),
        Err(rejection) => Reply::rejected(rejection),
    }
}

} // verus!
