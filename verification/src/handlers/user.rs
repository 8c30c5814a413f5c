//! Profile, password, account and avatar, as the transport sees them. Each
//! operation acts for the user that the guard finds in the request.

use vstd::prelude::*;
use crate::utils::ident::is_random_uuid;
use crate::utils::clock::is_clock_value;
use crate::AppState;
use crate::error::AuthError;
use crate::handlers::reply::OK;
use crate::handlers::reply::Outline;
use crate::handlers::reply::Reply;
use crate::handlers::reply::invalid_outline;
use crate::handlers::reply::rejection_outline;
use crate::handlers::reply::result_outline;
use crate::handlers::reply::success_outline;
use crate::handlers::reply::upload_error_outline;
use crate::middleware::auth::AuthUser;
use crate::middleware::auth::auth_user_result;
use crate::middleware::auth::auth_verdict;
use crate::middleware::auth::header_text;
use crate::models::user::ChangePasswordRequest;
use crate::models::user::UpdateProfileRequest;
use crate::models::user::UserProfile;
use crate::models::user::UserProfileView;
use crate::models::user::UserView;
use crate::services::avatar::AvatarFile;
use crate::services::avatar::StoredAvatar;
use crate::services::avatar::StoredAvatarView;
use crate::services::avatar::UploadError;
use crate::services::avatar::name_of;
use crate::services::avatar::size_of;
use crate::services::avatar::stored_result;
use crate::services::avatar::upload_verdict;
use crate::services::user_service::UserService;
use crate::services::user_service::is_password_change;
use crate::services::user_service::is_profile_update;
use crate::services::user_service::user_result;
use crate::utils::validation::change_password_errors;
use crate::utils::validation::update_profile_errors;

verus! {

/// The view of the data of an answer that carries a [`UserProfile`].
pub open spec fn profile_data(reply: Reply<UserProfile>) -> Option<UserProfileView> {
    match reply.data() {
        Some(profile) => Some(profile@),
        None => None,
    }
}

/// The view of the data of an answer that carries a text.
pub open spec fn text_data(reply: Reply<String>) -> Option<Seq<char>> {
    match reply.data() {
        Some(text) => Some(text@),
        None => None,
    }
}

/// The profile of the user that an update answers, if it answers one.
pub open spec fn profile_of(result: Result<UserView, AuthError>) -> Option<UserProfileView> {
    match result {
        Ok(user) => Some(user.profile()),
        Err(_) => None,
    }
}

/// Answers the profile of the user of the request.
pub fn get_profile(state: &AppState, authorization: Option<&str>) -> (reply: Reply<UserProfile>)
    ensures
        exists|at: u64|
            is_clock_value(at) && match #[trigger] auth_verdict(
                state.db@,
                state.jwt_keys@,
                header_text(authorization),
                at,
            ) {
                Err(rejection) => reply.outline() == rejection_outline(rejection),
                Ok(user) => reply.outline() == success_outline(
                    OK,
                    "Profile retrieved successfully"@,
                ) && profile_data(reply) == Some(user.profile()),
            },
{
    match AuthUser::from_request_parts(authorization, state) {
        Ok(auth_user) => Reply::success(
            OK,
            UserProfile::from(auth_user.user),
            "Profile retrieved successfully",
        ),
        Err(rejection) => Reply::rejected(rejection),
    }
}

/// Gives the user of the request a new name and email. A request that the
/// guard turns away, or of the wrong shape, changes nothing; otherwise the
/// answer is that of the update: status 200 and the new profile, 409 where
/// another user has the email.
pub fn update_profile(
    state: &mut AppState,
    authorization: Option<&str>,
    payload: UpdateProfileRequest,
) -> (reply: Reply<UserProfile>)
    ensures
        final(state).jwt_keys == old(state).jwt_keys,
        final(state).settings == old(state).settings,
        exists|at: u64|
            is_clock_value(at) && match #[trigger] auth_verdict(
                old(state).db@,
                old(state).jwt_keys@,
                header_text(authorization),
                at,
            ) {
                Err(rejection) => reply.outline() == rejection_outline(rejection)
                    && final(state).db@ == old(state).db@,
                Ok(user) => if update_profile_errors(payload).len() > 0 {
                    reply.outline() == invalid_outline(update_profile_errors(payload)) && final(
                        state).db@ == old(state).db@
                } else {
                    exists|result: Result<UserView, AuthError>|
                        #![trigger profile_of(result)]
                        is_profile_update(
                            old(state).db@,
                            user.id,
                            payload.name@,
                            payload.email@,
                            result,
                            final(state).db@,
                        ) && reply.outline() == result_outline(
                            result,
                            OK,
                            "Profile updated successfully"@,
                        ) && profile_data(reply) == profile_of(result)
                },
            },
{
    let auth_user = match AuthUser::from_request_parts(authorization, state) {
        Ok(auth_user) => auth_user,
        Err(rejection) => {
            return Reply::rejected(rejection);
        },
    };
    match payload.validate() {
        Err(errors) => Reply::invalid(errors),
        Ok(_) => {
            let service = UserService::new();
            let result = service.update_profile(&mut state.db, auth_user.user.id, payload);
            let ghost outcome = user_result(result);
            let reply = match result {
                Ok(user) => Reply::success(
                    OK,
                    UserProfile::from(user),
                    "Profile updated successfully",
                ),
                Err(error) => Reply::from_error(error),
            };
            assert(profile_data(reply) == profile_of(outcome));
            reply
        },
    }
}

/// Changes the password of the user of the request. A request that the guard
/// turns away, or of the wrong shape, changes nothing; otherwise the answer
/// is that of the change: status 200, or 400 for a wrong current password.
pub fn change_password(
    state: &mut AppState,
    authorization: Option<&str>,
    payload: ChangePasswordRequest,
) -> (reply: Reply<String>)
    ensures
        final(state).jwt_keys == old(state).jwt_keys,
        final(state).settings == old(state).settings,
        exists|at: u64|
            is_clock_value(at) && match #[trigger] auth_verdict(
                old(state).db@,
                old(state).jwt_keys@,
                header_text(authorization),
                at,
            ) {
                Err(rejection) => reply.outline() == rejection_outline(rejection)
                    && final(state).db@ == old(state).db@,
                Ok(user) => if change_password_errors(payload).len() > 0 {
                    reply.outline() == invalid_outline(change_password_errors(payload)) && final(
                        state).db@ == old(state).db@
                } else {
                    exists|result: Result<(), AuthError>|
                        #![trigger result_outline(result, OK, "Password changed successfully"@)]
                        is_password_change(
                            old(state).db@,
                            user.id,
                            payload.current_password@,
                            payload.new_password@,
                            result,
                            final(state).db@,
                        ) && reply.outline() == result_outline(
                            result,
                            OK,
                            "Password changed successfully"@,
                        ) && (result is Ok ==> text_data(reply) == Some("Password changed"@))
                },
            },
{
    let auth_user = match AuthUser::from_request_parts(authorization, state) {
        Ok(auth_user) => auth_user,
        Err(rejection) => {
            return Reply::rejected(rejection);
        },
    };
    match payload.validate() {
        Err(errors) => Reply::invalid(errors),
        Ok(_) => {
            let service = UserService::new();
            let result = service.change_password(&mut state.db, auth_user.user.id, payload);
            let reply = match result {
                Ok(_) => Reply::success(
                    OK,
                    "Password changed".to_string(),
                    "Password changed successfully",
                ),
                Err(error) => Reply::from_error(error),
            };
            assert(reply.outline() == result_outline(
                result,
                OK,
                "Password changed successfully"@,
            ));
            reply
        },
    }
}

/// Deletes the account of the user of the request, and with it every
/// refresh-token record of the user. A request that the guard turns away
/// changes nothing.
pub fn delete_account(state: &mut AppState, authorization: Option<&str>) -> (reply: Reply<String>)
    ensures
        final(state).jwt_keys == old(state).jwt_keys,
        final(state).settings == old(state).settings,
        exists|at: u64|
            is_clock_value(at) && match #[trigger] auth_verdict(
                old(state).db@,
                old(state).jwt_keys@,
                header_text(authorization),
                at,
            ) {
                Err(rejection) => reply.outline() == rejection_outline(rejection)
                    && final(state).db@ == old(state).db@,
                Ok(user) => reply.outline() == success_outline(
                    OK,
                    "Account deleted successfully"@,
                ) && text_data(reply) == Some("Account deleted"@) && final(state).db@ == old(
                    state).db@.without_user(user.id),
            },
{
    let auth_user = match AuthUser::from_request_parts(authorization, state) {
        Ok(auth_user) => auth_user,
        Err(rejection) => {
            return Reply::rejected(rejection);
        },
    };
    let service = UserService::new();
    match service.delete_account(&mut state.db, auth_user.user.id) {
        Ok(_) => Reply::success(OK, "Account deleted".to_string(), "Account deleted successfully"),
        Err(error) => Reply::from_error(error),
    }
}

/// An avatar that was accepted and is to be written to its file before it is
/// recorded.
#[derive(Debug)]
pub struct PendingAvatar {
    pub user_id: u128,
    pub stored: StoredAvatar,
}

/// The view of the first step of an upload: the user and the place of the
/// file, or the outline of the answer that refuses it.
pub open spec fn pending_result(result: Result<PendingAvatar, Reply<String>>) -> Result<
    (u128, StoredAvatarView),
    Outline,
> {
    match result {
        Ok(pending) => Ok((pending.user_id, pending.stored@)),
        Err(reply) => Err(reply.outline()),
    }
}

/// The first step of an upload, for each verdict on the file.
pub open spec fn pending_for(
    user_id: u128,
    verdict: Result<StoredAvatarView, UploadError>,
) -> Result<(u128, StoredAvatarView), Outline> {
    match verdict {
        Ok(stored) => Ok((user_id, stored)),
        Err(error) => Err(upload_error_outline(error)),
    }
}

/// The first step of an avatar upload: judges the file that the request of a
/// user holds under the name `avatar`. Where the file is accepted, the
/// answer says where it is to be written; the upload is recorded by
/// [`finish_upload`] once that is done. Nothing is stored by this step.
pub fn upload_avatar(state: &AppState, authorization: Option<&str>, file: Option<AvatarFile>) -> (
result: Result<PendingAvatar, Reply<String>>)
    ensures
        exists|at: u64|
            is_clock_value(at) && match #[trigger] auth_verdict(
                state.db@,
                state.jwt_keys@,
                header_text(authorization),
                at,
            ) {
                Err(rejection) => pending_result(result) == Err::<
                    (u128, StoredAvatarView),
                    Outline,
                >(rejection_outline(rejection)),
                Ok(user) => exists|file_id: u128|
                    is_random_uuid(file_id) && pending_result(result) == pending_for(
                        user.id,
                        #[trigger] upload_verdict(name_of(file), size_of(file), user.id, file_id),
                    ),
            },
{
    let auth_user = match AuthUser::from_request_parts(authorization, state) {
        Ok(auth_user) => auth_user,
        Err(rejection) => {
            return Err(Reply::rejected(rejection));
        },
    };
    let service = UserService::new();
    let user_id = auth_user.user.id;
    let planned = service.upload_avatar(user_id, file);
    let ghost file_id = choose|file_id: u128|
        stored_result(planned) == #[trigger] upload_verdict(
            name_of(file),
            size_of(file),
            user_id,
            file_id,
        );
    let result = match planned {
        Ok(stored) => Ok(PendingAvatar { user_id, stored }),
        Err(error) => Err(Reply::refused(error)),
    };
    proof {
        let at = choose|at: u64|
            auth_user_result(Ok(auth_user)) == #[trigger] auth_verdict(
                state.db@,
                state.jwt_keys@,
                header_text(authorization),
                at,
            );
        let verdict = auth_verdict(state.db@, state.jwt_keys@, header_text(authorization), at);
        assert(verdict matches Ok(user) && user.id == user_id);
        assert(pending_result(result) == pending_for(
            user_id,
            upload_verdict(name_of(file), size_of(file), user_id, file_id),
        ));
    }
    result
}

/// The last step of an avatar upload: records that the avatar of the user is
/// served under its address, and answers the address.
pub fn finish_upload(state: &mut AppState, pending: PendingAvatar) -> (reply: Reply<String>)
    ensures
        final(state).jwt_keys == old(state).jwt_keys,
        final(state).settings == old(state).settings,
        reply.outline() == success_outline(OK, "Avatar uploaded successfully"@),
        text_data(reply) == Some(pending.stored.avatar_url@),
        exists|at: u64|
            is_clock_value(at) && final(state).db@ == #[trigger] old(state).db@.with_avatar(
                pending.user_id,
                pending.stored.avatar_url@,
                at,
            ),
{
    let service = UserService::new();
    match service.store_avatar(&mut state.db, pending.user_id, pending.stored.avatar_url) {
        Ok(url) => Reply::success(OK, url, "Avatar uploaded successfully"),
        Err(error) => Reply::from_error(error),
    }
}

} // verus!
