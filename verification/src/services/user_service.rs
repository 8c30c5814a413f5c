//! Profile management: reading a user, changing name and email, changing the
//! password, recording an avatar, deleting the account, listing the users.

use vstd::prelude::*;
use crate::utils::ident::is_random_uuid;
use crate::utils::clock::is_clock_value;
use crate::database::Database;
use crate::database::DatabaseView;
use crate::database::renamed;
use crate::error::AuthError;
use crate::models::user::ChangePasswordRequest;
use crate::models::user::UpdateProfileRequest;
use crate::models::user::User;
use crate::models::user::UserRowView;
use crate::models::user::UserView;
use crate::ranking::positions;
use crate::ranking::rank_newest_first;
use crate::ranking::ranking;
use crate::services::avatar::AvatarFile;
use crate::services::avatar::StoredAvatar;
use crate::services::avatar::UploadError;
use crate::services::avatar::name_of;
use crate::services::avatar::plan_upload;
use crate::services::avatar::size_of;
use crate::services::avatar::stored_result;
use crate::services::avatar::upload_verdict;
use crate::utils::clock::now;
use crate::utils::password::DEFAULT_COST;
use crate::utils::password::bcrypt_verification;
use crate::utils::password::hash_password;
use crate::utils::password::verify_password;

verus! {

/// The view of a result whose success carries a [`User`].
pub open spec fn user_result(result: Result<User, AuthError>) -> Result<UserView, AuthError> {
    match result {
        Ok(user) => Ok(user@),
        Err(error) => Err(error),
    }
}

/// What reading the user `user_id` answers: the user, or `NotFound`.
pub open spec fn get_user_result(db: DatabaseView, user_id: u128) -> Result<UserView, AuthError> {
    match db.user_by_id(user_id) {
        Some(row) => Ok(row.user()),
        None => Err(AuthError::NotFound),
    }
}

/// What a profile update answers: the updated user; `AlreadyExists` where
/// another user has the email; `NotFound` where the user is not in the store.
pub open spec fn update_profile_result(
    db: DatabaseView,
    user_id: u128,
    name: Seq<char>,
    email: Seq<char>,
    now: u64,
) -> Result<UserView, AuthError> {
    match db.update_profile_verdict(user_id, email) {
        Err(error) => Err(error),
        Ok(_) => Ok(renamed(db.user_by_id(user_id)->0, name, email, now).user()),
    }
}

/// The store after a profile update: changed where it succeeds.
pub open spec fn update_profile_db(
    db: DatabaseView,
    user_id: u128,
    name: Seq<char>,
    email: Seq<char>,
    now: u64,
) -> DatabaseView {
    if db.update_profile_verdict(user_id, email) is Ok {
        db.with_profile(user_id, name, email, now)
    } else {
        db
    }
}

/// What presenting `current_password` for the user `user_id` answers:
/// `NotFound` where the user is not in the store, `Internal` where the
/// stored hash cannot be checked, `InvalidCurrentPassword` where the
/// password does not match.
pub open spec fn current_password_verdict(
    db: DatabaseView,
    user_id: u128,
    current_password: Seq<char>,
) -> Result<(), AuthError> {
    match db.user_by_id(user_id) {
        None => Err(AuthError::NotFound),
        Some(row) => match bcrypt_verification(current_password, row.password_hash) {
            None => Err(AuthError::Internal),
            Some(false) => Err(AuthError::InvalidCurrentPassword),
            Some(true) => Ok(()),
        },
    }
}

/// The store after a password change: with the new hash where the current
/// password was accepted, unchanged where it was not.
pub open spec fn change_password_db(
    db: DatabaseView,
    user_id: u128,
    current_password: Seq<char>,
    new_hash: Seq<char>,
    now: u64,
) -> DatabaseView {
    if current_password_verdict(db, user_id, current_password) is Ok {
        db.with_password_hash(user_id, new_hash, now)
    } else {
        db
    }
}

/// Whether `result` and `after` are what a profile update may leave of the
/// store `before`, for some time.
pub open spec fn is_profile_update(
    before: DatabaseView,
    user_id: u128,
    name: Seq<char>,
    email: Seq<char>,
    result: Result<UserView, AuthError>,
    after: DatabaseView,
) -> bool {
    exists|at: u64|
        is_clock_value(at) && result == #[trigger] update_profile_result(
            before,
            user_id,
            name,
            email,
            at,
        ) && after == #[trigger] update_profile_db(before, user_id, name, email, at)
}

/// Whether `result` and `after` are what a password change may leave of the
/// store `before`, for some salt and time. A change that succeeds stores a
/// hash of the new password; one that is refused leaves the store as it was,
/// with the refusal of the current password where there is one and
/// `Internal` otherwise.
pub open spec fn is_password_change(
    before: DatabaseView,
    user_id: u128,
    current_password: Seq<char>,
    new_password: Seq<char>,
    result: Result<(), AuthError>,
    after: DatabaseView,
) -> bool {
    match result {
        Ok(_) => current_password_verdict(before, user_id, current_password) is Ok && exists|
            hash: Seq<char>,
            at: u64,
        |
            is_clock_value(at) && bcrypt_verification(new_password, hash) == Some(true) && after
                == #[trigger] before.with_password_hash(user_id, hash, at),
        Err(error) => after == before && match current_password_verdict(
            before,
            user_id,
            current_password,
        ) {
            Err(refusal) => error == refusal,
            Ok(_) => error == AuthError::Internal,
        },
    }
}

/// A password change with a wrong current password is refused with
/// `InvalidCurrentPassword` and leaves the store, and so the stored hash, as
/// it was.
pub proof fn lemma_wrong_current_password(
    db: DatabaseView,
    user_id: u128,
    current_password: Seq<char>,
    new_hash: Seq<char>,
    now: u64,
)
    requires
        db.user_by_id(user_id) matches Some(row) && bcrypt_verification(
            current_password,
            row.password_hash,
        ) == Some(false),
    ensures
        current_password_verdict(db, user_id, current_password) == Err::<(), AuthError>(
            AuthError::InvalidCurrentPassword,
        ),
        change_password_db(db, user_id, current_password, new_hash, now) == db,
        change_password_db(db, user_id, current_password, new_hash, now).user_by_id(user_id)
            == db.user_by_id(user_id),
{
}

/// The times at which the users of a store were created, in the order of the
/// store.
pub open spec fn creation_times(users: Seq<UserRowView>) -> Seq<u64> {
    users.map_values(|user: UserRowView| user.created_at)
}

/// The users of a store, newest first; users created in the same second
/// keep the order of the store.
pub open spec fn users_newest_first(db: DatabaseView) -> Seq<UserView> {
    ranking(creation_times(db.users)).map_values(user_at(db))
}

/// The user at a position of a store.
pub open spec fn user_at(db: DatabaseView) -> spec_fn(int) -> UserView {
    |position: int| db.users[position].user()
}

/// The mathematical values of a sequence of users.
pub open spec fn user_views(users: Seq<User>) -> Seq<UserView> {
    users.map_values(|user: User| user@)
}

/// The profile operations, over a work factor for password hashing.
pub struct UserService {
    cost: u32,
}

impl UserService {
    /// A service that hashes passwords at the default work factor.
    pub fn new() -> (service: Self)
        ensures
            service.work_factor() == DEFAULT_COST,
    {
        Self { cost: DEFAULT_COST }
    }

    /// A service that hashes passwords at the work factor `cost`.
    pub fn with_cost(cost: u32) -> (service: Self)
        ensures
            service.work_factor() == cost,
    {
        Self { cost }
    }

    /// The work factor at which this service hashes passwords.
    pub closed spec fn work_factor(&self) -> u32 {
        self.cost
    }

    /// Reads the user `user_id`.
    pub fn get_user_by_id(&self, db: &Database, user_id: u128) -> (result: Result<User, AuthError>)
        ensures
            user_result(result) == get_user_result(db@, user_id),
    {
        match db.find_user_by_id(user_id) {
            Some(row) => Ok(User::from(row)),
            None => Err(AuthError::NotFound),
        }
    }

    /// Gives the user `user_id` a new name and email at the time `now`, and
    /// answers the updated user.
    pub fn update_profile_at(
        &self,
        db: &mut Database,
        user_id: u128,
        request: UpdateProfileRequest,
        now: u64,
    ) -> (result: Result<User, AuthError>)
        ensures
            user_result(result) == update_profile_result(
                old(db)@,
                user_id,
                request.name@,
                request.email@,
                now,
            ),
            final(db)@ == update_profile_db(old(db)@, user_id, request.name@, request.email@, now),
    {
        let row = db.find_user_by_id(user_id);
        match db.update_profile(user_id, request.name.clone(), request.email.clone(), now) {
            Err(error) => Err(error),
            Ok(_) => {
                match row {
                    Some(row) => {
                        let mut user = User::from(row);
                        user.name = Some(request.name);
                        user.email = request.email;
                        user.updated_at = now;
                        Ok(user)
                    },
                    None => Err(AuthError::NotFound),
                }
            },
        }
    }

    /// Gives the user `user_id` a new name and email at the current time.
    pub fn update_profile(&self, db: &mut Database, user_id: u128, request: UpdateProfileRequest)
        -> (result: Result<User, AuthError>)
        ensures
            is_profile_update(
                old(db)@,
                user_id,
                request.name@,
                request.email@,
                user_result(result),
                final(db)@,
            ),
    {
        let at = now();
        let result = self.update_profile_at(db, user_id, request, at);
        assert(user_result(result) == update_profile_result(
            old(db)@,
            user_id,
            request.name@,
            request.email@,
            at,
        ) && db@ == update_profile_db(old(db)@, user_id, request.name@, request.email@, at));
        result
    }

    /// Checks the current password of the user `user_id`.
    pub fn check_current_password(&self, db: &Database, user_id: u128, current_password: &str) -> (
    result: Result<(), AuthError>)
        ensures
            result == current_password_verdict(db@, user_id, current_password@),
    {
        let row = match db.find_user_by_id(user_id) {
            Some(row) => row,
            None => {
                return Err(AuthError::NotFound);
            },
        };
        match verify_password(current_password, row.password_hash.as_str()) {
            Ok(true) => Ok(()),
            Ok(false) => Err(AuthError::InvalidCurrentPassword),
            Err(_) => Err(AuthError::Internal),
        }
    }

    /// Replaces the password hash of the user `user_id` by `new_hash` at the
    /// time `now`, if the request presents the user's current password.
    /// Otherwise the store is as it was.
    pub fn change_password_with(
        &self,
        db: &mut Database,
        user_id: u128,
        request: &ChangePasswordRequest,
        new_hash: String,
        now: u64,
    ) -> (result: Result<(), AuthError>)
        ensures
            result == current_password_verdict(old(db)@, user_id, request.current_password@),
            final(db)@ == change_password_db(
                old(db)@,
                user_id,
                request.current_password@,
                new_hash@,
                now,
            ),
    {
        match self.check_current_password(db, user_id, request.current_password.as_str()) {
            Err(error) => Err(error),
            Ok(_) => {
                db.update_password_hash(user_id, new_hash, now);
                Ok(())
            },
        }
    }

    /// Changes the password of the user `user_id`: checks the current
    /// password, then hashes the new one with a fresh salt and stores the
    /// hash at the current time. A wrong current password is
    /// `InvalidCurrentPassword`; where the change fails the store is as it
    /// was.
    pub fn change_password(&self, db: &mut Database, user_id: u128, request: ChangePasswordRequest)
        -> (result: Result<(), AuthError>)
        ensures
            is_password_change(
                old(db)@,
                user_id,
                request.current_password@,
                request.new_password@,
                result,
                final(db)@,
            ),
    {
        match self.check_current_password(db, user_id, request.current_password.as_str()) {
            Err(error) => {
                return Err(error);
            },
            Ok(_) => {},
        }
        let new_hash = match hash_password(request.new_password.as_str(), self.cost) {
            Ok(hash) => hash,
            Err(_) => {
                return Err(AuthError::Internal);
            },
        };
        let at = now();
        db.update_password_hash(user_id, new_hash, at);
        assert(db@ == old(db)@.with_password_hash(user_id, new_hash@, at));
        Ok(())
    }

    /// Judges the avatar that the user `user_id` uploads and, where it is
    /// accepted, says where the file is to be kept. Nothing is stored yet.
    pub fn upload_avatar(&self, user_id: u128, file: Option<AvatarFile>) -> (result: Result<
        StoredAvatar,
        UploadError,
    >)
        ensures
            exists|file_id: u128|
                is_random_uuid(file_id) && stored_result(result) == #[trigger] upload_verdict(
                    name_of(file),
                    size_of(file),
                    user_id,
                    file_id,
                ),
    {
        plan_upload(file, user_id)
    }

    /// Records at the time `now` that the avatar of the user `user_id` is
    /// served under `avatar_url`, and answers that address.
    pub fn store_avatar_at(&self, db: &mut Database, user_id: u128, avatar_url: String, now: u64)
        -> (result: Result<String, AuthError>)
        ensures
            result matches Ok(url) && url@ == avatar_url@,
            final(db)@ == old(db)@.with_avatar(user_id, avatar_url@, now),
    {
        db.update_avatar(user_id, avatar_url.clone(), now);
        Ok(avatar_url)
    }

    /// Records at the current time that the avatar of the user `user_id` is
    /// served under `avatar_url`, and answers that address.
    pub fn store_avatar(&self, db: &mut Database, user_id: u128, avatar_url: String) -> (result:
        Result<String, AuthError>)
        ensures
            result matches Ok(url) && url@ == avatar_url@,
            exists|at: u64|
                is_clock_value(at) && final(db)@ == #[trigger] old(db)@.with_avatar(
                    user_id,
                    avatar_url@,
                    at,
                ),
    {
        self.store_avatar_at(db, user_id, avatar_url, now())
    }

    /// Lists all users, newest first.
    pub fn list_users(&self, db: &Database) -> (result: Result<Vec<User>, AuthError>)
        ensures
            result matches Ok(users) && user_views(users@) == users_newest_first(db@),
    {
        let count = db.user_count();
        let mut times: Vec<u64> = Vec::new();
        let mut i: usize = 0;
        while i < count
            invariant
                i <= count,
                count == db@.users.len(),
                times@ == creation_times(db@.users.take(i as int)),
            decreases count - i,
        {
            times.push(db.user_at(i).created_at);
            assert(times@ =~= creation_times(db@.users.take(i + 1)));
            i += 1;
        }
        assert(db@.users.take(count as int) =~= db@.users);
        let order = rank_newest_first(&times);
        let mut users: Vec<User> = Vec::new();
        let mut k: usize = 0;
        while k < order.len()
            invariant
                k <= order.len(),
                count == db@.users.len(),
                order@.len() == count,
                forall|j: int| 0 <= j < order@.len() ==> #[trigger] order@[j] < count,
                user_views(users@) == positions(order@).take(k as int).map_values(user_at(db@)),
            decreases order.len() - k,
        {
            let row = db.user_at(order[k]);
            let user = User::from(row.clone());
            let ghost listed = user_views(users@);
            users.push(user);
            proof {
                let next = positions(order@).take(k + 1);
                assert(next[k as int] == order@[k as int]);
                assert(user@ == user_at(db@)(next[k as int]));
                assert(user_views(users@) =~= listed.push(user@));
                assert(next.drop_last() =~= positions(order@).take(k as int));
                assert(next.map_values(user_at(db@)) =~= listed.push(user@));
            }
            k += 1;
        }
        assert(positions(order@).take(k as int) =~= positions(order@));
        Ok(users)
    }

    /// Deletes the user `user_id` and, with the user, every refresh-token
    /// record of that user. It succeeds whether or not the user existed.
    pub fn delete_account(&self, db: &mut Database, user_id: u128) -> (result: Result<
        (),
        AuthError,
    >)
        ensures
            result is Ok,
            final(db)@ == old(db)@.without_user(user_id),
    {
        db.delete_user(user_id);
        Ok(())
    }
}

} // verus!
