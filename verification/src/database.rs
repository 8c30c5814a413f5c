//! The store: user rows and the records of issued refresh tokens.
//!
//! The store keeps three invariants. No two users share an identifier, no
//! two users share an email, and no two records share an identifier. Every
//! operation is stated over the store's mathematical value, a
//! [`DatabaseView`].

use vstd::prelude::*;
use crate::error::AuthError;
use crate::models::auth::RefreshToken;
use crate::models::auth::RefreshTokenView;
use crate::models::user::UserRow;
use crate::models::user::UserRowView;
use crate::seqs::first_match;
use crate::seqs::keep;
use crate::seqs::lemma_first_match_at;
use crate::seqs::lemma_first_match_none;
use crate::seqs::lemma_keep_all;
use crate::seqs::lemma_keep_all_but_one;
use crate::seqs::lemma_keep_members;
use crate::seqs::lemma_keep_sorted_out;

verus! {

/// The users with the identifier `id`.
pub open spec fn has_id(id: u128) -> spec_fn(UserRowView) -> bool {
    |user: UserRowView| user.id == id
}

/// The users with another identifier than `id`.
pub open spec fn has_other_id(id: u128) -> spec_fn(UserRowView) -> bool {
    |user: UserRowView| user.id != id
}

/// The users with the email `email`.
pub open spec fn has_email(email: Seq<char>) -> spec_fn(UserRowView) -> bool {
    |user: UserRowView| user.email == email
}

/// The users with the email `email` and another identifier than `id`.
pub open spec fn has_email_of_other(email: Seq<char>, id: u128) -> spec_fn(UserRowView) -> bool {
    |user: UserRowView| user.email == email && user.id != id
}

/// The records of the token hash `hash` that have not expired at `now`.
pub open spec fn is_valid_for(hash: Seq<char>, now: u64) -> spec_fn(RefreshTokenView) -> bool {
    |record: RefreshTokenView| record.token_hash == hash && record.expires_at > now
}

/// The records of the token hash `hash`.
pub open spec fn has_hash(hash: Seq<char>) -> spec_fn(RefreshTokenView) -> bool {
    |record: RefreshTokenView| record.token_hash == hash
}

/// The records of another token hash than `hash`.
pub open spec fn has_other_hash(hash: Seq<char>) -> spec_fn(RefreshTokenView) -> bool {
    |record: RefreshTokenView| record.token_hash != hash
}

/// The records with the identifier `id`.
pub open spec fn has_record_id(id: u128) -> spec_fn(RefreshTokenView) -> bool {
    |record: RefreshTokenView| record.id == id
}

/// The records with another identifier than `id`.
pub open spec fn has_other_record_id(id: u128) -> spec_fn(RefreshTokenView) -> bool {
    |record: RefreshTokenView| record.id != id
}

/// The records with the identifier `id` and the token hash `hash` that have
/// not expired at `now`.
pub open spec fn is_live(hash: Seq<char>, id: u128, now: u64) -> spec_fn(RefreshTokenView) -> bool {
    |record: RefreshTokenView|
        record.id == id && record.token_hash == hash && record.expires_at > now
}

/// The records that belong to the user `user_id`.
pub open spec fn belongs_to(user_id: u128) -> spec_fn(RefreshTokenView) -> bool {
    |record: RefreshTokenView| record.user_id == user_id
}

/// The records that belong to another user than `user_id`.
pub open spec fn belongs_to_other(user_id: u128) -> spec_fn(RefreshTokenView) -> bool {
    |record: RefreshTokenView| record.user_id != user_id
}

/// The row `user` after a login at `at`.
pub open spec fn logged_in(user: UserRowView, at: u64) -> UserRowView {
    UserRowView { last_login: Some(at), ..user }
}

/// The row `user` with a new password hash, set at `at`.
pub open spec fn rehashed(user: UserRowView, hash: Seq<char>, at: u64) -> UserRowView {
    UserRowView { password_hash: hash, updated_at: at, ..user }
}

/// The row `user` with a new name and email, set at `at`.
pub open spec fn renamed(user: UserRowView, name: Seq<char>, email: Seq<char>, at: u64)
    -> UserRowView {
    UserRowView { name: Some(name), email: email, updated_at: at, ..user }
}

/// The row `user` with a new avatar, set at `at`.
pub open spec fn pictured(user: UserRowView, url: Seq<char>, at: u64) -> UserRowView {
    UserRowView { avatar_url: Some(url), updated_at: at, ..user }
}

/// The mathematical values of a sequence of user rows.
pub open spec fn row_views(rows: Seq<UserRow>) -> Seq<UserRowView> {
    rows.map_values(|row: UserRow| row@)
}

/// The mathematical values of a sequence of refresh-token records.
pub open spec fn record_views(records: Seq<RefreshToken>) -> Seq<RefreshTokenView> {
    records.map_values(|record: RefreshToken| record@)
}

/// The mathematical value of the store: its user rows and its refresh-token
/// records, each in the order of insertion.
pub ghost struct DatabaseView {
    pub users: Seq<UserRowView>,
    pub refresh_tokens: Seq<RefreshTokenView>,
}

impl DatabaseView {
    /// The store without users and without records.
    pub open spec fn empty() -> DatabaseView {
        DatabaseView { users: Seq::empty(), refresh_tokens: Seq::empty() }
    }

    /// No two users share an identifier or an email.
    pub open spec fn distinct_users(self) -> bool {
        forall|i: int, j: int|
            0 <= i < j < self.users.len() ==> (#[trigger] self.users[i]).id != (
            #[trigger] self.users[j]).id && self.users[i].email != self.users[j].email
    }

    /// No two records share an identifier.
    pub open spec fn distinct_records(self) -> bool {
        forall|i: int, j: int|
            0 <= i < j < self.refresh_tokens.len() ==> (#[trigger] self.refresh_tokens[i]).id != (
            #[trigger] self.refresh_tokens[j]).id
    }

    /// The invariants of the store: users and records are distinct.
    pub open spec fn wf(self) -> bool {
        self.distinct_users() && self.distinct_records()
    }

    /// The user with the email `email`.
    pub open spec fn user_by_email(self, email: Seq<char>) -> Option<UserRowView> {
        first_match(self.users, has_email(email))
    }

    /// The user with the identifier `id`.
    pub open spec fn user_by_id(self, id: u128) -> Option<UserRowView> {
        first_match(self.users, has_id(id))
    }

    /// Whether a user other than `id` has the email `email`.
    pub open spec fn email_taken_by_other(self, email: Seq<char>, id: u128) -> bool {
        first_match(self.users, has_email_of_other(email, id)) is Some
    }

    /// The store with `row` added.
    pub open spec fn with_user(self, row: UserRowView) -> DatabaseView {
        DatabaseView { users: self.users.push(row), ..self }
    }

    /// The store after the user `id`, if any, has logged in at `at`.
    pub open spec fn with_login(self, id: u128, at: u64) -> DatabaseView {
        DatabaseView {
            users: self.users.map_values(
                |user: UserRowView|
                    if user.id == id {
                        logged_in(user, at)
                    } else {
                        user
                    },
            ),
            ..self
        }
    }

    /// The store after the user `id`, if any, got the password hash `hash`
    /// at `at`.
    pub open spec fn with_password_hash(self, id: u128, hash: Seq<char>, at: u64) -> DatabaseView {
        DatabaseView {
            users: self.users.map_values(
                |user: UserRowView|
                    if user.id == id {
                        rehashed(user, hash, at)
                    } else {
                        user
                    },
            ),
            ..self
        }
    }

    /// The store after the user `id`, if any, got the name `name` and the
    /// email `email` at `at`.
    pub open spec fn with_profile(self, id: u128, name: Seq<char>, email: Seq<char>, at: u64)
        -> DatabaseView {
        DatabaseView {
            users: self.users.map_values(
                |user: UserRowView|
                    if user.id == id {
                        renamed(user, name, email, at)
                    } else {
                        user
                    },
            ),
            ..self
        }
    }

    /// The store after the user `id`, if any, got the avatar `url` at `at`.
    pub open spec fn with_avatar(self, id: u128, url: Seq<char>, at: u64) -> DatabaseView {
        DatabaseView {
            users: self.users.map_values(
                |user: UserRowView|
                    if user.id == id {
                        pictured(user, url, at)
                    } else {
                        user
                    },
            ),
            ..self
        }
    }

    /// What a profile update answers: `AlreadyExists` where another user has
    /// the email, `NotFound` where the user is not in the store, success
    /// otherwise.
    pub open spec fn update_profile_verdict(self, id: u128, email: Seq<char>) -> Result<
        (),
        AuthError,
    > {
        if self.email_taken_by_other(email, id) {
            Err(AuthError::AlreadyExists)
        } else if self.user_by_id(id) is None {
            Err(AuthError::NotFound)
        } else {
            Ok(())
        }
    }

    /// The store without the user `id` and without that user's records.
    pub open spec fn without_user(self, id: u128) -> DatabaseView {
        DatabaseView {
            users: keep(self.users, has_other_id(id)),
            refresh_tokens: keep(self.refresh_tokens, belongs_to_other(id)),
        }
    }

    /// The store with `record` added.
    pub open spec fn with_record(self, record: RefreshTokenView) -> DatabaseView {
        DatabaseView { refresh_tokens: self.refresh_tokens.push(record), ..self }
    }

    /// The first record of the token hash `hash` that has not expired at
    /// `now`.
    pub open spec fn valid_record(self, hash: Seq<char>, now: u64) -> Option<RefreshTokenView> {
        first_match(self.refresh_tokens, is_valid_for(hash, now))
    }

    /// The record with the identifier `id`.
    pub open spec fn record_by_id(self, id: u128) -> Option<RefreshTokenView> {
        first_match(self.refresh_tokens, has_record_id(id))
    }

    /// The record with the identifier `id`, if it is of the token hash
    /// `hash` and has not expired at `now`.
    pub open spec fn live_record(self, hash: Seq<char>, id: u128, now: u64) -> Option<
        RefreshTokenView,
    > {
        first_match(self.refresh_tokens, is_live(hash, id, now))
    }

    /// The store without the record `id`.
    pub open spec fn without_record(self, id: u128) -> DatabaseView {
        DatabaseView { refresh_tokens: keep(self.refresh_tokens, has_other_record_id(id)), ..self }
    }

    /// What inserting `record` answers: `Internal` where the identifier is
    /// taken, success otherwise.
    pub open spec fn insert_record_verdict(self, record: RefreshTokenView) -> Result<
        (),
        AuthError,
    > {
        if self.record_by_id(record.id) is Some {
            Err(AuthError::Internal)
        } else {
            Ok(())
        }
    }

    /// The store without the records of the token hash `hash`.
    pub open spec fn without_hash(self, hash: Seq<char>) -> DatabaseView {
        DatabaseView { refresh_tokens: keep(self.refresh_tokens, has_other_hash(hash)), ..self }
    }

    /// The number of records of the token hash `hash`.
    pub open spec fn count_hash(self, hash: Seq<char>) -> nat {
        keep(self.refresh_tokens, has_hash(hash)).len()
    }

    /// The store without the records of the user `user_id`.
    pub open spec fn without_records_of(self, user_id: u128) -> DatabaseView {
        DatabaseView {
            refresh_tokens: keep(self.refresh_tokens, belongs_to_other(user_id)),
            ..self
        }
    }

    /// The number of records of the user `user_id`.
    pub open spec fn count_records_of(self, user_id: u128) -> nat {
        keep(self.refresh_tokens, belongs_to(user_id)).len()
    }

    /// What inserting `row` answers: `AlreadyExists` where the email is
    /// taken, `Internal` where the identifier is, success otherwise.
    pub open spec fn insert_user_verdict(self, row: UserRowView) -> Result<(), AuthError> {
        if self.user_by_email(row.email) is Some {
            Err(AuthError::AlreadyExists)
        } else if self.user_by_id(row.id) is Some {
            Err(AuthError::Internal)
        } else {
            Ok(())
        }
    }
}

/// Dropping users from a store keeps its invariants.
pub proof fn lemma_keep_users_wf(db: DatabaseView, p: spec_fn(UserRowView) -> bool)
    requires
        db.wf(),
    ensures
        (DatabaseView { users: keep(db.users, p), ..db }).wf(),
{
    let kept = keep(db.users, p);
    lemma_keep_sorted_out(db.users, p);
    let from = choose|from: Seq<int>|
        #![trigger from.len()]
        from.len() == kept.len() && (forall|i: int|
            0 <= i < from.len() ==> 0 <= #[trigger] from[i] < db.users.len() && db.users[from[i]]
                == kept[i]) && (forall|i: int, j: int|
            0 <= i < j < from.len() ==> #[trigger] from[i] < #[trigger] from[j]);
    assert forall|i: int, j: int| 0 <= i < j < kept.len() implies (#[trigger] kept[i]).id != (
    #[trigger] kept[j]).id && kept[i].email != kept[j].email by {
        assert(from[i] < from[j]);
        assert(db.users[from[i]] == kept[i]);
        assert(db.users[from[j]] == kept[j]);
    }
}

/// Dropping records from a store keeps its invariants.
pub proof fn lemma_keep_records_wf(db: DatabaseView, p: spec_fn(RefreshTokenView) -> bool)
    requires
        db.wf(),
    ensures
        (DatabaseView { refresh_tokens: keep(db.refresh_tokens, p), ..db }).wf(),
{
    let kept = keep(db.refresh_tokens, p);
    lemma_keep_sorted_out(db.refresh_tokens, p);
    let from = choose|from: Seq<int>|
        #![trigger from.len()]
        from.len() == kept.len() && (forall|i: int|
            0 <= i < from.len() ==> 0 <= #[trigger] from[i] < db.refresh_tokens.len()
                && db.refresh_tokens[from[i]] == kept[i]) && (forall|i: int, j: int|
            0 <= i < j < from.len() ==> #[trigger] from[i] < #[trigger] from[j]);
    assert forall|i: int, j: int| 0 <= i < j < kept.len() implies (#[trigger] kept[i]).id != (
    #[trigger] kept[j]).id by {
        assert(from[i] < from[j]);
        assert(db.refresh_tokens[from[i]] == kept[i]);
        assert(db.refresh_tokens[from[j]] == kept[j]);
    }
}

/// Dropping records from a store puts no identifier on record: one that the
/// store holds no record under stays free.
pub proof fn lemma_removal_keeps_ids_free(
    db: DatabaseView,
    p: spec_fn(RefreshTokenView) -> bool,
    id: u128,
)
    requires
        db.record_by_id(id) is None,
    ensures
        (DatabaseView { refresh_tokens: keep(db.refresh_tokens, p), ..db }).record_by_id(id)
            is None,
{
    let kept = keep(db.refresh_tokens, p);
    lemma_keep_members(db.refresh_tokens, p);
    lemma_first_match_none(db.refresh_tokens, has_record_id(id));
    lemma_first_match_none(kept, has_record_id(id));
    assert forall|i: int| 0 <= i < kept.len() implies !has_record_id(id)(#[trigger] kept[i]) by {
        assert(db.refresh_tokens.contains(kept[i]));
        let k = choose|k: int| 0 <= k < db.refresh_tokens.len() && db.refresh_tokens[k] == kept[i];
        assert(!has_record_id(id)(db.refresh_tokens[k]));
    }
}

/// Removing a record that the store holds removes exactly one record, and
/// leaves none under its identifier.
pub proof fn lemma_without_record(db: DatabaseView, id: u128)
    requires
        db.wf(),
        db.record_by_id(id) is Some,
    ensures
        db.without_record(id).refresh_tokens.len() + 1 == db.refresh_tokens.len(),
        db.without_record(id).record_by_id(id) is None,
        db.without_record(id).wf(),
{
    let records = db.refresh_tokens;
    lemma_first_match_none(records, has_record_id(id));
    let i = choose|i: int| 0 <= i < records.len() && has_record_id(id)(#[trigger] records[i]);
    assert forall|j: int| 0 <= j < records.len() && j != i implies has_other_record_id(id)(
        #[trigger] records[j],
    ) by {
        if j < i {
            assert(records[j].id != records[i].id);
        } else {
            assert(records[i].id != records[j].id);
        }
    }
    lemma_keep_all_but_one(records, has_other_record_id(id), i);
    lemma_no_record_left(db, id);
    lemma_keep_records_wf(db, has_other_record_id(id));
}

/// After a record is removed, the store holds none under its identifier.
pub proof fn lemma_no_record_left(db: DatabaseView, id: u128)
    ensures
        db.without_record(id).record_by_id(id) is None,
        forall|hash: Seq<char>, now: u64| #[trigger]
            db.without_record(id).live_record(hash, id, now) is None,
{
    let kept = db.without_record(id).refresh_tokens;
    lemma_keep_members(db.refresh_tokens, has_other_record_id(id));
    lemma_first_match_none(kept, has_record_id(id));
    assert forall|hash: Seq<char>, now: u64| #[trigger]
        db.without_record(id).live_record(hash, id, now) is None by {
        lemma_first_match_none(kept, is_live(hash, id, now));
    }
}

/// The store of users and refresh-token records.
pub struct Database {
    users: Vec<UserRow>,
    refresh_tokens: Vec<RefreshToken>,
}

impl View for Database {
    type V = DatabaseView;

    closed spec fn view(&self) -> DatabaseView {
        DatabaseView {
            users: row_views(self.users@),
            refresh_tokens: record_views(self.refresh_tokens@),
        }
    }
}

impl Database {
    #[verifier::type_invariant]
    spec fn well_formed(&self) -> bool {
        self@.wf()
    }

    /// A store without users and without records.
    pub fn new() -> (db: Database)
        ensures
            db@ == DatabaseView::empty(),
            db@.wf(),
    {
        let db = Database { users: Vec::new(), refresh_tokens: Vec::new() };
        assert(db@.users =~= Seq::empty());
        assert(db@.refresh_tokens =~= Seq::empty());
        db
    }

    /// The number of users. In every store the users are distinct.
    pub fn user_count(&self) -> (count: usize)
        ensures
            count == self@.users.len(),
            self@.wf(),
    {
        proof {
            use_type_invariant(self);
        }
        self.users.len()
    }

    /// The user at position `index`, in the order of insertion.
    pub fn user_at(&self, index: usize) -> (row: &UserRow)
        requires
            index < self@.users.len(),
        ensures
            row@ == self@.users[index as int],
    {
        &self.users[index]
    }

    /// The number of refresh-token records.
    pub fn record_count(&self) -> (count: usize)
        ensures
            count == self@.refresh_tokens.len(),
    {
        self.refresh_tokens.len()
    }

    /// The record at position `index`, in the order of insertion.
    pub fn record_at(&self, index: usize) -> (record: &RefreshToken)
        requires
            index < self@.refresh_tokens.len(),
        ensures
            record@ == self@.refresh_tokens[index as int],
    {
        &self.refresh_tokens[index]
    }

    fn position_by_id(&self, id: u128) -> (position: Option<usize>)
        ensures
            match position {
                Some(i) => i < self@.users.len() && self@.users[i as int].id == id && forall|
                    j: int,
                | 0 <= j < i ==> (#[trigger] self@.users[j]).id != id,
                None => forall|j: int|
                    0 <= j < self@.users.len() ==> (#[trigger] self@.users[j]).id != id,
            },
    {
        let mut i: usize = 0;
        while i < self.users.len()
            invariant
                i <= self.users.len(),
                forall|j: int| 0 <= j < i ==> (#[trigger] self@.users[j]).id != id,
            decreases self.users.len() - i,
        {
            if self.users[i].id == id {
                return Some(i);
            }
            i += 1;
        }
        None
    }

    fn position_by_email(&self, email: &str) -> (position: Option<usize>)
        ensures
            match position {
                Some(i) => i < self@.users.len() && self@.users[i as int].email == email@
                    && forall|j: int| 0 <= j < i ==> (#[trigger] self@.users[j]).email != email@,
                None => forall|j: int|
                    0 <= j < self@.users.len() ==> (#[trigger] self@.users[j]).email != email@,
            },
    {
        let wanted = email.to_owned();
        let mut i: usize = 0;
        while i < self.users.len()
            invariant
                i <= self.users.len(),
                wanted@ == email@,
                forall|j: int| 0 <= j < i ==> (#[trigger] self@.users[j]).email != email@,
            decreases self.users.len() - i,
        {
            if self.users[i].email == wanted {
                return Some(i);
            }
            i += 1;
        }
        None
    }

    /// Looks a user up by email.
    pub fn find_user_by_email(&self, email: &str) -> (found: Option<UserRow>)
        ensures
            found is Some <==> self@.user_by_email(email@) is Some,
            found matches Some(row) ==> self@.user_by_email(email@) == Some(row@) && row.email@
                == email@,
    {
        match self.position_by_email(email) {
            Some(i) => {
                proof {
                    lemma_first_match_at(self@.users, has_email(email@), i as int);
                }
                Some(self.users[i].clone())
            },
            None => {
                proof {
                    lemma_first_match_none(self@.users, has_email(email@));
                }
                None
            },
        }
    }

    /// Looks a user up by identifier.
    pub fn find_user_by_id(&self, id: u128) -> (found: Option<UserRow>)
        ensures
            found is Some <==> self@.user_by_id(id) is Some,
            found matches Some(row) ==> self@.user_by_id(id) == Some(row@) && row.id == id,
    {
        match self.position_by_id(id) {
            Some(i) => {
                proof {
                    lemma_first_match_at(self@.users, has_id(id), i as int);
                }
                Some(self.users[i].clone())
            },
            None => {
                proof {
                    lemma_first_match_none(self@.users, has_id(id));
                }
                None
            },
        }
    }

    /// Adds a user. The store refuses a row whose email is taken
    /// (`AlreadyExists`) or whose identifier is (`Internal`), and is then
    /// unchanged.
    pub fn insert_user(&mut self, row: UserRow) -> (inserted: Result<(), AuthError>)
        ensures
            inserted == old(self)@.insert_user_verdict(row@),
            final(self)@ == if inserted is Ok {
                old(self)@.with_user(row@)
            } else {
                old(self)@
            },
            inserted is Ok ==> final(self)@.user_by_id(row.id) == Some(row@),
            inserted is Ok ==> final(self)@.user_by_email(row.email@) == Some(row@),
            final(self)@.wf(),
    {
        proof {
            use_type_invariant(&*self);
            lemma_first_match_none(self@.users, has_email(row.email@));
            lemma_first_match_none(self@.users, has_id(row.id));
        }
        if self.position_by_email(row.email.as_str()).is_some() {
            return Err(AuthError::AlreadyExists);
        }
        if self.position_by_id(row.id).is_some() {
            return Err(AuthError::Internal);
        }
        let mut users = self.take_users();
        users.push(row);
        assert(row_views(users@) =~= old(self)@.users.push(row@));
        self.users = users;
        proof {
            let last = self@.users.len() - 1;
            assert forall|j: int| 0 <= j < last implies !has_id(row.id)(#[trigger] self@.users[j])
                && !has_email(row.email@)(self@.users[j]) by {
                assert(self@.users[j] == old(self)@.users[j]);
            }
            lemma_first_match_at(self@.users, has_id(row.id), last);
            lemma_first_match_at(self@.users, has_email(row.email@), last);
        }
        Ok(())
    }

    /// Puts `row` in place of the row at `position`, which has the same
    /// identifier, where no other row has the email of `row`.
    fn replace_row(&mut self, position: usize, row: UserRow)
        requires
            position < old(self)@.users.len(),
            old(self)@.users[position as int].id == row.id,
            forall|j: int|
                0 <= j < old(self)@.users.len() && j != position ==> (
                #[trigger] old(self)@.users[j]).email != row.email@,
        ensures
            final(self)@ == (DatabaseView {
                users: old(self)@.users.update(position as int, row@),
                ..old(self)@
            }),
            forall|j: int|
                0 <= j < old(self)@.users.len() && j != position ==> (
                #[trigger] old(self)@.users[j]).id != row.id,
    {
        proof {
            use_type_invariant(&*self);
        }
        let mut users = self.take_users();
        users.set(position, row);
        assert(row_views(users@) =~= old(self)@.users.update(position as int, row@));
        self.users = users;
    }

    /// Records that the user `id` logged in at `at`. Answers whether the
    /// store has that user.
    pub fn update_last_login(&mut self, id: u128, at: u64) -> (found: bool)
        ensures
            found == old(self)@.user_by_id(id) is Some,
            final(self)@ == old(self)@.with_login(id, at),
            final(self)@.wf(),
    {
        proof {
            use_type_invariant(&*self);
        }
        match self.position_by_id(id) {
            Some(i) => {
                proof {
                    lemma_first_match_at(self@.users, has_id(id), i as int);
                }
                let mut row = self.users[i].clone();
                row.last_login = Some(at);
                self.replace_row(i, row);
                assert(self@.users =~= old(self)@.with_login(id, at).users);
                true
            },
            None => {
                proof {
                    lemma_first_match_none(self@.users, has_id(id));
                }
                assert(self@.users =~= old(self)@.with_login(id, at).users);
                false
            },
        }
    }

    /// Stores a new password hash for the user `id`, set at `at`. Answers
    /// whether the store has that user.
    pub fn update_password_hash(&mut self, id: u128, hash: String, at: u64) -> (found: bool)
        ensures
            found == old(self)@.user_by_id(id) is Some,
            final(self)@ == old(self)@.with_password_hash(id, hash@, at),
            final(self)@.wf(),
    {
        proof {
            use_type_invariant(&*self);
        }
        match self.position_by_id(id) {
            Some(i) => {
                proof {
                    lemma_first_match_at(self@.users, has_id(id), i as int);
                }
                let mut row = self.users[i].clone();
                row.password_hash = hash;
                row.updated_at = at;
                self.replace_row(i, row);
                assert(self@.users =~= old(self)@.with_password_hash(id, hash@, at).users);
                true
            },
            None => {
                proof {
                    lemma_first_match_none(self@.users, has_id(id));
                }
                assert(self@.users =~= old(self)@.with_password_hash(id, hash@, at).users);
                false
            },
        }
    }

    /// Stores a new avatar for the user `id`, set at `at`. Answers whether
    /// the store has that user.
    pub fn update_avatar(&mut self, id: u128, url: String, at: u64) -> (found: bool)
        ensures
            found == old(self)@.user_by_id(id) is Some,
            final(self)@ == old(self)@.with_avatar(id, url@, at),
            final(self)@.wf(),
    {
        proof {
            use_type_invariant(&*self);
        }
        match self.position_by_id(id) {
            Some(i) => {
                proof {
                    lemma_first_match_at(self@.users, has_id(id), i as int);
                }
                let mut row = self.users[i].clone();
                row.avatar_url = Some(url);
                row.updated_at = at;
                self.replace_row(i, row);
                assert(self@.users =~= old(self)@.with_avatar(id, url@, at).users);
                true
            },
            None => {
                proof {
                    lemma_first_match_none(self@.users, has_id(id));
                }
                assert(self@.users =~= old(self)@.with_avatar(id, url@, at).users);
                false
            },
        }
    }

    fn position_by_email_of_other(&self, email: &str, id: u128) -> (position: Option<usize>)
        ensures
            match position {
                Some(i) => i < self@.users.len() && self@.users[i as int].email == email@
                    && self@.users[i as int].id != id,
                None => forall|j: int|
                    0 <= j < self@.users.len() ==> !((#[trigger] self@.users[j]).email == email@
                        && self@.users[j].id != id),
            },
    {
        let wanted = email.to_owned();
        let mut i: usize = 0;
        while i < self.users.len()
            invariant
                i <= self.users.len(),
                wanted@ == email@,
                forall|j: int|
                    0 <= j < i ==> !((#[trigger] self@.users[j]).email == email@
                        && self@.users[j].id != id),
            decreases self.users.len() - i,
        {
            if self.users[i].email == wanted && self.users[i].id != id {
                return Some(i);
            }
            i += 1;
        }
        None
    }

    /// Stores a new name and email for the user `id`, set at `at`. The store
    /// refuses an email that another user has (`AlreadyExists`) and a user
    /// that it does not hold (`NotFound`), and is then unchanged.
    pub fn update_profile(&mut self, id: u128, name: String, email: String, at: u64) -> (updated:
        Result<(), AuthError>)
        ensures
            updated == old(self)@.update_profile_verdict(id, email@),
            final(self)@ == if updated is Ok {
                old(self)@.with_profile(id, name@, email@, at)
            } else {
                old(self)@
            },
            final(self)@.wf(),
    {
        proof {
            use_type_invariant(&*self);
            lemma_first_match_none(self@.users, has_email_of_other(email@, id));
        }
        if self.position_by_email_of_other(email.as_str(), id).is_some() {
            return Err(AuthError::AlreadyExists);
        }
        match self.position_by_id(id) {
            Some(i) => {
                proof {
                    lemma_first_match_at(self@.users, has_id(id), i as int);
                }
                let mut row = self.users[i].clone();
                row.name = Some(name);
                row.email = email;
                row.updated_at = at;
                self.replace_row(i, row);
                assert(self@.users =~= old(self)@.with_profile(id, name@, email@, at).users);
                Ok(())
            },
            None => {
                proof {
                    lemma_first_match_none(self@.users, has_id(id));
                }
                Err(AuthError::NotFound)
            },
        }
    }

    /// Removes the user `id` and, with it, every record of that user.
    /// Answers whether the store had that user.
    pub fn delete_user(&mut self, id: u128) -> (found: bool)
        ensures
            found == old(self)@.user_by_id(id) is Some,
            final(self)@ == old(self)@.without_user(id),
            final(self)@.wf(),
    {
        proof {
            use_type_invariant(&*self);
            lemma_first_match_none(self@.users, has_id(id));
        }
        let users = self.take_users();
        let mut kept: Vec<UserRow> = Vec::new();
        let mut found = false;
        let mut i: usize = 0;
        assert(old(self)@.users.take(0) =~= Seq::empty());
        assert(row_views(kept@) =~= Seq::empty());
        while i < users.len()
            invariant
                i <= users.len(),
                row_views(users@) == old(self)@.users,
                row_views(kept@) == keep(old(self)@.users.take(i as int), has_other_id(id)),
                found == exists|j: int| 0 <= j < i && (#[trigger] old(self)@.users[j]).id == id,
            decreases users.len() - i,
        {
            proof {
                let next = old(self)@.users.take(i + 1);
                assert(next.drop_last() =~= old(self)@.users.take(i as int));
                assert(next.last() == old(self)@.users[i as int]);
            }
            if users[i].id != id {
                let ghost before = row_views(kept@);
                kept.push(users[i].clone());
                assert(row_views(kept@) =~= before.push(users[i as int]@));
            } else {
                found = true;
            }
            i += 1;
        }
        assert(old(self)@.users.take(i as int) =~= old(self)@.users);
        proof {
            lemma_keep_users_wf(old(self)@, has_other_id(id));
        }
        self.users = kept;
        self.delete_all_for_user(id);
        found
    }

    /// Adds the record of an issued refresh token. The store refuses a record
    /// whose identifier is taken (`Internal`), and is then unchanged.
    pub fn insert_refresh_record(&mut self, record: RefreshToken) -> (inserted: Result<
        (),
        AuthError,
    >)
        ensures
            inserted == old(self)@.insert_record_verdict(record@),
            final(self)@ == if inserted is Ok {
                old(self)@.with_record(record@)
            } else {
                old(self)@
            },
            inserted is Ok ==> final(self)@.record_by_id(record.id) == Some(record@),
            final(self)@.wf(),
    {
        proof {
            use_type_invariant(&*self);
            lemma_first_match_none(self@.refresh_tokens, has_record_id(record.id));
        }
        if self.position_of_record(record.id).is_some() {
            return Err(AuthError::Internal);
        }
        let mut records = self.take_records();
        records.push(record);
        assert(record_views(records@) =~= old(self)@.refresh_tokens.push(record@));
        self.refresh_tokens = records;
        proof {
            let last = self@.refresh_tokens.len() - 1;
            assert forall|j: int| 0 <= j < last implies !has_record_id(record.id)(
                #[trigger] self@.refresh_tokens[j],
            ) by {
                assert(self@.refresh_tokens[j] == old(self)@.refresh_tokens[j]);
            }
            lemma_first_match_at(self@.refresh_tokens, has_record_id(record.id), last);
        }
        Ok(())
    }

    fn position_of_record(&self, id: u128) -> (position: Option<usize>)
        ensures
            match position {
                Some(i) => i < self@.refresh_tokens.len() && self@.refresh_tokens[i as int].id
                    == id && forall|j: int|
                    0 <= j < i ==> (#[trigger] self@.refresh_tokens[j]).id != id,
                None => forall|j: int|
                    0 <= j < self@.refresh_tokens.len() ==> (#[trigger] self@.refresh_tokens[j]).id
                        != id,
            },
    {
        let mut i: usize = 0;
        while i < self.refresh_tokens.len()
            invariant
                i <= self.refresh_tokens.len(),
                forall|j: int| 0 <= j < i ==> (#[trigger] self@.refresh_tokens[j]).id != id,
            decreases self.refresh_tokens.len() - i,
        {
            if self.refresh_tokens[i].id == id {
                return Some(i);
            }
            i += 1;
        }
        None
    }

    /// Looks a record up by identifier.
    pub fn find_record_by_id(&self, id: u128) -> (found: Option<RefreshToken>)
        ensures
            found is Some <==> self@.record_by_id(id) is Some,
            found matches Some(record) ==> self@.record_by_id(id) == Some(record@) && record.id
                == id,
    {
        match self.position_of_record(id) {
            Some(i) => {
                proof {
                    lemma_first_match_at(self@.refresh_tokens, has_record_id(id), i as int);
                }
                Some(self.refresh_tokens[i].clone())
            },
            None => {
                proof {
                    lemma_first_match_none(self@.refresh_tokens, has_record_id(id));
                }
                None
            },
        }
    }

    /// The record `id`, if it is of the token hash `hash` and has not
    /// expired at `now`: it expires strictly after `now`.
    pub fn find_valid_record(&self, hash: &str, id: u128, now: u64) -> (found: Option<
        RefreshToken,
    >)
        ensures
            found is Some <==> self@.live_record(hash@, id, now) is Some,
            found matches Some(record) ==> self@.live_record(hash@, id, now) == Some(record@)
                && record.id == id && record.token_hash@ == hash@ && record.expires_at > now
                && self@.record_by_id(id) == Some(record@),
    {
        proof {
            use_type_invariant(self);
            lemma_first_match_none(self@.refresh_tokens, is_live(hash@, id, now));
        }
        let wanted = hash.to_owned();
        match self.position_of_record(id) {
            Some(i) => {
                proof {
                    lemma_first_match_at(self@.refresh_tokens, has_record_id(id), i as int);
                    assert forall|j: int|
                        0 <= j < self@.refresh_tokens.len() && j != i implies !is_live(
                        hash@,
                        id,
                        now,
                    )(#[trigger] self@.refresh_tokens[j]) by {
                        if j < i {
                            assert(self@.refresh_tokens[j].id != self@.refresh_tokens[i as int].id);
                        } else {
                            assert(self@.refresh_tokens[i as int].id != self@.refresh_tokens[j].id);
                        }
                    }
                }
                if self.refresh_tokens[i].token_hash == wanted && self.refresh_tokens[i].expires_at
                    > now {
                    proof {
                        lemma_first_match_at(
                            self@.refresh_tokens,
                            is_live(hash@, id, now),
                            i as int,
                        );
                    }
                    Some(self.refresh_tokens[i].clone())
                } else {
                    None
                }
            },
            None => None,
        }
    }

    /// The first record of the token hash `hash` that has not expired at
    /// `now`: it expires strictly after `now`.
    pub fn find_valid_record_by_hash(&self, hash: &str, now: u64) -> (found: Option<RefreshToken>)
        ensures
            found is Some <==> self@.valid_record(hash@, now) is Some,
            found matches Some(record) ==> self@.valid_record(hash@, now) == Some(record@),
    {
        let wanted = hash.to_owned();
        let mut i: usize = 0;
        while i < self.refresh_tokens.len()
            invariant
                i <= self.refresh_tokens.len(),
                wanted@ == hash@,
                forall|j: int|
                    0 <= j < i ==> !is_valid_for(hash@, now)(#[trigger] self@.refresh_tokens[j]),
            decreases self.refresh_tokens.len() - i,
        {
            if self.refresh_tokens[i].token_hash == wanted && self.refresh_tokens[i].expires_at
                > now {
                proof {
                    lemma_first_match_at(self@.refresh_tokens, is_valid_for(hash@, now), i as int);
                }
                return Some(self.refresh_tokens[i].clone());
            }
            i += 1;
        }
        proof {
            lemma_first_match_none(self@.refresh_tokens, is_valid_for(hash@, now));
        }
        None
    }

    /// Removes every record of the token hash `hash` and answers how many
    /// there were.
    pub fn delete_record_by_hash(&mut self, hash: &str) -> (removed: usize)
        ensures
            final(self)@ == old(self)@.without_hash(hash@),
            removed == old(self)@.count_hash(hash@),
            final(self)@.wf(),
    {
        proof {
            use_type_invariant(&*self);
        }
        let wanted = hash.to_owned();
        let records = self.take_records();
        let mut kept: Vec<RefreshToken> = Vec::new();
        let mut removed: usize = 0;
        let mut i: usize = 0;
        assert(old(self)@.refresh_tokens.take(0) =~= Seq::empty());
        assert(record_views(kept@) =~= Seq::empty());
        while i < records.len()
            invariant
                i <= records.len(),
                wanted@ == hash@,
                record_views(records@) == old(self)@.refresh_tokens,
                record_views(kept@) == keep(
                    old(self)@.refresh_tokens.take(i as int),
                    has_other_hash(hash@),
                ),
                removed == keep(old(self)@.refresh_tokens.take(i as int), has_hash(hash@)).len(),
                removed <= i,
            decreases records.len() - i,
        {
            proof {
                let next = old(self)@.refresh_tokens.take(i + 1);
                assert(next.drop_last() =~= old(self)@.refresh_tokens.take(i as int));
                assert(next.last() == old(self)@.refresh_tokens[i as int]);
            }
            if records[i].token_hash == wanted {
                removed += 1;
            } else {
                let ghost before = record_views(kept@);
                kept.push(records[i].clone());
                assert(record_views(kept@) =~= before.push(records[i as int]@));
            }
            i += 1;
        }
        assert(old(self)@.refresh_tokens.take(i as int) =~= old(self)@.refresh_tokens);
        proof {
            lemma_keep_records_wf(old(self)@, has_other_hash(hash@));
        }
        self.refresh_tokens = kept;
        removed
    }

    /// Removes the record `id`, if the store holds it, and answers whether it
    /// did. No other record is touched.
    pub fn delete_record(&mut self, id: u128) -> (found: bool)
        ensures
            found == old(self)@.record_by_id(id) is Some,
            final(self)@ == old(self)@.without_record(id),
            final(self)@.record_by_id(id) is None,
            found ==> final(self)@.refresh_tokens.len() + 1 == old(self)@.refresh_tokens.len(),
            !found ==> final(self)@ == old(self)@,
            final(self)@.wf(),
    {
        proof {
            use_type_invariant(&*self);
        }
        let found = self.position_of_record(id).is_some();
        let records = self.take_records();
        let mut kept: Vec<RefreshToken> = Vec::new();
        let mut i: usize = 0;
        assert(old(self)@.refresh_tokens.take(0) =~= Seq::empty());
        assert(record_views(kept@) =~= Seq::empty());
        while i < records.len()
            invariant
                i <= records.len(),
                record_views(records@) == old(self)@.refresh_tokens,
                record_views(kept@) == keep(
                    old(self)@.refresh_tokens.take(i as int),
                    has_other_record_id(id),
                ),
            decreases records.len() - i,
        {
            proof {
                let next = old(self)@.refresh_tokens.take(i + 1);
                assert(next.drop_last() =~= old(self)@.refresh_tokens.take(i as int));
                assert(next.last() == old(self)@.refresh_tokens[i as int]);
            }
            if records[i].id != id {
                let ghost before = record_views(kept@);
                kept.push(records[i].clone());
                assert(record_views(kept@) =~= before.push(records[i as int]@));
            }
            i += 1;
        }
        assert(old(self)@.refresh_tokens.take(i as int) =~= old(self)@.refresh_tokens);
        proof {
            lemma_keep_records_wf(old(self)@, has_other_record_id(id));
            lemma_no_record_left(old(self)@, id);
            lemma_first_match_none(old(self)@.refresh_tokens, has_record_id(id));
            if found {
                lemma_without_record(old(self)@, id);
            } else {
                lemma_keep_all(old(self)@.refresh_tokens, has_other_record_id(id));
            }
        }
        self.refresh_tokens = kept;
        found
    }

    /// Removes every record of the user `user_id` and answers how many there
    /// were.
    pub fn delete_all_for_user(&mut self, user_id: u128) -> (removed: usize)
        ensures
            final(self)@ == old(self)@.without_records_of(user_id),
            removed == old(self)@.count_records_of(user_id),
            final(self)@.wf(),
    {
        proof {
            use_type_invariant(&*self);
        }
        let records = self.take_records();
        let mut kept: Vec<RefreshToken> = Vec::new();
        let mut removed: usize = 0;
        let mut i: usize = 0;
        assert(old(self)@.refresh_tokens.take(0) =~= Seq::empty());
        assert(record_views(kept@) =~= Seq::empty());
        while i < records.len()
            invariant
                i <= records.len(),
                record_views(records@) == old(self)@.refresh_tokens,
                record_views(kept@) == keep(
                    old(self)@.refresh_tokens.take(i as int),
                    belongs_to_other(user_id),
                ),
                removed == keep(
                    old(self)@.refresh_tokens.take(i as int),
                    belongs_to(user_id),
                ).len(),
                removed <= i,
            decreases records.len() - i,
        {
            proof {
                let next = old(self)@.refresh_tokens.take(i + 1);
                assert(next.drop_last() =~= old(self)@.refresh_tokens.take(i as int));
                assert(next.last() == old(self)@.refresh_tokens[i as int]);
            }
            if records[i].user_id == user_id {
                removed += 1;
            } else {
                let ghost before = record_views(kept@);
                kept.push(records[i].clone());
                assert(record_views(kept@) =~= before.push(records[i as int]@));
            }
            i += 1;
        }
        assert(old(self)@.refresh_tokens.take(i as int) =~= old(self)@.refresh_tokens);
        proof {
            lemma_keep_records_wf(old(self)@, belongs_to_other(user_id));
        }
        self.refresh_tokens = kept;
        removed
    }

    /// Moves the user rows out, leaving none behind.
    fn take_users(&mut self) -> (users: Vec<UserRow>)
        ensures
            row_views(users@) == old(self)@.users,
            final(self)@ == (DatabaseView { users: Seq::empty(), ..old(self)@ }),
            final(self).users@.len() == 0,
            final(self).refresh_tokens == old(self).refresh_tokens,
    {
        proof {
            use_type_invariant(&*self);
        }
        let mut users: Vec<UserRow> = Vec::new();
        assert(row_views(users@) =~= Seq::empty());
        core::mem::swap(&mut self.users, &mut users);
        users
    }

    /// Moves the records out, leaving none behind.
    fn take_records(&mut self) -> (records: Vec<RefreshToken>)
        ensures
            record_views(records@) == old(self)@.refresh_tokens,
            final(self)@ == (DatabaseView { refresh_tokens: Seq::empty(), ..old(self)@ }),
            final(self).refresh_tokens@.len() == 0,
            final(self).users == old(self).users,
    {
        proof {
            use_type_invariant(&*self);
        }
        let mut records: Vec<RefreshToken> = Vec::new();
        assert(record_views(records@) =~= Seq::empty());
        core::mem::swap(&mut self.refresh_tokens, &mut records);
        records
    }
}

} // verus!
