//! The admin dashboard: figures, the activity feed, and logins per weekday,
//! each computed from the store.
//!
//! A login is counted by the record of the refresh token that it issued.
//! Days are days of UTC: a time falls on the day `time / 86400`.

use vstd::prelude::*;
use crate::utils::clock::is_clock_value;
use crate::database::Database;
use crate::database::DatabaseView;
use crate::error::AuthError;
use crate::models::auth::RefreshTokenView;
use crate::models::response::ActivityItem;
use crate::models::response::ActivityItemView;
use crate::models::response::DashboardStats;
use crate::models::user::UserRowView;
use crate::ranking::at_most;
use crate::ranking::positions;
use crate::ranking::rank_newest_first;
use crate::ranking::ranking;
use crate::seqs::keep;
use crate::utils::clock::now;
use crate::utils::ident::id_to_string;
use crate::utils::ident::uuid_string;

verus! {

/// The seconds of a day.
pub const SECONDS_PER_DAY: u64 = 86400;

/// The seconds for which a session counts as active after a login.
pub const ACTIVE_WINDOW: u64 = 600;

/// The days that the chart of logins looks back, today not counted.
pub const CHART_DAYS: u64 = 6;

/// The number of registrations, and of logins, that the activity feed draws
/// from.
pub const FEED_SOURCE_LIMIT: usize = 10;

/// The number of lines of the activity feed.
pub const FEED_LIMIT: usize = 20;

/// The day on which a time falls, counted from the epoch.
pub open spec fn day_of(time: u64) -> int {
    time as int / SECONDS_PER_DAY as int
}

/// The weekday on which a time falls, from 0 for Sunday to 6 for Saturday.
pub open spec fn weekday_of(time: u64) -> int {
    (day_of(time) + 4) % 7
}

/// A count as a figure of the dashboard: the count itself, as far as the
/// figure's type reaches.
pub open spec fn figure(count: nat) -> i64 {
    if count <= i64::MAX {
        count as i64
    } else {
        i64::MAX
    }
}

/// The users created on the day `day`.
pub open spec fn created_on(day: int) -> spec_fn(UserRowView) -> bool {
    |user: UserRowView| day_of(user.created_at) == day
}

/// The records created on the day `day`.
pub open spec fn issued_on(day: int) -> spec_fn(RefreshTokenView) -> bool {
    |record: RefreshTokenView| day_of(record.created_at) == day
}

/// Whether a record was created less than ten minutes before `now`.
pub open spec fn is_recent(record: RefreshTokenView, now: u64) -> bool {
    record.created_at + ACTIVE_WINDOW > now
}

/// The users with a record among `records` that was created less than ten
/// minutes before `now`.
pub open spec fn active_users(records: Seq<RefreshTokenView>, now: u64) -> Set<u128> {
    Set::new(
        |id: u128|
            exists|i: int|
                0 <= i < records.len() && (#[trigger] records[i]).user_id == id && is_recent(
                    records[i],
                    now,
                ),
    )
}

/// The figures of the dashboard at `now`: all users; the users with a login
/// in the last ten minutes; the users created today; the logins of today.
pub open spec fn dashboard_stats_at(db: DatabaseView, now: u64) -> DashboardStats {
    DashboardStats {
        total_users: figure(db.users.len()),
        active_sessions: figure(active_users(db.refresh_tokens, now).len()),
        new_registrations_today: figure(keep(db.users, created_on(day_of(now))).len()),
        login_attempts_today: figure(keep(db.refresh_tokens, issued_on(day_of(now))).len()),
    }
}

/// The line of the feed for the registration of `user`.
pub open spec fn registration_item(user: UserRowView) -> ActivityItemView {
    ActivityItemView {
        id: uuid_string(user.id),
        action: "User registration"@,
        user_email: user.email,
        timestamp: user.created_at,
        status: "success"@,
    }
}

/// The line of the feed for the login that `record` stands for, by the user
/// with the email `email`.
pub open spec fn login_item(record: RefreshTokenView, email: Seq<char>) -> ActivityItemView {
    ActivityItemView {
        id: uuid_string(record.id),
        action: "User login"@,
        user_email: email,
        timestamp: record.created_at,
        status: "success"@,
    }
}

/// The lines for the registrations of `users`, in their order.
pub open spec fn registration_items(users: Seq<UserRowView>) -> Seq<ActivityItemView> {
    users.map_values(|user: UserRowView| registration_item(user))
}

/// The lines for the logins that `records` stand for, in their order. A
/// record whose user is not in the store gives no line.
pub open spec fn login_items(db: DatabaseView, records: Seq<RefreshTokenView>) -> Seq<
    ActivityItemView,
>
    decreases records.len(),
{
    if records.len() == 0 {
        Seq::empty()
    } else {
        let earlier = login_items(db, records.drop_last());
        match db.user_by_id(records.last().user_id) {
            Some(user) => earlier.push(login_item(records.last(), user.email)),
            None => earlier,
        }
    }
}

/// The times of a sequence of lines.
pub open spec fn item_times(items: Seq<ActivityItemView>) -> Seq<u64> {
    items.map_values(|item: ActivityItemView| item.timestamp)
}

/// The line at a position of a sequence of lines.
pub open spec fn item_at(items: Seq<ActivityItemView>) -> spec_fn(int) -> ActivityItemView {
    |position: int| items[position]
}

/// The newest `limit` lines of `items`, newest first; lines of the same
/// second keep their order.
pub open spec fn newest(items: Seq<ActivityItemView>, limit: int) -> Seq<ActivityItemView> {
    at_most(ranking(item_times(items)), limit).map_values(item_at(items))
}

/// The activity feed: the ten newest registrations and the ten newest
/// logins, merged newest first, at most twenty lines.
pub open spec fn recent_activity(db: DatabaseView) -> Seq<ActivityItemView> {
    newest(
        newest(registration_items(db.users), FEED_SOURCE_LIMIT as int) + newest(
            login_items(db, db.refresh_tokens),
            FEED_SOURCE_LIMIT as int,
        ),
        FEED_LIMIT as int,
    )
}

/// The mathematical values of a sequence of lines.
pub open spec fn item_views(items: Seq<ActivityItem>) -> Seq<ActivityItemView> {
    items.map_values(|item: ActivityItem| item@)
}

/// The logins of one weekday.
#[derive(Debug)]
pub struct LoginsPerDay {
    pub date: String,
    pub logins: i64,
}

/// The mathematical value of [`LoginsPerDay`].
pub ghost struct LoginsPerDayView {
    pub date: Seq<char>,
    pub logins: i64,
}

impl View for LoginsPerDay {
    type V = LoginsPerDayView;

    open spec fn view(&self) -> LoginsPerDayView {
        LoginsPerDayView { date: self.date@, logins: self.logins }
    }
}

/// The short name of a weekday, from 0 for Sunday to 6 for Saturday.
pub open spec fn day_name(weekday: int) -> Seq<char> {
    if weekday == 0 {
        "Sun"@
    } else if weekday == 1 {
        "Mon"@
    } else if weekday == 2 {
        "Tue"@
    } else if weekday == 3 {
        "Wed"@
    } else if weekday == 4 {
        "Thu"@
    } else if weekday == 5 {
        "Fri"@
    } else {
        "Sat"@
    }
}

/// The records created on the weekday `weekday` and no more than six days
/// before `now`.
pub open spec fn charted_on(now: u64, weekday: int) -> spec_fn(RefreshTokenView) -> bool {
    |record: RefreshTokenView|
        record.created_at + CHART_DAYS * SECONDS_PER_DAY >= now && weekday_of(record.created_at)
            == weekday
}

/// The chart of logins for the weekdays before `weekday`: one entry for each
/// weekday that has logins in the last six days, Sunday first.
pub open spec fn logins_before(db: DatabaseView, now: u64, weekday: int) -> Seq<LoginsPerDayView>
    decreases weekday,
{
    if weekday <= 0 {
        Seq::empty()
    } else {
        let earlier = logins_before(db, now, weekday - 1);
        let count = keep(db.refresh_tokens, charted_on(now, weekday - 1)).len();
        if count > 0 {
            earlier.push(LoginsPerDayView { date: day_name(weekday - 1), logins: figure(count) })
        } else {
            earlier
        }
    }
}

/// The chart of logins per weekday at `now`.
pub open spec fn logins_per_day_at(db: DatabaseView, now: u64) -> Seq<LoginsPerDayView> {
    logins_before(db, now, 7)
}

/// The mathematical values of a chart.
pub open spec fn chart_views(chart: Seq<LoginsPerDay>) -> Seq<LoginsPerDayView> {
    chart.map_values(|entry: LoginsPerDay| entry@)
}

/// A count as a figure of the dashboard.
fn as_figure(count: usize) -> (value: i64)
    ensures
        value == figure(count as nat),
{
    if count as u64 > i64::MAX as u64 {
        i64::MAX
    } else {
        count as i64
    }
}

/// The short name of a weekday.
fn name_of_day(weekday: u64) -> (name: String)
    requires
        weekday < 7,
    ensures
        name@ == day_name(weekday as int),
{
    if weekday == 0 {
        "Sun".to_string()
    } else if weekday == 1 {
        "Mon".to_string()
    } else if weekday == 2 {
        "Tue".to_string()
    } else if weekday == 3 {
        "Wed".to_string()
    } else if weekday == 4 {
        "Thu".to_string()
    } else if weekday == 5 {
        "Fri".to_string()
    } else {
        "Sat".to_string()
    }
}

/// The newest `limit` lines of `items`, newest first.
fn newest_items(items: &Vec<ActivityItem>, limit: usize) -> (chosen: Vec<ActivityItem>)
    ensures
        item_views(chosen@) == newest(item_views(items@), limit as int),
{
    let mut times: Vec<u64> = Vec::new();
    let mut i: usize = 0;
    while i < items.len()
        invariant
            i <= items.len(),
            times@ == item_times(item_views(items@).take(i as int)),
        decreases items.len() - i,
    {
        times.push(items[i].timestamp);
        assert(times@ =~= item_times(item_views(items@).take(i + 1)));
        i += 1;
    }
    assert(item_views(items@).take(i as int) =~= item_views(items@));
    let order = rank_newest_first(&times);
    let wanted = if order.len() <= limit {
        order.len()
    } else {
        limit
    };
    let ghost views = item_views(items@);
    let ghost picked = at_most(positions(order@), limit as int);
    assert(picked.len() == wanted);
    let mut chosen: Vec<ActivityItem> = Vec::new();
    let mut k: usize = 0;
    while k < wanted
        invariant
            k <= wanted,
            wanted <= order.len(),
            views == item_views(items@),
            order@.len() == items@.len(),
            picked == at_most(positions(order@), limit as int),
            picked.len() == wanted,
            forall|j: int| 0 <= j < order@.len() ==> #[trigger] order@[j] < items@.len(),
            item_views(chosen@) == picked.take(k as int).map_values(item_at(views)),
        decreases wanted - k,
    {
        let item = items[order[k]].clone();
        let ghost listed = item_views(chosen@);
        chosen.push(item);
        proof {
            let next = picked.take(k + 1);
            assert(next[k as int] == order@[k as int]);
            assert(item@ == item_at(views)(next[k as int]));
            assert(item_views(chosen@) =~= listed.push(item@));
            assert(next.drop_last() =~= picked.take(k as int));
            assert(next.map_values(item_at(views)) =~= listed.push(item@));
        }
        k += 1;
    }
    assert(picked.take(k as int) =~= picked);
    chosen
}

/// The dashboard operations.
pub struct AdminService {}

impl AdminService {
    /// The dashboard service.
    pub fn new() -> Self {
        AdminService {  }
    }

    /// The figures of the dashboard at the time `now`.
    pub fn get_dashboard_stats_at(&self, db: &Database, now: u64) -> (result: Result<
        DashboardStats,
        AuthError,
    >)
        ensures
            result == Ok::<DashboardStats, AuthError>(dashboard_stats_at(db@, now)),
    {
        let today = now / SECONDS_PER_DAY;
        let users = db.user_count();
        let mut registrations: usize = 0;
        let mut i: usize = 0;
        assert(db@.users.take(0) =~= Seq::empty());
        while i < users
            invariant
                i <= users,
                users == db@.users.len(),
                today == day_of(now),
                registrations == keep(db@.users.take(i as int), created_on(today as int)).len(),
                registrations <= i,
            decreases users - i,
        {
            proof {
                let next = db@.users.take(i + 1);
                assert(next.drop_last() =~= db@.users.take(i as int));
                assert(next.last() == db@.users[i as int]);
            }
            if db.user_at(i).created_at / SECONDS_PER_DAY == today {
                registrations += 1;
            }
            i += 1;
        }
        assert(db@.users.take(i as int) =~= db@.users);
        let records = db.record_count();
        let mut logins: usize = 0;
        let mut active: Vec<u128> = Vec::new();
        let mut j: usize = 0;
        assert(db@.refresh_tokens.take(0) =~= Seq::empty());
        assert(active@.to_set() =~= active_users(db@.refresh_tokens.take(0), now));
        while j < records
            invariant
                j <= records,
                records == db@.refresh_tokens.len(),
                today == day_of(now),
                logins == keep(db@.refresh_tokens.take(j as int), issued_on(today as int)).len(),
                logins <= j,
                active@.no_duplicates(),
                active@.to_set() == active_users(db@.refresh_tokens.take(j as int), now),
            decreases records - j,
        {
            let ghost before = db@.refresh_tokens.take(j as int);
            let ghost next = db@.refresh_tokens.take(j + 1);
            proof {
                assert(next.drop_last() =~= before);
                assert(next.last() == db@.refresh_tokens[j as int]);
            }
            let record = db.record_at(j);
            if record.created_at / SECONDS_PER_DAY == today {
                logins += 1;
            }
            let recent = now < ACTIVE_WINDOW || record.created_at > now - ACTIVE_WINDOW;
            assert(recent == is_recent(record@, now));
            let ghost seen = active@;
            if recent && !contains_id(&active, record.user_id) {
                active.push(record.user_id);
            }
            proof {
                assert forall|id: u128| active@.to_set().contains(id) <==> active_users(
                    next,
                    now,
                ).contains(id) by {
                    if active@.to_set().contains(id) {
                        if seen.contains(id) {
                            assert(active_users(before, now).contains(id));
                            let w = choose|w: int|
                                0 <= w < before.len() && (#[trigger] before[w]).user_id == id
                                    && is_recent(before[w], now);
                            assert(next[w] == before[w]);
                        } else {
                            assert(active@ == seen.push(record.user_id));
                            let p = choose|p: int| 0 <= p < active@.len() && active@[p] == id;
                            assert(p == seen.len());
                            assert(next[j as int].user_id == id);
                        }
                    }
                    if active_users(next, now).contains(id) {
                        let w = choose|w: int|
                            0 <= w < next.len() && (#[trigger] next[w]).user_id == id && is_recent(
                                next[w],
                                now,
                            );
                        if w < j {
                            assert(before[w] == next[w]);
                            assert(active_users(before, now).contains(id));
                            assert(seen.to_set().contains(id));
                            let p = choose|p: int| 0 <= p < seen.len() && seen[p] == id;
                            assert(active@[p] == id);
                        } else {
                            if seen.contains(id) {
                                let p = choose|p: int| 0 <= p < seen.len() && seen[p] == id;
                                assert(active@[p] == id);
                            } else {
                                assert(active@[seen.len() as int] == id);
                            }
                        }
                    }
                }
                assert(active@.to_set() =~= active_users(next, now));
            }
            j += 1;
        }
        assert(db@.refresh_tokens.take(j as int) =~= db@.refresh_tokens);
        proof {
            active@.unique_seq_to_set();
        }
        Ok(
            DashboardStats {
                total_users: as_figure(users),
                active_sessions: as_figure(active.len()),
                new_registrations_today: as_figure(registrations),
                login_attempts_today: as_figure(logins),
            },
        )
    }

    /// The figures of the dashboard at the current time.
    pub fn get_dashboard_stats(&self, db: &Database) -> (result: Result<DashboardStats, AuthError>)
        ensures
            exists|at: u64|
                is_clock_value(at) && result == Ok::<DashboardStats, AuthError>(
                    #[trigger] dashboard_stats_at(db@, at),
                ),
    {
        self.get_dashboard_stats_at(db, now())
    }

    /// The activity feed: the ten newest registrations and the ten newest
    /// logins, merged newest first.
    pub fn get_recent_activity(&self, db: &Database) -> (result: Result<
        Vec<ActivityItem>,
        AuthError,
    >)
        ensures
            result matches Ok(items) && item_views(items@) == recent_activity(db@),
    {
        let users = db.user_count();
        let mut registrations: Vec<ActivityItem> = Vec::new();
        let mut i: usize = 0;
        while i < users
            invariant
                i <= users,
                users == db@.users.len(),
                item_views(registrations@) == registration_items(db@.users.take(i as int)),
            decreases users - i,
        {
            let user = db.user_at(i);
            let item = ActivityItem {
                id: id_to_string(user.id),
                action: "User registration".to_string(),
                user_email: user.email.clone(),
                timestamp: user.created_at,
                status: "success".to_string(),
            };
            let ghost listed = item_views(registrations@);
            registrations.push(item);
            assert(item_views(registrations@) =~= listed.push(item@));
            assert(item_views(registrations@) =~= registration_items(db@.users.take(i + 1)));
            i += 1;
        }
        assert(db@.users.take(i as int) =~= db@.users);
        let records = db.record_count();
        let mut logins: Vec<ActivityItem> = Vec::new();
        let mut j: usize = 0;
        assert(db@.refresh_tokens.take(0) =~= Seq::empty());
        while j < records
            invariant
                j <= records,
                records == db@.refresh_tokens.len(),
                item_views(logins@) == login_items(db@, db@.refresh_tokens.take(j as int)),
            decreases records - j,
        {
            proof {
                let next = db@.refresh_tokens.take(j + 1);
                assert(next.drop_last() =~= db@.refresh_tokens.take(j as int));
                assert(next.last() == db@.refresh_tokens[j as int]);
            }
            let record = db.record_at(j);
            match db.find_user_by_id(record.user_id) {
                Some(user) => {
                    let item = ActivityItem {
                        id: id_to_string(record.id),
                        action: "User login".to_string(),
                        user_email: user.email,
                        timestamp: record.created_at,
                        status: "success".to_string(),
                    };
                    let ghost listed = item_views(logins@);
                    logins.push(item);
                    assert(item_views(logins@) =~= listed.push(item@));
                },
                None => {},
            }
            j += 1;
        }
        assert(db@.refresh_tokens.take(j as int) =~= db@.refresh_tokens);
        let mut merged = newest_items(&registrations, FEED_SOURCE_LIMIT);
        let mut newest_logins = newest_items(&logins, FEED_SOURCE_LIMIT);
        let ghost first = item_views(merged@);
        let ghost second = item_views(newest_logins@);
        merged.append(&mut newest_logins);
        assert(item_views(merged@) =~= first + second);
        Ok(newest_items(&merged, FEED_LIMIT))
    }

    /// The chart of logins per weekday at the time `now`: for each weekday
    /// with logins in the last six days, Sunday first, its name and the
    /// number of those logins.
    pub fn get_logins_per_day_at(&self, db: &Database, now: u64) -> (result: Result<
        Vec<LoginsPerDay>,
        AuthError,
    >)
        ensures
            result matches Ok(chart) && chart_views(chart@) == logins_per_day_at(db@, now),
    {
        let records = db.record_count();
        let mut chart: Vec<LoginsPerDay> = Vec::new();
        let mut weekday: u64 = 0;
        assert(chart_views(chart@) =~= logins_before(db@, now, 0));
        while weekday < 7
            invariant
                weekday <= 7,
                records == db@.refresh_tokens.len(),
                chart_views(chart@) == logins_before(db@, now, weekday as int),
            decreases 7 - weekday,
        {
            let mut count: usize = 0;
            let mut j: usize = 0;
            assert(db@.refresh_tokens.take(0) =~= Seq::empty());
            while j < records
                invariant
                    j <= records,
                    weekday < 7,
                    records == db@.refresh_tokens.len(),
                    count == keep(
                        db@.refresh_tokens.take(j as int),
                        charted_on(now, weekday as int),
                    ).len(),
                    count <= j,
                decreases records - j,
            {
                proof {
                    let next = db@.refresh_tokens.take(j + 1);
                    assert(next.drop_last() =~= db@.refresh_tokens.take(j as int));
                    assert(next.last() == db@.refresh_tokens[j as int]);
                }
                let created_at = db.record_at(j).created_at;
                let in_range = now < CHART_DAYS * SECONDS_PER_DAY || created_at >= now - CHART_DAYS
                    * SECONDS_PER_DAY;
                if in_range && (created_at / SECONDS_PER_DAY + 4) % 7 == weekday {
                    count += 1;
                }
                j += 1;
            }
            assert(db@.refresh_tokens.take(j as int) =~= db@.refresh_tokens);
            if count > 0 {
                let entry = LoginsPerDay { date: name_of_day(weekday), logins: as_figure(count) };
                let ghost listed = chart_views(chart@);
                chart.push(entry);
                assert(chart_views(chart@) =~= listed.push(entry@));
            }
            weekday += 1;
        }
        Ok(chart)
    }

    /// The chart of logins per weekday at the current time.
    pub fn get_logins_per_day(&self, db: &Database) -> (result: Result<
        Vec<LoginsPerDay>,
        AuthError,
    >)
        ensures
            exists|at: u64|
                is_clock_value(at) && (result matches Ok(chart) && chart_views(chart@)
                    == #[trigger] logins_per_day_at(db@, at)),
    {
        self.get_logins_per_day_at(db, now())
    }
}

/// Whether `id` is among `ids`.
fn contains_id(ids: &Vec<u128>, id: u128) -> (found: bool)
    ensures
        found == ids@.contains(id),
{
    let mut i: usize = 0;
    while i < ids.len()
        invariant
            i <= ids.len(),
            forall|k: int| 0 <= k < i ==> ids@[k] != id,
        decreases ids.len() - i,
    {
        if ids[i] == id {
            return true;
        }
        i += 1;
    }
    false
}

} // verus!
