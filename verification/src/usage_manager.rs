//! Weekly download quotas per Telegram chat.
//!
//! Every chat gets `WEEKLY_LIMIT` free downloads per ISO week; premium chats
//! are unlimited. Counters reset when a chat is first seen in a new week.

use std::collections::HashMap;
use vstd::prelude::*;
use vstd::std_specs::hash::spec_hash_map_iter;
use vstd::std_specs::iter::IteratorSpec;

use crate::clock::current_iso_week;

verus! {

/// Free downloads per chat and ISO week.
pub const WEEKLY_LIMIT: u32 = 10;

/// The download record of one chat.
#[derive(Clone, Copy, Debug, PartialEq, Eq, Structural)]
pub struct UserStats {
    pub downloads_this_week: u32,
    /// ISO week number of the week the counter belongs to.
    pub last_reset_week: u32,
    /// ISO week-numbering year of the week the counter belongs to.
    pub last_reset_year: i32,
    pub is_premium: bool,
}

impl UserStats {
    /// A non-premium record with no downloads, counting in the given week.
    pub open spec fn fresh(year: i32, week: u32) -> UserStats {
        UserStats {
            downloads_this_week: 0,
            last_reset_week: week,
            last_reset_year: year,
            is_premium: false,
        }
    }

    /// A non-premium record with no downloads, counting in the given week.
    pub fn for_week(year: i32, week: u32) -> (s: UserStats)
        ensures
            s == UserStats::fresh(year, week),
    {
        UserStats { downloads_this_week: 0, last_reset_week: week, last_reset_year: year, is_premium: false }
    }

    /// The record moved to the given week: unchanged when it already counts in
    /// that week, otherwise with its counter reset to zero.
    pub open spec fn in_week(self, year: i32, week: u32) -> UserStats {
        if self.last_reset_year != year || self.last_reset_week != week {
            UserStats {
                downloads_this_week: 0,
                last_reset_week: week,
                last_reset_year: year,
                is_premium: self.is_premium,
            }
        } else {
            self
        }
    }

    /// The record with its premium flag set to `status`.
    pub open spec fn with_premium(self, status: bool) -> UserStats {
        UserStats {
            downloads_this_week: self.downloads_this_week,
            last_reset_week: self.last_reset_week,
            last_reset_year: self.last_reset_year,
            is_premium: status,
        }
    }

    /// The record with one more download counted.
    pub open spec fn counted(self) -> UserStats {
        UserStats {
            downloads_this_week: (self.downloads_this_week + 1) as u32,
            last_reset_week: self.last_reset_week,
            last_reset_year: self.last_reset_year,
            is_premium: self.is_premium,
        }
    }
}

impl UserStats {
    /// A non-premium record with no downloads, counting in the current ISO
    /// week; `None` when the system clock gives no date (see
    /// `current_iso_week`).
    pub fn for_current_week() -> (r: Option<UserStats>)
        ensures
            r matches Some(s) ==> s.downloads_this_week == 0 && !s.is_premium && 1
                <= s.last_reset_week <= 53,
    {
        match current_iso_week() {
            Some((year, week)) => Some(UserStats::for_week(year, week)),
            None => None,
        }
    }
}

/// The record of `chat` in `m`, or a fresh one for the given week when `m`
/// has none.
pub open spec fn stats_or_fresh(m: Map<i64, UserStats>, chat: i64, year: i32, week: u32) -> UserStats {
    if m.contains_key(chat) {
        m[chat]
    } else {
        UserStats::fresh(year, week)
    }
}

/// The record of `chat` after a quota check in the given week: premium records
/// are left as they are, others are moved to that week.
pub open spec fn checked_stats(m: Map<i64, UserStats>, chat: i64, year: i32, week: u32) -> UserStats {
    let s = stats_or_fresh(m, chat, year, week);
    if s.is_premium {
        s
    } else {
        s.in_week(year, week)
    }
}

/// The answer of a quota check: `(allowed, downloads this week, limit)`, with
/// `(true, 0, 0)` for premium chats.
pub open spec fn quota_answer(m: Map<i64, UserStats>, chat: i64, year: i32, week: u32) -> (bool, u32, u32) {
    let s = checked_stats(m, chat, year, week);
    if s.is_premium {
        (true, 0, 0)
    } else {
        (s.downloads_this_week < WEEKLY_LIMIT, s.downloads_this_week, WEEKLY_LIMIT)
    }
}

/// The records after a quota check of `chat` in the given week.
pub open spec fn after_quota_check(m: Map<i64, UserStats>, chat: i64, year: i32, week: u32) -> Map<i64, UserStats> {
    m.insert(chat, checked_stats(m, chat, year, week))
}

/// Whether a download of `chat` can be counted without overflowing.
pub open spec fn can_count(m: Map<i64, UserStats>, chat: i64) -> bool {
    m.contains_key(chat) && !m[chat].is_premium ==> m[chat].downloads_this_week < u32::MAX
}

/// The records after a download of `chat`: counted for known non-premium
/// chats, nothing changes otherwise.
pub open spec fn after_download(m: Map<i64, UserStats>, chat: i64) -> Map<i64, UserStats> {
    if m.contains_key(chat) && !m[chat].is_premium {
        m.insert(chat, m[chat].counted())
    } else {
        m
    }
}

/// The records after setting the premium flag of `chat` to `status` in the
/// given week (an unknown chat gets a fresh record first).
pub open spec fn after_set_premium(m: Map<i64, UserStats>, chat: i64, status: bool, year: i32, week: u32) -> Map<i64, UserStats> {
    m.insert(chat, stats_or_fresh(m, chat, year, week).with_premium(status))
}

/// Whether setting the premium flag of `chat` to `status` changes it.
pub open spec fn premium_changes(m: Map<i64, UserStats>, chat: i64, status: bool, year: i32, week: u32) -> bool {
    stats_or_fresh(m, chat, year, week).is_premium != status
}

/// `l` lists the records of `m`: every chat once, with its record.
pub open spec fn is_listing(l: Seq<(i64, UserStats)>, m: Map<i64, UserStats>) -> bool {
    &&& l.len() == m.dom().len()
    &&& forall|i: int| 0 <= i < l.len() ==> #[trigger] m.contains_key(l[i].0) && m[l[i].0] == l[i].1
    &&& forall|i: int, j: int| 0 <= i < j < l.len() ==> #[trigger] l[i].0 != #[trigger] l[j].0
    &&& forall|k: i64| #[trigger] m.contains_key(k) ==> exists|i: int| 0 <= i < l.len() && l[i].0 == k
}

/// The download records of all chats, and where they are kept on disk.
pub struct UsageManager {
    usage_data: HashMap<i64, UserStats>,
    data_file_path: String,
}

impl View for UsageManager {
    type V = Map<i64, UserStats>;

    closed spec fn view(&self) -> Map<i64, UserStats> {
        self.usage_data@
    }
}

impl UsageManager {
    /// The path of the file the records are kept in.
    pub closed spec fn path(&self) -> Seq<char> {
        self.data_file_path@
    }

    /// A manager holding the records `usage_data`, kept at `data_file_path`.
    pub fn new(usage_data: HashMap<i64, UserStats>, data_file_path: String) -> (m: UsageManager)
        ensures
            m@ == usage_data@,
            m.path() == data_file_path@,
    {
        UsageManager { usage_data, data_file_path }
    }

    /// There are finitely many records.
    pub proof fn lemma_records_finite(&self)
        ensures
            self@.dom().finite(),
    {
    }

    /// The path of the file the records are kept in.
    pub fn data_file_path(&self) -> (p: &str)
        ensures
            p@ == self.path(),
    {
        self.data_file_path.as_str()
    }

    /// Checks the quota of `chat_id` in the given ISO week and records the
    /// check: an unknown chat gets a fresh record, a non-premium record from
    /// another week is reset. Returns `(allowed, downloads this week, limit)`,
    /// or `(true, 0, 0)` for a premium chat.
    pub fn can_download_at(&mut self, chat_id: i64, year: i32, week: u32) -> (r: (bool, u32, u32))
        ensures
            r == quota_answer(old(self)@, chat_id, year, week),
            final(self)@ == after_quota_check(old(self)@, chat_id, year, week),
            final(self).path() == old(self).path(),
    {
        let mut stats = match self.usage_data.get(&chat_id) {
            Some(s) => *s,
            None => UserStats::for_week(year, week),
        };
        if stats.is_premium {
            self.usage_data.insert(chat_id, stats);
            return (true, 0, 0);
        }
        if stats.last_reset_year != year || stats.last_reset_week != week {
            stats.downloads_this_week = 0;
            stats.last_reset_week = week;
            stats.last_reset_year = year;
        }
        self.usage_data.insert(chat_id, stats);
        (stats.downloads_this_week < WEEKLY_LIMIT, stats.downloads_this_week, WEEKLY_LIMIT)
    }

    /// Checks the quota of `chat_id` in the current ISO week; see
    /// `can_download_at`, which holds for the week the clock gave. `None`, and
    /// no change, when the system clock gives no date.
    pub fn can_download(&mut self, chat_id: i64) -> (r: Option<(bool, u32, u32)>)
        ensures
            r is None ==> final(self)@ == old(self)@,
            r matches Some(a) ==> exists|year: i32, week: u32|
                1 <= week <= 53 && a == quota_answer(old(self)@, chat_id, year, week)
                    && final(self)@ == after_quota_check(old(self)@, chat_id, year, week),
            final(self).path() == old(self).path(),
    {
        match current_iso_week() {
            Some((year, week)) => Some(self.can_download_at(chat_id, year, week)),
            None => None,
        }
    }

    /// Counts one download for `chat_id`, unless the chat is premium or has no
    /// record.
    pub fn record_download(&mut self, chat_id: i64)
        requires
            can_count(old(self)@, chat_id),
        ensures
            final(self)@ == after_download(old(self)@, chat_id),
            final(self).path() == old(self).path(),
    {
        match self.usage_data.get(&chat_id) {
            Some(s) => {
                let mut stats = *s;
                if !stats.is_premium {
                    stats.downloads_this_week = stats.downloads_this_week + 1;
                    self.usage_data.insert(chat_id, stats);
                }
            },
            None => {},
        }
    }

    /// Sets the premium flag of `chat_id` to `status`, creating a fresh record
    /// for the given ISO week when the chat has none. Returns whether the flag
    /// changed.
    pub fn set_premium_status_at(&mut self, chat_id: i64, status: bool, year: i32, week: u32) -> (changed: bool)
        ensures
            changed == premium_changes(old(self)@, chat_id, status, year, week),
            final(self)@ == after_set_premium(old(self)@, chat_id, status, year, week),
            final(self).path() == old(self).path(),
    {
        let mut stats = match self.usage_data.get(&chat_id) {
            Some(s) => *s,
            None => UserStats::for_week(year, week),
        };
        let changed = stats.is_premium != status;
        stats.is_premium = status;
        self.usage_data.insert(chat_id, stats);
        changed
    }

    /// Sets the premium flag of `chat_id` to `status`. A chat with a record
    /// needs no clock; for a chat without one, a fresh record for the current
    /// ISO week is created first, and the result is `None`, with no change,
    /// when the system clock gives no date. See `set_premium_status_at`.
    pub fn set_premium_status(&mut self, chat_id: i64, status: bool) -> (r: Option<bool>)
        ensures
            old(self)@.contains_key(chat_id) ==> r == Some(old(self)@[chat_id].is_premium != status)
                && final(self)@ == old(self)@.insert(
                chat_id,
                old(self)@[chat_id].with_premium(status),
            ),
            r is None ==> final(self)@ == old(self)@,
            r matches Some(changed) ==> exists|year: i32, week: u32|
                1 <= week <= 53 && changed == premium_changes(old(self)@, chat_id, status, year, week)
                    && final(self)@ == after_set_premium(old(self)@, chat_id, status, year, week),
            final(self).path() == old(self).path(),
    {
        match self.usage_data.get(&chat_id) {
            Some(s) => {
                let mut stats = *s;
                let changed = stats.is_premium != status;
                stats.is_premium = status;
                self.usage_data.insert(chat_id, stats);
                assert(after_set_premium(old(self)@, chat_id, status, 0, 1) == self@);
                assert(changed == premium_changes(old(self)@, chat_id, status, 0, 1));
                Some(changed)
            },
            None => match current_iso_week() {
                Some((year, week)) => Some(self.set_premium_status_at(chat_id, status, year, week)),
                None => None,
            },
        }
    }

    /// The record of `chat_id`, if it has one.
    pub fn get_user_stats(&self, chat_id: i64) -> (r: Option<UserStats>)
        ensures
            r == (if self@.contains_key(chat_id) {
                Some(self@[chat_id])
            } else {
                None
            }),
    {
        match self.usage_data.get(&chat_id) {
            Some(s) => Some(*s),
            None => None,
        }
    }

    /// Whether a download of `chat_id` can be counted without overflowing the
    /// counter.
    pub fn can_record(&self, chat_id: i64) -> (r: bool)
        ensures
            r == can_count(self@, chat_id),
    {
        match self.usage_data.get(&chat_id) {
            Some(s) => s.is_premium || s.downloads_this_week < u32::MAX,
            None => true,
        }
    }

    /// Whether there are no records at all.
    pub fn is_empty(&self) -> (r: bool)
        ensures
            r == (self@.dom().len() == 0),
    {
        proof {
            assert(self@.dom().finite());
        }
        let r = self.usage_data.is_empty();
        proof {
            if r {
                assert(self@.dom() =~= Set::<i64>::empty());
            } else {
                assert(!(self@.dom() =~= Set::<i64>::empty()));
                let k = choose|k: i64| self@.dom().contains(k) != Set::<i64>::empty().contains(k);
                assert(self@.dom().contains(k));
            }
        }
        r
    }

    /// All records, each chat once, in the order the map yields them.
    pub fn usage_entries(&self) -> (v: Vec<(i64, UserStats)>)
        ensures
            is_listing(v@, self@),
    {
        let mut v: Vec<(i64, UserStats)> = Vec::new();
        let entries = self.usage_data.iter();
        let ghost sq = spec_hash_map_iter(&self.usage_data).remaining();
        assert(sq.no_duplicates());
        for e in it: entries
            invariant
                v@.len() == it.index(),
                it.seq() == sq,
                forall|i: int| 0 <= i < v@.len() ==> v@[i] == (*sq[i].0, *sq[i].1),
        {
            let (k, s) = e;
            v.push((*k, *s));
        }
        proof {
            let m = self@;
            assert(v@.len() == sq.len());
            assert forall|i: int| 0 <= i < v@.len() implies #[trigger] m.contains_key(v@[i].0)
                && m[v@[i].0] == v@[i].1 by {
                assert(m.contains_key(*sq[i].0) && m[*sq[i].0] == *sq[i].1);
            }
            assert forall|i: int, j: int| 0 <= i < j < v@.len() implies #[trigger] v@[i].0
                != #[trigger] v@[j].0 by {
                if v@[i].0 == v@[j].0 {
                    assert(m.contains_key(*sq[i].0) && m[*sq[i].0] == *sq[i].1);
                    assert(m.contains_key(*sq[j].0) && m[*sq[j].0] == *sq[j].1);
                    assert(sq[i] == sq[j]);
                }
            }
            assert forall|k: i64| #[trigger] m.contains_key(k) implies exists|i: int|
                0 <= i < v@.len() && v@[i].0 == k by {
                assert(sq.contains((&k, &m[k])));
                let i = choose|i: int| 0 <= i < sq.len() && sq[i] == (&k, &m[k]);
                assert(v@[i].0 == k);
            }
        }
        v
    }

    /// A copy of all records.
    pub fn get_all_usage_summary(&self) -> (r: std::io::Result<HashMap<i64, UserStats>>)
        ensures
            r matches Ok(m) && m@ == self@,
    {
        Ok(self.usage_data.clone())
    }
}

/// Declares `std::io::Error`, so that `get_all_usage_summary` can keep the
/// `std::io::Result` type its callers expect. Opaque: nothing is assumed of
/// its values, and no function here ever produces one.
#[verifier::external_type_specification]
#[verifier::external_body]
pub struct ExIoError(std::io::Error);

} // verus!

verus! {

// ---------------------------------------------------------------------------
// Laws of the quota records
// ---------------------------------------------------------------------------

/// A quota check answers `allowed` exactly when the chat is premium or has
/// counted fewer than `WEEKLY_LIMIT` downloads this week, and reports the
/// count and the limit for non-premium chats.
pub proof fn law_quota_answer(m: Map<i64, UserStats>, chat: i64, year: i32, week: u32)
    ensures
        ({
            let s = checked_stats(m, chat, year, week);
            let r = quota_answer(m, chat, year, week);
            &&& s.is_premium ==> r == (true, 0u32, 0u32)
            &&& !s.is_premium ==> r.0 == (r.1 < r.2) && r.2 == WEEKLY_LIMIT && r.1
                == s.downloads_this_week
        }),
{
}

/// Checking the quota twice in the same week gives the same answer and the
/// same records as checking once.
pub proof fn law_quota_check_idempotent(m: Map<i64, UserStats>, chat: i64, year: i32, week: u32)
    ensures
        quota_answer(after_quota_check(m, chat, year, week), chat, year, week) == quota_answer(
            m,
            chat,
            year,
            week,
        ),
        after_quota_check(after_quota_check(m, chat, year, week), chat, year, week)
            == after_quota_check(m, chat, year, week),
{
    let m1 = after_quota_check(m, chat, year, week);
    assert(m1.insert(chat, checked_stats(m1, chat, year, week)) =~= m1);
}

/// A chat first seen in a week, or last counted in another week, starts the
/// week with no downloads and is allowed.
pub proof fn law_new_week_resets(m: Map<i64, UserStats>, chat: i64, year: i32, week: u32)
    requires
        !stats_or_fresh(m, chat, year, week).is_premium,
        !m.contains_key(chat) || m[chat].last_reset_year != year || m[chat].last_reset_week
            != week,
    ensures
        quota_answer(m, chat, year, week) == (true, 0u32, WEEKLY_LIMIT),
        checked_stats(m, chat, year, week).downloads_this_week == 0,
        checked_stats(m, chat, year, week).last_reset_year == year,
        checked_stats(m, chat, year, week).last_reset_week == week,
{
}

/// Premium chats are always allowed, and their downloads are never counted.
pub proof fn law_premium_unlimited(m: Map<i64, UserStats>, chat: i64, year: i32, week: u32)
    requires
        m.contains_key(chat),
        m[chat].is_premium,
    ensures
        quota_answer(m, chat, year, week) == (true, 0u32, 0u32),
        after_quota_check(m, chat, year, week) == m,
        after_download(m, chat) == m,
{
    assert(m.insert(chat, m[chat]) =~= m);
}

/// After an allowed check, counting the download cannot overflow, and it adds
/// exactly one to the count the check reported.
pub proof fn law_download_after_check(m: Map<i64, UserStats>, chat: i64, year: i32, week: u32)
    requires
        quota_answer(m, chat, year, week).0,
    ensures
        can_count(after_quota_check(m, chat, year, week), chat),
        !checked_stats(m, chat, year, week).is_premium ==> after_download(
            after_quota_check(m, chat, year, week),
            chat,
        )[chat].downloads_this_week == quota_answer(m, chat, year, week).1 + 1,
{
}

/// Each operation on one chat leaves the records of every other chat as they
/// were.
pub proof fn law_other_chats_untouched(
    m: Map<i64, UserStats>,
    chat: i64,
    other: i64,
    status: bool,
    year: i32,
    week: u32,
)
    requires
        chat != other,
    ensures
        after_quota_check(m, chat, year, week).contains_key(other) == m.contains_key(other),
        after_download(m, chat).contains_key(other) == m.contains_key(other),
        after_set_premium(m, chat, status, year, week).contains_key(other) == m.contains_key(
            other,
        ),
        m.contains_key(other) ==> after_quota_check(m, chat, year, week)[other] == m[other]
            && after_download(m, chat)[other] == m[other] && after_set_premium(
            m,
            chat,
            status,
            year,
            week,
        )[other] == m[other],
{
}

/// Setting a premium flag to the value it already has changes nothing the
/// second time, and reports no change.
pub proof fn law_set_premium_idempotent(
    m: Map<i64, UserStats>,
    chat: i64,
    status: bool,
    year: i32,
    week: u32,
    year2: i32,
    week2: u32,
)
    ensures
        ({
            let m1 = after_set_premium(m, chat, status, year, week);
            &&& !premium_changes(m1, chat, status, year2, week2)
            &&& after_set_premium(m1, chat, status, year2, week2) == m1
        }),
{
    let m1 = after_set_premium(m, chat, status, year, week);
    assert(m1.insert(chat, m1[chat].with_premium(status)) =~= m1);
}

/// Granting premium makes the chat unlimited in every week; revoking it keeps
/// the count the chat had.
pub proof fn law_premium_grant_and_revoke(
    m: Map<i64, UserStats>,
    chat: i64,
    year: i32,
    week: u32,
    year2: i32,
    week2: u32,
)
    ensures
        quota_answer(after_set_premium(m, chat, true, year, week), chat, year2, week2) == (
            true,
            0u32,
            0u32,
        ),
        after_set_premium(m, chat, false, year, week)[chat].downloads_this_week
            == stats_or_fresh(m, chat, year, week).downloads_this_week,
        !after_set_premium(m, chat, false, year, week)[chat].is_premium,
{
}

/// The records after `n` requests of `chat` in one week, each a quota check
/// followed, when allowed, by a counted download.
pub open spec fn serve(m: Map<i64, UserStats>, chat: i64, year: i32, week: u32, n: nat) -> Map<
    i64,
    UserStats,
>
    decreases n,
{
    if n == 0 {
        m
    } else {
        let prev = serve(m, chat, year, week, (n - 1) as nat);
        let checked = after_quota_check(prev, chat, year, week);
        if quota_answer(prev, chat, year, week).0 {
            after_download(checked, chat)
        } else {
            checked
        }
    }
}

/// The weekly limit: a non-premium chat that starts a week afresh and sends
/// `n` requests in it gets `min(n, WEEKLY_LIMIT)` downloads counted, and its
/// next request is allowed exactly when `n < WEEKLY_LIMIT`.
pub proof fn law_weekly_limit(m: Map<i64, UserStats>, chat: i64, year: i32, week: u32, n: nat)
    requires
        !stats_or_fresh(m, chat, year, week).is_premium,
        !m.contains_key(chat) || m[chat].last_reset_year != year || m[chat].last_reset_week
            != week,
        n >= 1,
    ensures
        ({
            let after = serve(m, chat, year, week, n);
            &&& after.contains_key(chat)
            &&& !after[chat].is_premium
            &&& after[chat].last_reset_year == year
            &&& after[chat].last_reset_week == week
            &&& after[chat].downloads_this_week == (if n < WEEKLY_LIMIT {
                n
            } else {
                WEEKLY_LIMIT as nat
            })
            &&& quota_answer(after, chat, year, week).0 == (n < WEEKLY_LIMIT)
        }),
    decreases n,
{
    let prev = serve(m, chat, year, week, (n - 1) as nat);
    let checked = after_quota_check(prev, chat, year, week);
    assert(serve(m, chat, year, week, n) == if quota_answer(prev, chat, year, week).0 {
        after_download(checked, chat)
    } else {
        checked
    });
    if n > 1 {
        law_weekly_limit(m, chat, year, week, (n - 1) as nat);
        assert(checked_stats(prev, chat, year, week) == prev[chat]);
    } else {
        assert(prev == m);
        law_new_week_resets(m, chat, year, week);
    }
}

/// Each operation adds at most one record (the one of the chat it is about)
/// to a finite set of records.
pub proof fn law_at_most_one_new_record(
    m: Map<i64, UserStats>,
    chat: i64,
    status: bool,
    year: i32,
    week: u32,
)
    requires
        m.dom().finite(),
    ensures
        after_quota_check(m, chat, year, week).dom().finite(),
        after_quota_check(m, chat, year, week).dom().len() <= m.dom().len() + 1,
        after_set_premium(m, chat, status, year, week).dom().finite(),
        after_set_premium(m, chat, status, year, week).dom().len() <= m.dom().len() + 1,
        after_download(m, chat).dom() == m.dom(),
{
    assert(after_quota_check(m, chat, year, week).dom() == m.dom().insert(chat));
    assert(after_set_premium(m, chat, status, year, week).dom() == m.dom().insert(chat));
    if m.contains_key(chat) && !m[chat].is_premium {
        assert(m.dom().insert(chat) =~= m.dom());
    }
}

/// One operation on the records.
pub enum UsageOp {
    /// A quota check of `chat` in the given week.
    Check { chat: i64, year: i32, week: u32 },
    /// A counted download of `chat`.
    Download { chat: i64 },
    /// Setting the premium flag of `chat` in the given week.
    SetPremium { chat: i64, status: bool, year: i32, week: u32 },
}

/// The records after one operation.
pub open spec fn apply_op(m: Map<i64, UserStats>, op: UsageOp) -> Map<i64, UserStats> {
    match op {
        UsageOp::Check { chat, year, week } => after_quota_check(m, chat, year, week),
        UsageOp::Download { chat } => after_download(m, chat),
        UsageOp::SetPremium { chat, status, year, week } => after_set_premium(
            m,
            chat,
            status,
            year,
            week,
        ),
    }
}

/// The records after a sequence of operations, in order.
pub open spec fn apply_ops(m: Map<i64, UserStats>, ops: Seq<UsageOp>) -> Map<i64, UserStats>
    decreases ops.len(),
{
    if ops.len() == 0 {
        m
    } else {
        apply_op(apply_ops(m, ops.drop_last()), ops.last())
    }
}

/// Whether an operation revokes the premium flag of `chat`.
pub open spec fn revokes(op: UsageOp, chat: i64) -> bool {
    op matches UsageOp::SetPremium { chat: c, status, .. } && c == chat && !status
}

/// Premium lasts: once a chat is premium, it stays premium, and every quota
/// check answers it `(true, 0, 0)`, in any week, through any sequence of
/// checks, downloads and premium changes that does not revoke its flag.
pub proof fn law_premium_lasts(
    m: Map<i64, UserStats>,
    chat: i64,
    ops: Seq<UsageOp>,
    year: i32,
    week: u32,
)
    requires
        m.contains_key(chat),
        m[chat].is_premium,
        forall|i: int| 0 <= i < ops.len() ==> !revokes(#[trigger] ops[i], chat),
    ensures
        apply_ops(m, ops).contains_key(chat),
        apply_ops(m, ops)[chat].is_premium,
        quota_answer(apply_ops(m, ops), chat, year, week) == (true, 0u32, 0u32),
    decreases ops.len(),
{
    if ops.len() > 0 {
        let init = ops.drop_last();
        assert forall|i: int| 0 <= i < init.len() implies !revokes(#[trigger] init[i], chat) by {
            assert(init[i] == ops[i]);
        }
        law_premium_lasts(m, chat, init, year, week);
        assert(!revokes(ops[ops.len() - 1], chat));
    }
}

/// Granting premium lasts: after the flag of `chat` is set, every quota check
/// answers it `(true, 0, 0)`, in any week, through any sequence of operations
/// that does not revoke the flag.
pub proof fn law_granted_premium_lasts(
    m: Map<i64, UserStats>,
    chat: i64,
    year0: i32,
    week0: u32,
    ops: Seq<UsageOp>,
    year: i32,
    week: u32,
)
    requires
        forall|i: int| 0 <= i < ops.len() ==> !revokes(#[trigger] ops[i], chat),
    ensures
        quota_answer(
            apply_ops(after_set_premium(m, chat, true, year0, week0), ops),
            chat,
            year,
            week,
        ) == (true, 0u32, 0u32),
{
    law_premium_lasts(after_set_premium(m, chat, true, year0, week0), chat, ops, year, week);
}

} // verus!

verus! {

/// Setting a premium flag changes only that flag: the chat's record keeps
/// its count and its week (a chat without a record starts from a fresh one),
/// whether the flag is granted or revoked.
pub proof fn law_set_premium_changes_only_flag(
    m: Map<i64, UserStats>,
    chat: i64,
    status: bool,
    year: i32,
    week: u32,
)
    ensures
        ({
            let before = stats_or_fresh(m, chat, year, week);
            let after = after_set_premium(m, chat, status, year, week)[chat];
            &&& after.is_premium == status
            &&& after.downloads_this_week == before.downloads_this_week
            &&& after.last_reset_week == before.last_reset_week
            &&& after.last_reset_year == before.last_reset_year
            &&& m.contains_key(chat) ==> after.downloads_this_week == m[chat].downloads_this_week
            &&& !m.contains_key(chat) ==> after.downloads_this_week == 0
                && after.last_reset_week == week && after.last_reset_year == year
        }),
{
}

} // verus!
