//! The daily-use streak and the session counters.

use vstd::prelude::*;
use vstd::string::*;
use chrono::Datelike;
use crate::text::str_eq;

verus! {

/// The day number (days since the start of the common era, 0001-01-01 being
/// day 1) of a `YYYY-MM-DD` date, as chrono parses it with `%Y-%m-%d`;
/// `None` when it does not parse.
pub uninterp spec fn ymd_day_number(s: Seq<char>) -> Option<int>;

/// `chrono::NaiveDate::parse_from_str(s, "%Y-%m-%d")`, with the date given
/// by `Datelike::num_days_from_ce`. The contract names the result
/// ([`ymd_day_number`]) and says nothing more of it.
#[verifier::external_body]
fn parse_ymd_day_number(s: &str) -> (r: Option<i32>)
    ensures
        match r {
            Some(d) => ymd_day_number(s@) == Some(d as int),
            None => ymd_day_number(s@) is None,
        },
{
    match chrono::NaiveDate::parse_from_str(s, "%Y-%m-%d") {
        Ok(d) => Some(d.num_days_from_ce()),
        Err(_) => None,
    }
}

/// The streak after a session on `today`, given the streak and the date of
/// the last session: it starts at 1 with no earlier session or an
/// unreadable date, grows by one when the last session was the day before,
/// restarts at 1 after a gap, and is unchanged on the same day (or a date
/// in the future).
pub open spec fn streak_after(streak: u64, last: Option<Seq<char>>, today: Seq<char>) -> int {
    match last {
        None => 1,
        Some(l) => if l == today {
            streak as int
        } else {
            match (ymd_day_number(l), ymd_day_number(today)) {
                (Some(a), Some(b)) => if b - a == 1 {
                    streak + 1
                } else if b - a > 1 {
                    1
                } else {
                    streak as int
                },
                _ => 1,
            }
        },
    }
}

/// The streak after a session, from the day numbers of the last session
/// and of today (`None` where a date did not parse), for dates that differ.
pub fn streak_for_days(streak: u64, last_day: Option<i32>, today_day: Option<i32>) -> (r: u64)
    requires
        (last_day, today_day) matches (Some(a), Some(b)) && b - a == 1 ==> streak < u64::MAX,
    ensures
        r == match (last_day, today_day) {
            (Some(a), Some(b)) => if b - a == 1 {
                streak + 1
            } else if b - a > 1 {
                1
            } else {
                streak as int
            },
            _ => 1,
        },
{
    match (last_day, today_day) {
        (Some(a), Some(b)) => {
            let days = b as i64 - a as i64;
            if days == 1 {
                streak + 1
            } else if days > 1 {
                1
            } else {
                streak
            }
        },
        _ => 1,
    }
}

/// The streak after a session on `today` (see [`streak_after`]). The new
/// streak must fit in a `u64`: it can only overflow when the last session
/// was the day before and the streak is already at the maximum.
pub fn next_day_streak(streak: u64, last_session_date: &Option<String>, today: &str) -> (r: u64)
    requires
        streak_after(streak, match last_session_date {
            Some(l) => Some(l@),
            None => None,
        }, today@) <= u64::MAX,
    ensures
        r == streak_after(streak, match last_session_date {
            Some(l) => Some(l@),
            None => None,
        }, today@),
{
    match last_session_date {
        None => 1,
        Some(last) => {
            if str_eq(last.as_str(), today) {
                return streak;
            }
            streak_for_days(streak, parse_ymd_day_number(last.as_str()), parse_ymd_day_number(today))
        },
    }
}

/// The streak after a session on `today`, or `None` when it would not fit
/// in a `u64` (a streak already at the maximum, continued from the day
/// before).
pub fn try_next_day_streak(streak: u64, last_session_date: &Option<String>, today: &str) -> (r: Option<u64>)
    ensures
        ({
            let n = streak_after(streak, match last_session_date {
                Some(l) => Some(l@),
                None => None,
            }, today@);
            &&& n <= u64::MAX ==> r == Some(n as u64)
            &&& n > u64::MAX ==> r is None
        }),
{
    if streak < u64::MAX {
        return Some(next_day_streak(streak, last_session_date, today));
    }
    match last_session_date {
        None => Some(1),
        Some(last) => {
            if str_eq(last.as_str(), today) {
                return Some(streak);
            }
            match (parse_ymd_day_number(last.as_str()), parse_ymd_day_number(today)) {
                (Some(a), Some(b)) => if b as i64 - a as i64 == 1 {
                    None
                } else {
                    Some(next_day_streak(streak, last_session_date, today))
                },
                _ => Some(next_day_streak(streak, last_session_date, today)),
            }
        },
    }
}


/// The whole-number usage statistics: sessions, day streak, the date of
/// the last session and the words dictated.
#[derive(Debug, Clone)]
pub struct SessionCounts {
    pub sessions_count: u64,
    pub day_streak: u64,
    pub last_session_date: Option<String>,
    pub total_words: u64,
}

impl SessionCounts {
    /// The date of the last session, as a sequence.
    pub open spec fn last_date(&self) -> Option<Seq<char>> {
        match self.last_session_date {
            Some(l) => Some(l@),
            None => None,
        }
    }

    /// Records a session of `word_count` words on `today`: the words are
    /// added, the session counted, the streak moved on (see
    /// [`streak_after`]) and `today` becomes the last session date.
    /// When a counter would no longer fit in a `u64`, nothing changes and
    /// `false` is returned.
    pub fn record_session(&mut self, word_count: u64, today: String) -> (r: bool)
        ensures
            ({
                let n = streak_after(old(self).day_streak, old(self).last_date(), today@);
                &&& r == (old(self).total_words + word_count <= u64::MAX && old(self).sessions_count
                    < u64::MAX && n <= u64::MAX)
                &&& r ==> final(self).total_words == old(self).total_words + word_count
                    && final(self).sessions_count == old(self).sessions_count + 1
                    && final(self).day_streak == n && final(self).last_session_date == Some(today)
                &&& !r ==> *final(self) == *old(self)
            }),
    {
        if word_count > u64::MAX - self.total_words || self.sessions_count == u64::MAX {
            return false;
        }
        match try_next_day_streak(self.day_streak, &self.last_session_date, today.as_str()) {
            None => false,
            Some(streak) => {
                self.total_words = self.total_words + word_count;
                self.sessions_count = self.sessions_count + 1;
                self.day_streak = streak;
                self.last_session_date = Some(today);
                true
            },
        }
    }
}


/// How the streak moves with the calendar: with no earlier session it is
/// 1; on the same date it is unchanged; when the last session was the day
/// before it grows by one; after a gap of more than a day it restarts at
/// 1; and when either date cannot be read it is 1.
pub proof fn law_streak_follows_calendar(streak: u64, last: Seq<char>, today: Seq<char>, a: int, b: int)
    ensures
        streak_after(streak, None, today) == 1,
        streak_after(streak, Some(today), today) == streak,
        last != today && ymd_day_number(last) == Some(a) && ymd_day_number(today) == Some(b) && b == a
            + 1 ==> streak_after(streak, Some(last), today) == streak + 1,
        last != today && ymd_day_number(last) == Some(a) && ymd_day_number(today) == Some(b) && b > a
            + 1 ==> streak_after(streak, Some(last), today) == 1,
        last != today && ymd_day_number(last) == Some(a) && ymd_day_number(today) == Some(b) && b <= a
            ==> streak_after(streak, Some(last), today) == streak,
        last != today && (ymd_day_number(last) is None || ymd_day_number(today) is None)
            ==> streak_after(streak, Some(last), today) == 1,
{
}

} // verus!
