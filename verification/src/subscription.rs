//! Subscribing to the monthly newsletter, and reporting how a user is
//! subscribed. The table itself lives in the database; these are the
//! decisions around reading and writing it.

use vstd::prelude::*;
use crate::clock::{
    formatted_utc, four_digit_year, lemma_display_pattern_is_plain, rfc3339_instant, rfc3339_text,
    UtcTime, DISPLAY_PATTERN,
};
use crate::text::{
    join3, ALREADY_SUBSCRIBED, NOT_SUBSCRIBED_BEFORE, NOT_SUBSCRIBED_TEXT, STATUS_DATE_PREFIX,
    STATUS_FAILED, STATUS_PREFIX, SUBSCRIBED_TEXT, SUBSCRIBE_FAILED, UNSUBSCRIBED_TEXT,
    UNSUBSCRIBE_FAILED,
};

verus! {

/// A failed database operation, with the database's explanation.
#[derive(Debug)]
pub struct DbError {
    pub message: String,
}

/// A row of the subscriptions table, as it is written.
pub struct SubscriptionRow {
    pub user_id: i64,
    pub email: String,
    pub subscribed_at: String,
    pub is_active: i32,
    /// The time the row is stamped with.
    pub stamp: UtcTime,
}

/// How the table stores whether a subscription is active.
pub open spec fn activity(active: bool) -> i32 {
    if active { 1 } else { 0 }
}

/// Whether a request for the subscription state `active` must write a row,
/// where `current` is the stored state, if there is a row: only when the
/// stored state differs. A user without a row counts as not subscribed.
pub open spec fn needs_write(current: Option<i32>, active: bool) -> bool {
    match current {
        None => active,
        Some(c) => c != activity(active),
    }
}

/// The row that records the user's subscription as `active` (or not), with
/// this address, as of `at`.
pub open spec fn is_row_at(row: SubscriptionRow, user_id: u64, email: Seq<char>, active: bool, at: (i64, u32)) -> bool {
    &&& row.user_id == user_id as i64
    &&& row.email@ == email
    &&& row.stamp@ == at
    &&& row.subscribed_at@ == rfc3339_text(at.0, at.1)
    &&& (four_digit_year(at) ==> rfc3339_instant(row.subscribed_at@) == Some(at))
    &&& row.is_active == activity(active)
}

/// A row of the subscriptions table, apart from its key, the user's id.
pub struct Record {
    pub email: Seq<char>,
    pub subscribed_at: Seq<char>,
    pub is_active: i32,
}

/// What a written row puts in the table.
pub open spec fn record_of(row: SubscriptionRow) -> Record {
    Record { email: row.email@, subscribed_at: row.subscribed_at@, is_active: row.is_active }
}

/// The table after a row is written (`INSERT OR REPLACE`, keyed by the
/// user's id).
pub open spec fn after_write(table: Map<i64, Record>, row: SubscriptionRow) -> Map<i64, Record> {
    table.insert(row.user_id, record_of(row))
}

/// The stored state of a user's subscription (`SELECT is_active ... WHERE
/// user_id = ?`), if the user has a row.
pub open spec fn stored_activity(table: Map<i64, Record>, user_id: u64) -> Option<i32> {
    if table.contains_key(user_id as i64) {
        Some(table[user_id as i64].is_active)
    } else {
        None
    }
}

/// The user's active subscription (`... WHERE user_id = ? AND is_active = 1`).
pub open spec fn active_record(table: Map<i64, Record>, user_id: u64) -> Option<Record> {
    if table.contains_key(user_id as i64) && table[user_id as i64].is_active == 1 {
        Some(table[user_id as i64])
    } else {
        None
    }
}

/// What `/subscription_status` reports for a found record: its address and
/// the instant it was stamped with (`fallback` where that cannot be read).
pub open spec fn reported(found: Option<Record>, fallback: (i64, u32)) -> Option<(Seq<char>, (i64, u32))> {
    match found {
        Some(r) => Some((r.email, stored_instant(r.subscribed_at, fallback))),
        None => None,
    }
}

/// The row that records the user's subscription as of `now`.
pub fn subscription_row_at(user_id: u64, email: &str, is_active: bool, now: &UtcTime) -> (row: SubscriptionRow)
    ensures
        is_row_at(row, user_id, email@, is_active, now@),
        row.stamp == *now,
{
    SubscriptionRow {
        user_id: user_id as i64,
        email: String::from_str(email),
        subscribed_at: now.to_rfc3339(),
        is_active: if is_active { 1 } else { 0 },
        stamp: *now,
    }
}

/// Whether a request for the subscription state `is_active` must write a row.
pub fn write_needed(current: Option<i32>, is_active: bool) -> (r: bool)
    ensures
        r == needs_write(current, is_active),
{
    let flag: i32 = if is_active { 1 } else { 0 };
    match current {
        Some(c) => c != flag,
        None => is_active,
    }
}

/// The row to write for a request for the subscription state `is_active`,
/// stamped with `now`; `None` where the stored state (`current`, if there is
/// a row) is the requested one already, or where a user without a row asks
/// to be unsubscribed.
pub fn set_subscription_at(current: Option<i32>, user_id: u64, email: &str, is_active: bool, now: &UtcTime) -> (r: Option<SubscriptionRow>)
    ensures
        r is None <==> !needs_write(current, is_active),
        r matches Some(row) ==> is_row_at(row, user_id, email@, is_active, now@) && row.stamp == *now,
{
    if write_needed(current, is_active) {
        Some(subscription_row_at(user_id, email, is_active, now))
    } else {
        None
    }
}

/// The row to write for a request for the subscription state `is_active`,
/// stamped with a reading of the clock taken for this request (only when a
/// row is written); `None` where the stored state is the requested one
/// already, or where a user without a row asks to be unsubscribed.
pub fn set_subscription(current: Option<i32>, user_id: u64, email: &str, is_active: bool) -> (r: Option<SubscriptionRow>)
    ensures
        r is None <==> !needs_write(current, is_active),
        r matches Some(row) ==> row.stamp.read_from_clock()
            && is_row_at(row, user_id, email@, is_active, row.stamp@),
{
    if write_needed(current, is_active) {
        let now = UtcTime::now();
        set_subscription_at(current, user_id, email, is_active, &now)
    } else {
        None
    }
}

/// Whether the subscription changed: `write` is the outcome of writing the
/// row, or `None` where no row had to be written.
pub fn subscription_changed(write: Result<Option<()>, DbError>) -> (r: Result<bool, DbError>)
    ensures
        match write {
            Ok(Some(_)) => r matches Ok(true),
            Ok(None) => r matches Ok(false),
            Err(e) => r matches Err(f) && f == e,
        },
{
    match write {
        Ok(Some(_)) => Ok(true),
        Ok(None) => Ok(false),
        Err(e) => Err(e),
    }
}

/// The reply to `/subscribe`.
pub fn subscribe_reply(outcome: &Result<bool, DbError>) -> (r: String)
    ensures
        r@ == match outcome {
            Ok(true) => SUBSCRIBED_TEXT@,
            Ok(false) => ALREADY_SUBSCRIBED@,
            Err(_) => SUBSCRIBE_FAILED@,
        },
{
    match outcome {
        Ok(true) => String::from_str(SUBSCRIBED_TEXT),
        Ok(false) => String::from_str(ALREADY_SUBSCRIBED),
        Err(_) => String::from_str(SUBSCRIBE_FAILED),
    }
}

/// The reply to `/unsubscribe`.
pub fn unsubscribe_reply(outcome: &Result<bool, DbError>) -> (r: String)
    ensures
        r@ == match outcome {
            Ok(true) => UNSUBSCRIBED_TEXT@,
            Ok(false) => NOT_SUBSCRIBED_BEFORE@,
            Err(_) => UNSUBSCRIBE_FAILED@,
        },
{
    match outcome {
        Ok(true) => String::from_str(UNSUBSCRIBED_TEXT),
        Ok(false) => String::from_str(NOT_SUBSCRIBED_BEFORE),
        Err(_) => String::from_str(UNSUBSCRIBE_FAILED),
    }
}

/// What the database gave for a user's active subscription.
pub enum StatusRow {
    Found { email: String, subscribed_at: String },
    Missing,
    Failed(DbError),
}

/// The instant a stored time stands for, or `fallback` where it cannot be read.
pub open spec fn stored_instant(stored: Seq<char>, fallback: (i64, u32)) -> (i64, u32) {
    match rfc3339_instant(stored) {
        Some(at) => at,
        None => fallback,
    }
}

/// A user's subscription: the address and the time it began, `None` where the
/// user has no active subscription; a time that cannot be read counts as
/// `now`.
pub fn subscription_status_at(row: StatusRow, now: UtcTime) -> (r: Result<Option<(String, UtcTime)>, DbError>)
    ensures
        match row {
            StatusRow::Found { email, subscribed_at } => r matches Ok(Some((e, at)))
                && e@ == email@ && at@ == stored_instant(subscribed_at@, now@),
            StatusRow::Missing => r matches Ok(None),
            StatusRow::Failed(err) => r matches Err(f) && f == err,
        },
{
    match row {
        StatusRow::Found { email, subscribed_at } => match UtcTime::parse_rfc3339(subscribed_at.as_str()) {
            Some(at) => Ok(Some((email, at))),
            None => Ok(Some((email, now))),
        },
        StatusRow::Missing => Ok(None),
        StatusRow::Failed(err) => Err(err),
    }
}

/// A user's subscription, where a time that cannot be read counts as the
/// present time (read from the clock).
pub fn subscription_status(row: StatusRow) -> (r: Result<Option<(String, UtcTime)>, DbError>)
    ensures
        match row {
            StatusRow::Found { email, subscribed_at } => r matches Ok(Some((e, at)))
                && e@ == email@
                && (rfc3339_instant(subscribed_at@) matches Some(stored) ==> at@ == stored),
            StatusRow::Missing => r matches Ok(None),
            StatusRow::Failed(err) => r matches Err(f) && f == err,
        },
{
    match row {
        StatusRow::Found { email, subscribed_at } => match UtcTime::parse_rfc3339(subscribed_at.as_str()) {
            Some(at) => Ok(Some((email, at))),
            None => Ok(Some((email, UtcTime::now()))),
        },
        StatusRow::Missing => Ok(None),
        StatusRow::Failed(err) => Err(err),
    }
}

/// The reply to `/subscription_status`.
pub fn status_reply(status: &Result<Option<(String, UtcTime)>, DbError>) -> (r: String)
    ensures
        r@ == match status {
            Ok(Some((email, at))) => STATUS_PREFIX@ + email@ + STATUS_DATE_PREFIX@
                + formatted_utc(at@.0, at@.1, DISPLAY_PATTERN@),
            Ok(None) => NOT_SUBSCRIBED_TEXT@,
            Err(_) => STATUS_FAILED@,
        },
{
    match status {
        Ok(Some((email, at))) => {
            proof { lemma_display_pattern_is_plain(); }
            let date = at.format(DISPLAY_PATTERN);
            let head = join3(STATUS_PREFIX, email.as_str(), STATUS_DATE_PREFIX);
            head.concat(date.as_str())
        },
        Ok(None) => String::from_str(NOT_SUBSCRIBED_TEXT),
        Err(_) => String::from_str(STATUS_FAILED),
    }
}

} // verus!
