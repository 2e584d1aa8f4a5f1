//! Small texts that the pages show.

use crate::domain::timestamp::Timestamp;
use crate::text::{decimal, push_decimal, push_str, string_of};
use vstd::prelude::*;

verus! {

/// The nanoseconds from `date` to `now`; negative where `date` is later.
pub open spec fn elapsed_nanos(date: (int, int), now: (int, int)) -> int {
    (now.0 - date.0) * 1_000_000_000 + (now.1 - date.1)
}

/// The whole seconds from `date` to `now`, none where `date` is not earlier.
pub open spec fn elapsed_seconds(date: (int, int), now: (int, int)) -> int {
    if elapsed_nanos(date, now) <= 0 {
        0
    } else {
        elapsed_nanos(date, now) / 1_000_000_000
    }
}

/// `count` of `unit`, in the plural unless `count` is 1, then ` ago`.
pub open spec fn counted_ago(count: nat, unit: Seq<char>) -> Seq<char> {
    decimal(count) + " "@ + unit + (if count == 1 {
        ""@
    } else {
        "s"@
    }) + " ago"@
}

/// How long ago `seconds` is, in the largest unit that fits: years of 365
/// days beyond 365 days, months of 30 days beyond 30 days, then days, then
/// hours; less than an hour is "Just now".
pub open spec fn relative_text(seconds: int) -> Seq<char> {
    let days = seconds / 86_400;
    let hours = seconds / 3_600;
    if days > 365 {
        counted_ago((days / 365) as nat, "year"@)
    } else if days > 30 {
        counted_ago((days / 30) as nat, "month"@)
    } else if days > 0 {
        counted_ago(days as nat, "day"@)
    } else if hours > 0 {
        counted_ago(hours as nat, "hour"@)
    } else {
        "Just now"@
    }
}

/// `count` of `unit`, then ` ago`.
fn counted(count: u64, unit: &str) -> (text: String)
    ensures
        text@ == counted_ago(count as nat, unit@),
{
    let mut out: Vec<char> = Vec::new();
    push_decimal(&mut out, count);
    push_str(&mut out, " ");
    push_str(&mut out, unit);
    if count != 1 {
        push_str(&mut out, "s");
    } else {
        push_str(&mut out, "");
    }
    push_str(&mut out, " ago");
    assert(out@ =~= counted_ago(count as nat, unit@));
    string_of(out.as_slice())
}

/// How long before `now` the instant `date` was, in words such as
/// "3 days ago". An instant that is not in the past was "Just now".
pub fn format_relative_time(date: &Timestamp, now: &Timestamp) -> (text: String)
    ensures
        text@ == relative_text(elapsed_seconds(date@, now@)),
{
    let nanos: i128 = (now.seconds as i128 - date.seconds as i128) * 1_000_000_000 + (
    now.nanos as i128 - date.nanos as i128);
    if nanos <= 0 {
        return "Just now".to_owned();
    }
    let seconds: u128 = (nanos as u128) / 1_000_000_000;
    assert(seconds == elapsed_seconds(date@, now@));
    let days: u64 = (seconds / 86_400) as u64;
    let hours: u64 = (seconds / 3_600) as u64;
    if days > 365 {
        counted(days / 365, "year")
    } else if days > 30 {
        counted(days / 30, "month")
    } else if days > 0 {
        counted(days, "day")
    } else if hours > 0 {
        counted(hours, "hour")
    } else {
        "Just now".to_owned()
    }
}

} // verus!
