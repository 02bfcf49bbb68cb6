//! `GET /api/v1/calendar?start=&end=`: the episodes airing in a date range.
use vstd::prelude::*;
use crate::error::AppError;
use crate::models::show::CalendarEpisode;
use crate::text::{concat, int_text, owned, push_int, push_str};

verus! {

/// Longest range, in days, one request may span.
pub const MAX_RANGE_DAYS: i64 = 92;

pub struct CalendarQuery {
    pub start: String,
    pub end: String,
}

pub struct CalendarResponse {
    pub episodes: Vec<CalendarEpisode>,
}

/// The day number (days from the common era, as `chrono` counts them) of a
/// `YYYY-MM-DD` date, if the text is one.
pub uninterp spec fn iso_date_days(text: Seq<char>) -> Option<int>;

/// `chrono::NaiveDate::parse_from_str(text, "%Y-%m-%d")`, the date given
/// as its `num_days_from_ce()`, which is an `i32`.
#[verifier::external_body]
fn parse_iso_date(text: &str) -> (r: Option<i64>)
    ensures
        match r {
            Some(d) => iso_date_days(text@) == Some(d as int) && i32::MIN <= d <= i32::MAX,
            None => iso_date_days(text@) is None,
        },
{
    match chrono::NaiveDate::parse_from_str(text, "%Y-%m-%d") {
        Ok(d) => Some(chrono::Datelike::num_days_from_ce(&d) as i64),
        Err(_) => None,
    }
}

/// Why a range is refused, checked in this order; `None` when accepted.
pub open spec fn range_failure(
    start: Seq<char>,
    end: Seq<char>,
    start_days: Option<int>,
    end_days: Option<int>,
) -> Option<Seq<char>> {
    if start_days is None {
        Some("invalid start date: "@ + start)
    } else if end_days is None {
        Some("invalid end date: "@ + end)
    } else if end_days->0 < start_days->0 {
        Some("end must be >= start"@)
    } else if end_days->0 - start_days->0 > MAX_RANGE_DAYS {
        Some(
            "range "@ + int_text(end_days->0 - start_days->0) + " days exceeds max of "@
                + int_text(MAX_RANGE_DAYS as int),
        )
    } else {
        None
    }
}


/// Checks a range given the day numbers of its ends (absent when a date
/// does not parse): both dates valid, not inverted, at most
/// `MAX_RANGE_DAYS` days apart.
pub fn check_range(q: &CalendarQuery, start_days: Option<i64>, end_days: Option<i64>) -> (r:
    Result<(), AppError>)
    requires
        start_days matches Some(d) ==> i32::MIN <= d <= i32::MAX,
        end_days matches Some(d) ==> i32::MIN <= d <= i32::MAX,
    ensures
        ({
            let f = range_failure(
                q.start@,
                q.end@,
                match start_days {
                    Some(d) => Some(d as int),
                    None => None,
                },
                match end_days {
                    Some(d) => Some(d as int),
                    None => None,
                },
            );
            &&& r is Ok <==> f is None
            &&& r matches Err(e) ==> e matches AppError::InvalidData(m) && m@ == f->0
        }),
{
    let s = match start_days {
        Some(d) => d,
        None => {
            return Err(AppError::InvalidData(concat("invalid start date: ", q.start.as_str())));
        },
    };
    let e = match end_days {
        Some(d) => d,
        None => {
            return Err(AppError::InvalidData(concat("invalid end date: ", q.end.as_str())));
        },
    };
    if e < s {
        return Err(AppError::InvalidData(owned("end must be >= start")));
    }
    let span = e - s;
    if span > MAX_RANGE_DAYS {
        let mut m = owned("range ");
        push_int(&mut m, span);
        push_str(&mut m, " days exceeds max of ");
        push_int(&mut m, MAX_RANGE_DAYS);
        return Err(AppError::InvalidData(m));
    }
    Ok(())
}

/// Validates a calendar query: parses both dates and checks the range.
pub fn validate_range(q: &CalendarQuery) -> (r: Result<(), AppError>)
    ensures
        ({
            let f = range_failure(q.start@, q.end@, iso_date_days(q.start@), iso_date_days(q.end@));
            &&& r is Ok <==> f is None
            &&& r matches Err(e) ==> e matches AppError::InvalidData(m) && m@ == f->0
        }),
{
    let s = parse_iso_date(q.start.as_str());
    let e = parse_iso_date(q.end.as_str());
    check_range(q, s, e)
}

/// An accepted range has two valid dates, the end not before the start,
/// and spans at most `MAX_RANGE_DAYS` days.
pub proof fn accepted_range_is_bounded(
    start: Seq<char>,
    end: Seq<char>,
    start_days: Option<int>,
    end_days: Option<int>,
)
    requires
        range_failure(start, end, start_days, end_days) is None,
    ensures
        start_days is Some && end_days is Some,
        0 <= end_days->0 - start_days->0 <= MAX_RANGE_DAYS,
{
}

} // verus!
