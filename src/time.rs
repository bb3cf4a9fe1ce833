use vstd::prelude::*;

use crate::lists::Timestamp;

verus! {

/// The time that chrono's `NaiveDateTime::parse_from_str` reads from `s` in the format `fmt`,
/// in seconds since the Unix epoch with the time taken as UTC; `None` when `s` does not match.
pub uninterp spec fn naive_parse_seconds(s: Seq<char>, fmt: Seq<char>) -> Option<i64>;

/// The time that chrono's `DateTime::parse_from_rfc2822` reads from `s`, in seconds since the
/// Unix epoch; `None` when `s` is not an RFC 2822 date.
pub uninterp spec fn rfc2822_seconds(s: Seq<char>) -> Option<i64>;

/// The time that chrono's `DateTime::parse_from_rfc3339` reads from `s`, in seconds since the
/// Unix epoch; `None` when `s` is not an RFC 3339 date.
pub uninterp spec fn rfc3339_seconds(s: Seq<char>) -> Option<i64>;

/// Relies on chrono's `NaiveDateTime::parse_from_str`: the date and time in `s` read in the
/// format `fmt`, taken as UTC and given as a Unix timestamp (`and_utc`, `timestamp`).
#[verifier::external_body]
fn naive_parse(s: &str, fmt: &str) -> (r: Option<i64>)
    ensures
        r == naive_parse_seconds(s@, fmt@),
{
    match chrono::NaiveDateTime::parse_from_str(s, fmt) {
        Ok(n) => Some(n.and_utc().timestamp()),
        Err(_) => None,
    }
}

/// Relies on chrono's `DateTime::parse_from_rfc2822`: the RFC 2822 date in `s`, given as a
/// Unix timestamp (`timestamp`).
#[verifier::external_body]
fn rfc2822_parse(s: &str) -> (r: Option<i64>)
    ensures
        r == rfc2822_seconds(s@),
{
    match chrono::DateTime::parse_from_rfc2822(s) {
        Ok(d) => Some(d.timestamp()),
        Err(_) => None,
    }
}

/// Relies on chrono's `DateTime::parse_from_rfc3339`: the RFC 3339 date in `s`, given as a
/// Unix timestamp (`timestamp`).
#[verifier::external_body]
fn rfc3339_parse(s: &str) -> (r: Option<i64>)
    ensures
        r == rfc3339_seconds(s@),
{
    match chrono::DateTime::parse_from_rfc3339(s) {
        Ok(d) => Some(d.timestamp()),
        Err(_) => None,
    }
}

/// The first time that one of the readings in `tries` found, if any.
pub open spec fn first_found(tries: Seq<Option<i64>>) -> Option<i64>
    decreases tries.len(),
{
    if tries.len() == 0 {
        None
    } else {
        match tries[0] {
            Some(t) => Some(t),
            None => first_found(tries.subrange(1, tries.len() as int)),
        }
    }
}

/// Takes the first reading of `text` that found a time, in the order tried; `Err` with the
/// text itself when none did.
pub fn pick_datetime(text: String, tries: &Vec<Option<i64>>) -> (r: Result<Timestamp, String>)
    ensures
        match first_found(tries@) {
            Some(t) => r == Ok::<Timestamp, String>(Timestamp { seconds: t }),
            None => r matches Err(e) && e@ == text@,
        },
{
    let mut i: usize = 0;
    assert(tries@.subrange(0, tries@.len() as int) =~= tries@);
    while i < tries.len()
        invariant
            i <= tries@.len(),
            first_found(tries@) == first_found(tries@.subrange(i as int, tries@.len() as int)),
        decreases tries@.len() - i,
    {
        let ghost rest = tries@.subrange(i as int, tries@.len() as int);
        assert(rest.subrange(1, rest.len() as int) =~= tries@.subrange(
            i + 1,
            tries@.len() as int,
        ));
        if let Some(t) = tries[i] {
            return Ok(Timestamp { seconds: t });
        }
        i = i + 1;
    }
    Err(text)
}

/// The readings of a date that replies may carry: `%T %b %e %Y`, then `%c`, then RFC 2822,
/// then RFC 3339.
pub open spec fn datetime_tries(s: Seq<char>) -> Seq<Option<i64>> {
    seq![
        naive_parse_seconds(s, "%T %b %e %Y"@),
        naive_parse_seconds(s, "%c"@),
        rfc2822_seconds(s),
        rfc3339_seconds(s),
    ]
}

/// Reads a date as servers write it in replies, trying the formats of `datetime_tries` in
/// turn. `Err` with the text itself when none of them fits.
pub fn parse_datetime(text: String) -> (r: Result<Timestamp, String>)
    ensures
        match first_found(datetime_tries(text@)) {
            Some(t) => r == Ok::<Timestamp, String>(Timestamp { seconds: t }),
            None => r matches Err(e) && e@ == text@,
        },
{
    let s = text.as_str();
    let mut tries: Vec<Option<i64>> = Vec::new();
    tries.push(naive_parse(s, "%T %b %e %Y"));
    tries.push(naive_parse(s, "%c"));
    tries.push(rfc2822_parse(s));
    tries.push(rfc3339_parse(s));
    assert(tries@ =~= datetime_tries(text@));
    pick_datetime(text, &tries)
}

} // verus!
