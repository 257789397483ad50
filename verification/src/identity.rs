//! Fresh identifiers and the clock: the two things an entity gets from the
//! outside world when it is created.

use vstd::prelude::*;

verus! {

/// The `strftime` patterns that the library prints times with: hour and
/// minute, and day, month and two-digit year.
pub open spec fn is_known_pattern(pattern: Seq<char>) -> bool {
    pattern == "%H:%M"@ || pattern == "%d.%m.%y"@
}

/// The hyphenated lower-case text of a UUID, as the `uuid` crate prints it.
pub uninterp spec fn uuid_hyphenated(id: u128) -> Seq<char>;

/// Makes a random version-4 UUID with `uuid::Uuid::new_v4` and hands it out as
/// the 128-bit number `Uuid::as_u128` gives.
///
/// Trusted, and nothing is claimed about the number.
#[verifier::external_body]
pub(crate) fn new_uuid() -> (id: u128) {
    uuid::Uuid::new_v4().as_u128()
}

/// Prints a UUID given as a 128-bit number, through `uuid::Uuid::from_u128`
/// and the crate's `Display` for `Uuid`.
///
/// Trusted: the text depends on the number alone; `uuid_hyphenated` names it.
#[verifier::external_body]
pub(crate) fn uuid_text(id: u128) -> (text: String)
    ensures
        text@ == uuid_hyphenated(id),
{
    uuid::Uuid::from_u128(id).to_string()
}

/// The RFC 3339 text of the moment `millis` milliseconds after the Unix epoch,
/// in UTC, as `chrono` prints it; none for a moment outside the range that
/// `chrono` can hold.
pub uninterp spec fn rfc3339_of(millis: i64) -> Option<Seq<char>>;

/// Prints a moment given in milliseconds since the Unix epoch, through
/// `chrono::DateTime::from_timestamp_millis` and `DateTime::to_rfc3339`.
///
/// Trusted: the text depends on the number alone; `rfc3339_of` names it.
#[verifier::external_body]
pub(crate) fn rfc3339_text(millis: i64) -> (text: Option<String>)
    ensures
        match text {
            Some(t) => rfc3339_of(millis) == Some(t@),
            None => rfc3339_of(millis) is None,
        },
{
    chrono::DateTime::from_timestamp_millis(millis).map(|moment| moment.to_rfc3339())
}

/// Reads the wall clock of the machine's time zone with `chrono::Local::now`
/// and prints it in the given `strftime` pattern, through `DateTime::format`.
///
/// Trusted, and nothing is claimed about the text. A pattern that `chrono`
/// does not know makes the printing panic, so only the two patterns that the
/// library uses are let in.
#[verifier::external_body]
pub(crate) fn local_time_text(pattern: &str) -> (text: String)
    requires
        is_known_pattern(pattern@),
{
    chrono::Local::now().format(pattern).to_string()
}

/// Reads the clock with `chrono::Utc::now` and prints the moment in the
/// given `strftime` pattern, through `DateTime::format`.
///
/// Trusted, and nothing is claimed about the text. A pattern that `chrono`
/// does not know makes the printing panic, so only the two patterns that the
/// library uses are let in.
#[verifier::external_body]
pub(crate) fn utc_time_text(pattern: &str) -> (text: String)
    requires
        is_known_pattern(pattern@),
{
    chrono::Utc::now().format(pattern).to_string()
}

/// Reads the clock with `chrono::Utc::now` and gives the time as milliseconds
/// since the Unix epoch, as `DateTime::timestamp_millis` computes them.
///
/// Trusted, and nothing is claimed about the time. `Utc::now` panics on a
/// machine whose clock stands before the epoch.
#[verifier::external_body]
pub(crate) fn now_millis() -> (now: i64) {
    chrono::Utc::now().timestamp_millis()
}

} // verus!
