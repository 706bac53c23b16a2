//! What the library takes from outside: the system clock, and fresh ids.

use vstd::prelude::*;
use std::time::{Duration, SystemTime};

verus! {

/// What `SystemTime::duration_since` gives for `later` and `earlier`: the time from
/// `earlier` to `later`, or none when `earlier` is the later of the two.
pub uninterp spec fn time_after(later: SystemTime, earlier: SystemTime) -> Option<Duration>;

/// What `Duration::as_secs` gives: the whole seconds of a duration.
pub uninterp spec fn whole_seconds(d: Duration) -> u64;

/// Relies on `std::time::SystemTime::now`: the system clock's reading.
#[verifier::external_body]
pub(crate) fn system_now() -> (r: SystemTime) {
    SystemTime::now()
}

/// Relies on `std::time::UNIX_EPOCH`: the start of the Unix epoch.
#[verifier::external_body]
pub(crate) fn unix_epoch() -> (r: SystemTime) {
    std::time::UNIX_EPOCH
}

/// Relies on `SystemTime::duration_since`: the time from `earlier` to `later`, none
/// where `earlier` is later.
#[verifier::external_body]
pub(crate) fn duration_since(later: SystemTime, earlier: SystemTime) -> (r: Option<Duration>)
    ensures
        r == time_after(later, earlier),
{
    later.duration_since(earlier).ok()
}

/// Relies on `Duration::as_secs`: the whole seconds of `d`.
#[verifier::external_body]
pub(crate) fn as_secs(d: &Duration) -> (r: u64)
    ensures
        r == whole_seconds(*d),
{
    d.as_secs()
}

/// Whole seconds since the Unix epoch now; none when the clock reads before the epoch.
pub fn unix_now() -> (r: Option<u64>) {
    let now = system_now();
    let epoch = unix_epoch();
    match duration_since(now, epoch) {
        Some(d) => Some(as_secs(&d)),
        None => None,
    }
}

/// The hyphenated lower-case form of a UUID: 36 characters, dashes at positions 8, 13,
/// 18 and 23, lower-case hexadecimal digits elsewhere.
pub open spec fn is_hyphenated_uuid(s: Seq<char>) -> bool {
    &&& s.len() == 36
    &&& forall|i: int|
        0 <= i < 36 ==> if i == 8 || i == 13 || i == 18 || i == 23 {
            #[trigger] s[i] == '-'
        } else {
            ('0' <= s[i] <= '9') || ('a' <= s[i] <= 'f')
        }
}

/// Relies on `uuid::Uuid::new_v4` and its `Display`: a random id, written in the
/// hyphenated lower-case form.
#[verifier::external_body]
pub(crate) fn fresh_id() -> (r: String)
    ensures
        is_hyphenated_uuid(r@),
{
    uuid::Uuid::new_v4().to_string()
}

} // verus!
