use vstd::prelude::*;
use chrono::Timelike;

verus! {

/// Relies on chrono's `Utc::now` and `Timelike::hour`: the hour number is
/// documented to lie between 0 and 23.
#[verifier::external_body]
pub(crate) fn now_hour() -> (h: u32)
    ensures
        h < 24,
{
    chrono::Utc::now().hour()
}

/// Relies on chrono's `Utc::now` and `DateTime::timestamp`: the reading is
/// seconds since the Unix epoch; nothing is assumed of the clock's value.
#[verifier::external_body]
pub(crate) fn now_epoch() -> i64 {
    chrono::Utc::now().timestamp()
}

} // verus!
