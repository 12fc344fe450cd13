//! The wall clock. Expiry checks and absolute expiry computations take the
//! current time as a plain value from here.

use vstd::prelude::*;

verus! {

/// Relies on `chrono::Utc::now` and `DateTime::timestamp`: the current time
/// in whole seconds since the epoch. Nothing is promised about the value —
/// it depends on the machine's clock.
#[verifier::external_body]
pub fn now_epoch_seconds() -> (r: i64) {
    chrono::Utc::now().timestamp()
}

} // verus!
