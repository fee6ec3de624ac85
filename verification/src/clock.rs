//! Trusted boundary around the wall clock.
use vstd::prelude::*;

verus! {

/// Relies on tendermint::Time::now and Time::duration_since: milliseconds of
/// wall-clock time since the unix epoch, or 0 if the clock reads before the
/// epoch. Nothing is promised of the value: it depends on the clock alone.
#[verifier::external_body]
pub(crate) fn now_unix_millis() -> u64 {
    match tendermint::Time::now().duration_since(tendermint::Time::unix_epoch()) {
        Ok(d) => d.as_millis() as u64,
        Err(_) => 0,
    }
}

} // verus!
