use std::time::{Duration, SystemTime, SystemTimeError};
use vstd::prelude::*;

verus! {

/// `std::time::SystemTime`, a point in time as the system clock counts it.
/// Nothing inside it is visible to a proof.
#[verifier::external_type_specification]
#[verifier::external_body]
pub struct ExSystemTime(SystemTime);

/// `std::time::SystemTimeError`, which `SystemTime::duration_since` returns
/// for a time that lies after the one it is asked about.
#[verifier::external_type_specification]
#[verifier::external_body]
pub struct ExSystemTimeError(SystemTimeError);

/// `SystemTime::now` reads the system clock. Nothing is claimed of the time
/// it returns: two readings may differ in either direction.
pub assume_specification[ SystemTime::now ]() -> (now: SystemTime);

/// `SystemTime::duration_since` gives the time that passed from `earlier` to
/// `time`, or an error where `earlier` is the later of the two. Nothing is
/// claimed of which it returns.
pub assume_specification[ SystemTime::duration_since ](
    time: &SystemTime,
    earlier: SystemTime,
) -> (elapsed: Result<Duration, SystemTimeError>);

/// `Duration::as_millis` gives the whole milliseconds in a duration. Nothing
/// is claimed of the number.
pub assume_specification[ Duration::as_millis ](duration: &Duration) -> (millis: u128);

/// Whole milliseconds from `epoch` to the present reading of the system
/// clock, as [`millis_of`] makes them from what the clock gave.
///
/// The reading is whatever the clock says, and every 64-bit count can come
/// of it, so nothing is promised of the result: what is done with it is
/// proved for every value.
pub(crate) fn get_millis(epoch: SystemTime) -> u64 {
    match SystemTime::now().duration_since(epoch) {
        Ok(elapsed) => millis_of(Some(elapsed.as_millis())),
        Err(_) => millis_of(None),
    }
}

/// The low 64 bits of the whole milliseconds that the clock gave, or 0 where
/// it gave none.
pub open spec fn low_millis(elapsed: Option<u128>) -> u64 {
    match elapsed {
        Some(millis) => (millis % 0x1_0000_0000_0000_0000) as u64,
        None => 0,
    }
}

/// The millisecond that a generator works with, from what the clock gave:
/// the whole milliseconds since the epoch, cut to their low 64 bits, or 0
/// where the clock read a time before the epoch and gave none.
pub fn millis_of(elapsed: Option<u128>) -> (millis: u64)
    ensures
        millis == low_millis(elapsed),
{
    match elapsed {
        Some(whole) => {
            assert(whole as u64 == whole % 0x1_0000_0000_0000_0000) by (bit_vector);
            #[verifier::truncate]
            (whole as u64)
        },
        None => 0,
    }
}

} // verus!
