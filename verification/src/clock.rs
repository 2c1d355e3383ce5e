//! The time of day in milliseconds.

use vstd::prelude::*;

verus! {

/// The milliseconds since 1970 as a 64-bit number: zero for a clock before 1970, the low 64 bits
/// for one that no longer fits.
pub open spec fn epoch_millis(elapsed: Option<u128>) -> u64 {
    match elapsed {
        Some(millis) => (millis % 0x1_0000_0000_0000_0000) as u64,
        None => 0,
    }
}

/// Reads the clock by `std::time::SystemTime::elapsed` of `UNIX_EPOCH`: the milliseconds since
/// 1970, or nothing where the clock stands before. Nothing is claimed of the time that it shows.
#[verifier::external_body]
fn elapsed_since_epoch() -> (r: Option<u128>) {
    std::time::UNIX_EPOCH.elapsed().ok().map(|elapsed| elapsed.as_millis())
}

/// A reading of the clock gave this: a call of `elapsed_since_epoch` returned it.
pub closed spec fn clock_showed(elapsed: Option<u128>) -> bool {
    call_ensures(elapsed_since_epoch, (), elapsed)
}

/// A reading of the clock gave so many milliseconds since 1970.
pub open spec fn clock_showed_millis(millis: u64) -> bool {
    exists|elapsed: Option<u128>| #[trigger]
        clock_showed(elapsed) && millis == epoch_millis(elapsed)
}

/// Calls a function that reads something.
fn look<F: Fn() -> Option<u128>>(read: F) -> (r: Option<u128>)
    requires
        call_requires(read, ()),
    ensures
        call_ensures(read, (), r),
{
    read()
}

/// Makes a 64-bit number of what the clock shows.
pub fn millis_from(elapsed: Option<u128>) -> (r: u64)
    ensures
        r == epoch_millis(elapsed),
{
    match elapsed {
        Some(millis) => (millis % 0x1_0000_0000_0000_0000) as u64,
        None => 0,
    }
}

/// The milliseconds since 1970, now: those that the clock showed when it was read.
pub fn now_ms() -> (r: u64)
    ensures
        clock_showed_millis(r),
{
    let elapsed = look(elapsed_since_epoch);
    assert(clock_showed(elapsed));
    millis_from(elapsed)
}

} // verus!
