//! The wall clock. Its readings depend on the machine and the moment, so no
//! contract says what they are. A `ClockReading` is made only by `read_clock`,
//! in this module: a function that states its result for "some clock reading"
//! states it for a value that the clock really returned, not for any number.

use vstd::prelude::*;

use std::time::SystemTime;

verus! {

#[verifier::external_type_specification]
#[verifier::external_body]
pub struct ExSystemTime(SystemTime);

/// Calls `std::time::SystemTime::now`.
/// Nothing is promised of the reading.
#[verifier::external_body]
fn system_now() -> (t: SystemTime) {
    SystemTime::now()
}

/// Calls `SystemTime::duration_since(UNIX_EPOCH)` and keeps the whole seconds.
/// `None` stands for the error that std returns for a time before the epoch.
/// Nothing is promised of the value: the argument has no view here.
#[verifier::external_body]
fn secs_since_epoch(t: SystemTime) -> (secs: Option<u64>) {
    t.duration_since(std::time::UNIX_EPOCH).ok().map(|d| d.as_secs())
}

/// Seconds since the Unix epoch, or `None` when the clock stands before it.
pub fn unix_now_secs() -> (secs: Option<u64>) {
    let t = system_now();
    secs_since_epoch(t)
}

/// One reading of the wall clock: the whole seconds since the Unix epoch, or
/// `None` when the clock stood before it. Only `read_clock` makes one.
pub struct ClockReading {
    secs: Option<u64>,
}

impl ClockReading {
    /// The seconds that this reading found.
    pub closed spec fn secs(&self) -> Option<u64> {
        self.secs
    }

    /// The seconds that this reading found.
    pub fn seconds(&self) -> (secs: Option<u64>)
        ensures
            secs == self.secs(),
    {
        self.secs
    }
}

/// Reads the wall clock once.
pub fn read_clock() -> (reading: ClockReading) {
    ClockReading { secs: unix_now_secs() }
}

} // verus!
