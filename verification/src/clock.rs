//! The protocol clock.

use vstd::prelude::*;

verus! {

/// Largest count of nanoseconds within a second.
pub const MAX_SUBSECOND_NANOS: u32 = 999_999_999;

/// A caller-supplied source of authenticated Unix time.
///
/// A firmware implementation normally reads a network-synchronized RTC. The
/// monotonic half of [`EmbassyClock`] always comes from `embassy-time`.
pub trait UnixTime {
    /// Return seconds and nanoseconds since the Unix epoch.
    fn unix_time(&self) -> Option<(u64, u32)>;
}

/// A point in time on both clocks.
#[derive(Clone, Copy, Debug, PartialEq, Eq)]
pub struct Timestamp {
    /// Nanoseconds since startup.
    pub monotonic_nanos: u64,
    /// Whole seconds since the Unix epoch, zero if the wall time is unknown.
    pub unix_seconds: u64,
    /// Nanoseconds within the second.
    pub unix_nanos: u32,
}

/// The timestamp for what the two clocks show. A missing wall time counts as
/// the epoch, and nanoseconds stay within the second.
pub open spec fn timestamp_of(unix: Option<(u64, u32)>, monotonic_nanos: u64) -> Timestamp {
    match unix {
        Some((seconds, nanos)) => Timestamp {
            monotonic_nanos,
            unix_seconds: seconds,
            unix_nanos: if nanos <= MAX_SUBSECOND_NANOS {
                nanos
            } else {
                MAX_SUBSECOND_NANOS
            },
        },
        None => Timestamp { monotonic_nanos, unix_seconds: 0, unix_nanos: 0 },
    }
}

/// Combine what the two clocks show.
pub fn timestamp(unix: Option<(u64, u32)>, monotonic_nanos: u64) -> (timestamp: Timestamp)
    ensures
        timestamp == timestamp_of(unix, monotonic_nanos),
{
    let (unix_seconds, nanos): (u64, u32) = match unix {
        Some((seconds, nanos)) => (seconds, nanos),
        None => (0, 0),
    };
    let unix_nanos: u32 = if nanos <= MAX_SUBSECOND_NANOS {
        nanos
    } else {
        MAX_SUBSECOND_NANOS
    };
    Timestamp { monotonic_nanos, unix_seconds, unix_nanos }
}

/// Nanoseconds since startup: `embassy_time::Instant::now`, as the number of
/// nanoseconds that `Instant::as_nanos` gives for it.
///
/// Nothing is claimed of the number, which rests on the time driver. The
/// conversion multiplies the driver's ticks in `u64`, unchecked; with the
/// microsecond ticks that this crate configures it is exact for the first five
/// centuries after startup.
#[verifier::external_body]
fn monotonic_nanos() -> (nanos: u64) {
    embassy_time::Instant::now().as_nanos()
}

/// Whether the time driver may have shown this many nanoseconds since startup:
/// whether they are what reading it can return.
pub closed spec fn driver_showed(nanos: u64) -> bool {
    call_ensures(monotonic_nanos, (), nanos)
}

/// Combines `embassy-time`'s monotonic clock with authenticated wall time.
pub struct EmbassyClock<U> {
    unix: U,
}

impl<U> EmbassyClock<U> {
    /// The wall-clock source.
    pub closed spec fn source(self) -> U {
        self.unix
    }

    /// Construct a protocol clock around a firmware wall-clock source.
    pub fn new(unix: U) -> (clock: Self)
        ensures
            clock.source() == unix,
    {
        EmbassyClock { unix }
    }
}

impl<U: UnixTime> EmbassyClock<U> {
    /// The current time: what the wall-clock source returns now, and the
    /// monotonic time that the time driver shows. Nothing else is claimed of the
    /// monotonic time, which rests on the driver.
    pub fn now(&self) -> (now: Timestamp)
        ensures
            exists|unix: Option<(u64, u32)>|
                #[trigger] call_ensures(U::unix_time, (&self.source(),), unix) && now == timestamp_of(
                    unix,
                    now.monotonic_nanos,
                ),
            driver_showed(now.monotonic_nanos),
            now.unix_nanos <= MAX_SUBSECOND_NANOS,
    {
        let unix = self.unix.unix_time();
        assert(call_ensures(U::unix_time, (&self.source(),), unix));
        timestamp(unix, monotonic_nanos())
    }
}

/// A timestamp shows both clocks as they are: the monotonic time and the seconds
/// unaltered, the nanoseconds too unless they exceed a second, and the epoch
/// where the wall time is unknown.
pub proof fn timestamps_show_both_clocks(unix: Option<(u64, u32)>, monotonic_nanos: u64)
    ensures
        ({
            let shown = timestamp_of(unix, monotonic_nanos);
            &&& shown.monotonic_nanos == monotonic_nanos
            &&& shown.unix_nanos < 1_000_000_000
            &&& unix is None ==> shown.unix_seconds == 0 && shown.unix_nanos == 0
            &&& unix matches Some((seconds, nanos)) ==> {
                &&& shown.unix_seconds == seconds
                &&& nanos < 1_000_000_000 ==> shown.unix_nanos == nanos
                &&& nanos >= 1_000_000_000 ==> shown.unix_nanos == 999_999_999
            }
        }),
{
}

/// What the driver showed is what reading it returned, and nothing else.
proof fn driver_shows_what_is_read(nanos: u64)
    ensures
        driver_showed(nanos) <==> call_ensures(monotonic_nanos, (), nanos),
{
}

} // verus!
