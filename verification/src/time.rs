use vstd::prelude::*;

verus! {

/// A wall-clock instant: whole seconds since the Unix epoch of the local
/// wall-clock reading, plus the milliseconds within that second.
#[derive(Debug, Clone, Copy, PartialEq, Eq, Default)]
pub struct Timestamp {
    pub secs: i64,
    pub millis: u32,
}

impl Timestamp {
    /// The instant as a single count of milliseconds.
    pub open spec fn as_millis(self) -> int {
        self.secs * 1000 + self.millis
    }

    pub open spec fn wf(self) -> bool {
        self.millis < 1000
    }

    pub fn new(secs: i64, millis: u32) -> (t: Timestamp)
        requires
            millis < 1000,
        ensures
            t.wf(),
            t.secs == secs,
            t.millis == millis,
    {
        Timestamp { secs, millis }
    }

    /// The span from `earlier` up to this instant.
    pub fn duration_since(&self, earlier: &Timestamp) -> (d: Duration)
        requires
            self.wf(),
            earlier.wf(),
            earlier@ <= self@,
        ensures
            d.wf(),
            d@ == self@ - earlier@,
    {
        let end: i128 = (self.secs as i128) * 1000 + (self.millis as i128);
        let start: i128 = (earlier.secs as i128) * 1000 + (earlier.millis as i128);
        let diff: i128 = end - start;
        proof {
            vstd::arithmetic::div_mod::lemma_fundamental_div_mod(diff as int, 1000);
        }
        Duration { secs: (diff / 1000) as u64, millis: (diff % 1000) as u32 }
    }
}

impl View for Timestamp {
    type V = int;

    open spec fn view(&self) -> int {
        self.as_millis()
    }
}

/// A non-negative span of time: whole seconds plus the milliseconds within
/// the last second.
#[derive(Debug, Clone, Copy, PartialEq, Eq)]
pub struct Duration {
    pub secs: u64,
    pub millis: u32,
}

impl Duration {
    /// The span as a single count of milliseconds.
    pub open spec fn as_millis(self) -> int {
        self.secs * 1000 + self.millis
    }

    pub open spec fn wf(self) -> bool {
        self.millis < 1000
    }
}

impl View for Duration {
    type V = int;

    open spec fn view(&self) -> int {
        self.as_millis()
    }
}

/// Relies on chrono's `Local::now`: the local wall-clock reading as a naive
/// date-time, taken here as seconds since the Unix epoch plus milliseconds
/// within the second. chrono represents a leap second with up to 1999
/// milliseconds; nothing else can be promised of a clock reading.
#[verifier::external_body]
fn now_raw() -> (r: (i64, u32))
    ensures
        r.1 < 2000,
{
    let t = chrono::Local::now().naive_local().and_utc();
    (t.timestamp(), t.timestamp_subsec_millis())
}

/// The current local wall-clock instant, normalised so that the millisecond
/// part is below 1000 (a leap second's overflow is carried into the seconds,
/// or clamped at the very end of the representable range).
pub fn now() -> (t: Timestamp)
    ensures
        t.wf(),
{
    let (secs, millis) = now_raw();
    if millis >= 1000 {
        if secs < i64::MAX {
            Timestamp { secs: secs + 1, millis: millis - 1000 }
        } else {
            Timestamp { secs, millis: 999 }
        }
    } else {
        Timestamp { secs, millis }
    }
}

} // verus!
