//! Service level agreements on how long a controller may keep a resource
//! in one state, and how long it has been there.
use vstd::prelude::*;

use crate::ids::UtcTimestamp;

verus! {

/// Nanoseconds in a second.
pub const NANOS_PER_SEC: u128 = 1_000_000_000;

/// The time assumed to have passed in a state whose start lies in the
/// future of the clock: one day.
pub const UNKNOWN_TIME_IN_STATE_SECS: u64 = 86400;

/// The SLA of a state, if it has one (in seconds), and whether the time
/// spent in the state is above it.
#[derive(Debug, Clone, Copy, PartialEq, Eq, Structural)]
pub struct StateSla {
    pub sla: Option<u64>,
    pub time_in_state_above_sla: bool,
}

/// A point in time as nanoseconds since the Unix epoch.
pub open spec fn timestamp_nanos(t: UtcTimestamp) -> int {
    t.unix_seconds * 1_000_000_000 + t.nanoseconds
}

/// Nanoseconds spent in a state entered at `since`, seen at `now`; one day
/// when `since` lies after `now`.
pub open spec fn time_in_state_of(now: UtcTimestamp, since: UtcTimestamp) -> int {
    let d = timestamp_nanos(now) - timestamp_nanos(since);
    if d >= 0 {
        d
    } else {
        UNKNOWN_TIME_IN_STATE_SECS * 1_000_000_000
    }
}

/// Whether `time_in_state_nanos` is above an SLA of `sla_secs` seconds.
pub open spec fn above_sla(sla_secs: u64, time_in_state_nanos: u128) -> bool {
    time_in_state_nanos > sla_secs * 1_000_000_000
}

/// The SLA outcome for a state with the SLA `sla` (or none).
pub open spec fn sla_outcome(sla: Option<u64>, time_in_state_nanos: u128) -> StateSla {
    StateSla {
        sla,
        time_in_state_above_sla: match sla {
            Some(l) => above_sla(l, time_in_state_nanos),
            None => false,
        },
    }
}

impl StateSla {
    /// A state without SLA.
    pub fn no_sla() -> (r: StateSla)
        ensures
            r == sla_outcome(None, 0),
    {
        StateSla { sla: None, time_in_state_above_sla: false }
    }

    /// A state with an SLA of `sla_secs` seconds, in which
    /// `time_in_state_nanos` nanoseconds have been spent.
    pub fn with_sla(sla_secs: u64, time_in_state_nanos: u128) -> (r: StateSla)
        ensures
            r == sla_outcome(Some(sla_secs), time_in_state_nanos),
    {
        let limit: u128 = (sla_secs as u128) * NANOS_PER_SEC;
        StateSla { sla: Some(sla_secs), time_in_state_above_sla: time_in_state_nanos > limit }
    }
}

/// Nanoseconds spent in a state entered at `since`, seen at `now`; one day
/// when `since` lies after `now` (a clock that went backwards).
pub fn time_in_state(now: UtcTimestamp, since: UtcTimestamp) -> (r: u128)
    ensures
        r == time_in_state_of(now, since),
{
    let a: i128 = (now.unix_seconds as i128) * 1_000_000_000 + (now.nanoseconds as i128);
    let b: i128 = (since.unix_seconds as i128) * 1_000_000_000 + (since.nanoseconds as i128);
    assert(a == timestamp_nanos(now));
    assert(b == timestamp_nanos(since));
    let d: i128 = a - b;
    if d >= 0 {
        d as u128
    } else {
        (UNKNOWN_TIME_IN_STATE_SECS as u128) * NANOS_PER_SEC
    }
}

} // verus!
