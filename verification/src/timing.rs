use vstd::prelude::*;

verus! {

/// The wait duration, in seconds, for a restart interval given in whole
/// hours. `None` exactly when the product does not fit in a `u64`.
pub fn hours_to_seconds(hours: u64) -> (r: Option<u64>)
    ensures
        hours * 3600 <= u64::MAX ==> r == Some((hours * 3600) as u64),
        hours * 3600 > u64::MAX ==> r is None,
{
    if hours <= u64::MAX / 3600 {
        proof {
            assert(hours * 3600 <= (u64::MAX / 3600) * 3600) by (nonlinear_arith)
                requires
                    hours <= u64::MAX / 3600,
            ;
        }
        Some(hours * 3600)
    } else {
        proof {
            assert(hours * 3600 > u64::MAX) by (nonlinear_arith)
                requires
                    hours > u64::MAX / 3600,
            ;
        }
        None
    }
}

/// The unit conversion round-trips: for every interval of `h` whole hours
/// that fits in a `u64` of seconds, the wait duration computed from it is
/// exactly `h` hours — splitting it back into clock fields gives `h` hours,
/// zero minutes and zero seconds.
pub proof fn lemma_interval_round_trip(h: u64)
    requires
        h * 3600 <= u64::MAX,
    ensures
        (h * 3600) / 3600 == h,
        ((h * 3600) / 60) % 60 == 0,
        (h * 3600) % 60 == 0,
{
    assert((h * 3600) / 3600 == h) by (nonlinear_arith);
    assert((h * 3600) / 60 == h * 60) by (nonlinear_arith);
    assert((h * 60) % 60 == 0) by (nonlinear_arith);
    assert((h * 3600) % 60 == 0) by (nonlinear_arith);
}

/// One decision of the countdown loop, taken once per tick.
pub enum TickDecision {
    /// Cancellation observed: leave the loop.
    Stop,
    /// Show the remaining time, split into clock fields, and re-arm the
    /// display deadline when the remaining time has dropped to one second
    /// or less.
    Display { hours: u64, minutes: u64, seconds: u64, rearm: bool },
}

/// The countdown loop's decision for one tick: stop as soon as the
/// cancellation signal is set; otherwise display the remaining time
/// (computed before any re-arming) and re-arm once at most one second
/// remains.
pub fn timer_tick(signal_set: bool, remaining_secs: u64) -> (r: TickDecision)
    ensures
        signal_set ==> r is Stop,
        !signal_set ==> (r matches TickDecision::Display { hours, minutes, seconds, rearm }
            && hours == remaining_secs / 3600
            && minutes == (remaining_secs / 60) % 60
            && seconds == remaining_secs % 60
            && rearm == (remaining_secs <= 1)),
{
    if signal_set {
        TickDecision::Stop
    } else {
        TickDecision::Display {
            hours: remaining_secs / 3600,
            minutes: (remaining_secs / 60) % 60,
            seconds: remaining_secs % 60,
            rearm: remaining_secs <= 1,
        }
    }
}

} // verus!
