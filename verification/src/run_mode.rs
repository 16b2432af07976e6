//! The run mode: how the user wants the simulation to be paced.

use vstd::prelude::*;

verus! {

/// How the simulation is to be run. The render side requests a mode, the
/// driver obeys the one it was sent last.
#[derive(Clone, Copy, Debug, PartialEq, Eq, Structural)]
pub enum RunMode {
    /// Perform one tick, then pause.
    SingleTick,
    /// Tick on and on: as fast as possible, or at most at the given rate, in
    /// thousandths of a tick per second.
    Continuous(Option<u32>),
    /// Do not tick.
    Paused,
    /// Stop for good.
    Terminate,
}

/// Nanoseconds between two ticks at a rate of one thousandth of a tick per
/// second.
pub const NANOS_PER_MILLIRATE: u64 = 1_000_000_000_000;

/// Nanoseconds between the starts of two ticks at `rate` thousandths of a tick
/// per second, rounded down.
pub open spec fn tick_interval(rate: u32) -> int {
    1_000_000_000_000int / (rate as int)
}

impl RunMode {
    /// A rate cap, where there is one, is positive.
    pub open spec fn wf(&self) -> bool {
        self matches RunMode::Continuous(Some(rate)) ==> rate > 0
    }

    /// Whether the mode is `Continuous`, capped or not.
    pub fn is_continuous(&self) -> (yes: bool)
        ensures
            yes == (self is Continuous),
    {
        match self {
            RunMode::Continuous(_) => true,
            _ => false,
        }
    }
}

/// The mode to go by after a drain: the last of the `queued` messages, or
/// `current` if there was none.
pub open spec fn latest(current: RunMode, queued: Seq<RunMode>) -> RunMode {
    if queued.len() == 0 {
        current
    } else {
        queued.last()
    }
}

/// Coalesces the messages drained from the control channel, oldest first:
/// only the most recent one counts, and without any the mode stays.
pub fn keep_latest(current: RunMode, queued: &Vec<RunMode>) -> (mode: RunMode)
    ensures
        mode == latest(current, queued@),
{
    let n = queued.len();
    if n == 0 {
        current
    } else {
        queued[n - 1]
    }
}

/// Nanoseconds between the starts of two ticks at `rate` thousandths of a tick
/// per second.
pub fn interval_nanos(rate: u32) -> (nanos: u64)
    requires
        rate > 0,
    ensures
        nanos == tick_interval(rate),
{
    NANOS_PER_MILLIRATE / (rate as u64)
}

} // verus!
