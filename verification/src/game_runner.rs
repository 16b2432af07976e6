//! The driver's pacing: when to tick, when to wait and when to stop.

use crate::run_mode::{interval_nanos, keep_latest, latest, tick_interval, RunMode};
use vstd::prelude::*;

verus! {

/// Nanoseconds that a paused driver waits before it looks for messages again.
pub const PAUSED_POLL_NANOS: u64 = 5_000_000;

/// What the driver does next.
#[derive(Clone, Copy, Debug, PartialEq, Eq, Structural)]
pub enum Action {
    /// Wait that many nanoseconds, then perform one tick.
    Tick { wait_nanos: u64 },
    /// Wait that many nanoseconds without ticking, then ask again.
    Poll { wait_nanos: u64 },
    /// Leave the loop.
    Exit,
}

/// The mode that the driver goes by once it has drained `queued`. A driver
/// that has seen `Terminate` last stays terminated.
pub open spec fn observe(mode: RunMode, queued: Seq<RunMode>) -> RunMode {
    if mode is Terminate {
        mode
    } else {
        latest(mode, queued)
    }
}

/// Nanoseconds still to wait before a tick at `rate` thousandths of a tick per
/// second, when the last tick began `elapsed_nanos` ago.
pub open spec fn remaining_wait(rate: u32, elapsed_nanos: u64) -> int {
    if tick_interval(rate) > elapsed_nanos {
        tick_interval(rate) - elapsed_nanos
    } else {
        0
    }
}

/// What a driver in `mode` does when the last tick began `elapsed_nanos` ago.
pub open spec fn action_in(mode: RunMode, elapsed_nanos: u64) -> Action {
    match mode {
        RunMode::SingleTick => Action::Tick { wait_nanos: 0 },
        RunMode::Continuous(None) => Action::Tick { wait_nanos: 0 },
        RunMode::Continuous(Some(rate)) => Action::Tick {
            wait_nanos: remaining_wait(rate, elapsed_nanos) as u64,
        },
        RunMode::Paused => Action::Poll { wait_nanos: PAUSED_POLL_NANOS },
        RunMode::Terminate => Action::Exit,
    }
}

/// The mode that a driver is left in after it has acted in `mode`: a single
/// tick is followed by a pause.
pub open spec fn mode_after(mode: RunMode) -> RunMode {
    match mode {
        RunMode::SingleTick => RunMode::Paused,
        _ => mode,
    }
}

/// The pacing state of the driver: the run mode that it goes by.
pub struct GameRunner {
    run_mode: RunMode,
}

impl GameRunner {
    /// The mode that the driver goes by.
    pub closed spec fn mode(&self) -> RunMode {
        self.run_mode
    }

    /// A driver that waits for its first request.
    pub fn new() -> (runner: GameRunner)
        ensures
            runner.mode() == RunMode::Paused,
    {
        GameRunner { run_mode: RunMode::Paused }
    }

    /// The mode that the driver goes by.
    pub fn run_mode(&self) -> (mode: RunMode)
        ensures
            mode == self.mode(),
    {
        self.run_mode
    }

    /// Notes that a channel of the driver is closed: its snapshots have
    /// nowhere to go, or no request can reach it any more. That is how the
    /// other stages say that they are gone, and the driver stops as if it had
    /// been told to terminate.
    pub fn channel_closed(&mut self)
        ensures
            final(self).mode() == RunMode::Terminate,
    {
        self.run_mode = RunMode::Terminate;
    }

    /// One round of the pacing loop. `queued` holds the messages drained from
    /// the control channel, oldest first, and `elapsed_nanos` the time since
    /// the last tick began. The driver goes by the most recent message and
    /// says what to do.
    pub fn next_action(&mut self, queued: &Vec<RunMode>, elapsed_nanos: u64) -> (action: Action)
        requires
            old(self).mode().wf(),
            forall|i: int| 0 <= i < queued@.len() ==> (#[trigger] queued@[i]).wf(),
        ensures
            action == action_in(observe(old(self).mode(), queued@), elapsed_nanos),
            final(self).mode() == mode_after(observe(old(self).mode(), queued@)),
            final(self).mode().wf(),
    {
        let mode = match self.run_mode {
            RunMode::Terminate => RunMode::Terminate,
            _ => keep_latest(self.run_mode, queued),
        };
        match mode {
            RunMode::SingleTick => {
                self.run_mode = RunMode::Paused;
                Action::Tick { wait_nanos: 0 }
            },
            RunMode::Continuous(None) => {
                self.run_mode = mode;
                Action::Tick { wait_nanos: 0 }
            },
            RunMode::Continuous(Some(rate)) => {
                self.run_mode = mode;
                let interval = interval_nanos(rate);
                if interval > elapsed_nanos {
                    Action::Tick { wait_nanos: interval - elapsed_nanos }
                } else {
                    Action::Tick { wait_nanos: 0 }
                }
            },
            RunMode::Paused => {
                self.run_mode = mode;
                Action::Poll { wait_nanos: PAUSED_POLL_NANOS }
            },
            RunMode::Terminate => {
                self.run_mode = mode;
                Action::Exit
            },
        }
    }
}

/// The mode that a driver which started in `mode` is left in after the rounds
/// `rounds`. Each round is a call of `next_action`, given here by the messages
/// that it drained and the time since the last tick began.
pub open spec fn mode_after_rounds(mode: RunMode, rounds: Seq<(Seq<RunMode>, u64)>) -> RunMode
    decreases rounds.len(),
{
    if rounds.len() == 0 {
        mode
    } else {
        mode_after(observe(mode_after_rounds(mode, rounds.drop_last()), rounds.last().0))
    }
}

/// The action of the last of the rounds `rounds` of a driver that started in
/// `mode`.
pub open spec fn last_action(mode: RunMode, rounds: Seq<(Seq<RunMode>, u64)>) -> Action
    recommends
        rounds.len() > 0,
{
    action_in(
        observe(mode_after_rounds(mode, rounds.drop_last()), rounds.last().0),
        rounds.last().1,
    )
}

/// Number of ticks that a driver which started in `mode` performs in the
/// rounds `rounds`.
pub open spec fn ticks_in_rounds(mode: RunMode, rounds: Seq<(Seq<RunMode>, u64)>) -> nat
    decreases rounds.len(),
{
    if rounds.len() == 0 {
        0
    } else if last_action(mode, rounds) is Tick {
        ticks_in_rounds(mode, rounds.drop_last()) + 1
    } else {
        ticks_in_rounds(mode, rounds.drop_last())
    }
}

/// Whether no message of the rounds `rounds` from round `from` on asks for a
/// tick: none is `SingleTick` or `Continuous`.
pub open spec fn no_tick_requested(rounds: Seq<(Seq<RunMode>, u64)>, from: int) -> bool {
    forall|i: int, j: int|
        from <= i < rounds.len() && 0 <= j < rounds[i].0.len() ==> {
            let message = #[trigger] rounds[i].0[j];
            message is Paused || message is Terminate
        }
}

/// A tick under a rate cap never begins sooner after the tick before it than
/// the cap allows, and is not delayed once that time has passed.
pub proof fn lemma_capped_tick_keeps_interval(rate: u32, elapsed_nanos: u64)
    requires
        rate > 0,
    ensures
        action_in(RunMode::Continuous(Some(rate)), elapsed_nanos) == (Action::Tick {
            wait_nanos: remaining_wait(rate, elapsed_nanos) as u64,
        }),
        0 <= remaining_wait(rate, elapsed_nanos) <= u64::MAX,
        elapsed_nanos + remaining_wait(rate, elapsed_nanos) >= tick_interval(rate),
        elapsed_nanos >= tick_interval(rate) ==> remaining_wait(rate, elapsed_nanos) == 0,
        elapsed_nanos < tick_interval(rate) ==> elapsed_nanos + remaining_wait(rate, elapsed_nanos)
            == tick_interval(rate),
{
}

/// A paused driver performs no tick as long as no message asks for one, and
/// does not leave the pause but to terminate.
pub proof fn lemma_paused_performs_no_tick(rounds: Seq<(Seq<RunMode>, u64)>)
    requires
        no_tick_requested(rounds, 0),
    ensures
        ticks_in_rounds(RunMode::Paused, rounds) == 0,
        mode_after_rounds(RunMode::Paused, rounds) is Paused || mode_after_rounds(
            RunMode::Paused,
            rounds,
        ) is Terminate,
    decreases rounds.len(),
{
    if rounds.len() > 0 {
        lemma_paused_performs_no_tick(rounds.drop_last());
    }
}

/// A single-tick request is answered by exactly one tick: the driver ticks in
/// the round that observes the request, pauses, and performs no further tick
/// as long as no later message asks for one.
pub proof fn lemma_single_tick_ticks_once(mode: RunMode, rounds: Seq<(Seq<RunMode>, u64)>)
    requires
        !(mode is Terminate),
        rounds.len() > 0,
        rounds[0].0.len() > 0,
        rounds[0].0.last() is SingleTick,
        no_tick_requested(rounds, 1),
    ensures
        ticks_in_rounds(mode, rounds) == 1,
        mode_after_rounds(mode, rounds) is Paused || mode_after_rounds(mode, rounds) is Terminate,
        mode_after_rounds(mode, rounds.take(1)) is Paused,
    decreases rounds.len(),
{
    let first = rounds.take(1);
    assert(ticks_in_rounds(mode, first.drop_last()) == 0);
    assert(ticks_in_rounds(mode, first) == 1);
    if rounds.len() > 1 {
        lemma_single_tick_ticks_once(mode, rounds.drop_last());
        let queued = rounds.last().0;
        if queued.len() > 0 {
            let message = rounds[rounds.len() - 1].0[queued.len() - 1];
            assert(message is Paused || message is Terminate);
        }
    }
}

/// A driver that has observed `Terminate` performs no tick any more, whatever
/// is sent to it afterwards: it stays terminated and every round ends in
/// `Exit`.
pub proof fn lemma_terminate_is_final(rounds: Seq<(Seq<RunMode>, u64)>)
    ensures
        ticks_in_rounds(RunMode::Terminate, rounds) == 0,
        mode_after_rounds(RunMode::Terminate, rounds) is Terminate,
        rounds.len() > 0 ==> last_action(RunMode::Terminate, rounds) is Exit,
    decreases rounds.len(),
{
    if rounds.len() > 0 {
        lemma_terminate_is_final(rounds.drop_last());
    }
}

/// The round that drains `Terminate` as its most recent message ends in
/// `Exit` and leaves the driver terminated.
pub proof fn lemma_terminate_is_obeyed(mode: RunMode, queued: Seq<RunMode>, elapsed_nanos: u64)
    requires
        queued.len() > 0,
        queued.last() is Terminate,
    ensures
        action_in(observe(mode, queued), elapsed_nanos) is Exit,
        mode_after(observe(mode, queued)) is Terminate,
{
}

} // verus!
