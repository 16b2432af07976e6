//! The wrapper around the robot: what a tick consists of before the world is
//! read out into a snapshot, and which notices of the simulation are reported.

use vstd::prelude::*;

verus! {

/// What a tick consists of before the snapshot is taken.
#[derive(Clone, Copy, Debug, PartialEq, Eq, Structural)]
pub enum TickWork {
    /// The robot looks at its surroundings and does nothing else, so that
    /// the snapshot shows where it starts.
    ObserveSurroundings,
    /// The robot's own behaviour runs.
    ProcessTick,
}

/// The kinds of notice that the simulation gives to a robot.
#[derive(Clone, Copy, Debug, PartialEq, Eq, Structural)]
pub enum EventKind {
    Ready,
    Terminated,
    TimeChanged,
    DayChanged,
    EnergyRecharged,
    EnergyConsumed,
    Moved,
    TileContentUpdated,
    AddedToBackpack,
    RemovedFromBackpack,
}

/// Whether a notice of this kind comes with every tick or so, and is passed
/// on to the robot without a word.
pub open spec fn is_routine(kind: EventKind) -> bool {
    kind is Ready || kind is Moved || kind is DayChanged || kind is EnergyRecharged
        || kind is TimeChanged
}

/// Tells the first tick from the later ones.
pub struct RobotWrapper {
    is_first_tick: bool,
}

impl RobotWrapper {
    /// Whether no tick has begun yet.
    pub closed spec fn first_tick_ahead(&self) -> bool {
        self.is_first_tick
    }

    /// A wrapper whose first tick is still ahead.
    pub fn new() -> (wrapper: RobotWrapper)
        ensures
            wrapper.first_tick_ahead(),
    {
        RobotWrapper { is_first_tick: true }
    }

    /// Whether a notice of the kind `kind`, which goes on to the robot in any
    /// case, is reported as well: every notice is that is not routine.
    pub fn handle_event(&self, kind: EventKind) -> (reported: bool)
        ensures
            reported == !is_routine(kind),
    {
        match kind {
            EventKind::Ready
            | EventKind::Moved
            | EventKind::DayChanged
            | EventKind::EnergyRecharged
            | EventKind::TimeChanged => false,
            _ => true,
        }
    }

    /// Begins a tick and says what it consists of: the first tick observes
    /// the surroundings, every later one runs the robot.
    pub fn begin_tick(&mut self) -> (work: TickWork)
        ensures
            work == if old(self).first_tick_ahead() {
                TickWork::ObserveSurroundings
            } else {
                TickWork::ProcessTick
            },
            !final(self).first_tick_ahead(),
    {
        if self.is_first_tick {
            self.is_first_tick = false;
            TickWork::ObserveSurroundings
        } else {
            TickWork::ProcessTick
        }
    }
}

} // verus!
