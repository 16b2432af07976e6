//! The render side's bookkeeping: the snapshot on display, the run mode as
//! the user last asked for it, and what the camera is to do about the agent.

use crate::dirty_set::{cells_of, Coord};
use crate::keyboard_event_handler::ProcessedKeyboardInput;
use crate::partial_world::{merge_latest, merged_dirty, PartialWorld, PipelineError};
use crate::run_mode::RunMode;
use vstd::prelude::*;

verus! {

/// The rate cap that the controls start with, in thousandths of a tick per
/// second.
pub const DEFAULT_TICKS_PER_SECOND_CAP: u32 = 5000;

/// The mode that a toggle of continuous running leads to: out of continuous
/// running into a pause, and from anything else into continuous running,
/// capped at `cap` unless `uncapped`.
pub open spec fn toggled(mode: RunMode, uncapped: bool, cap: u32) -> RunMode {
    if mode is Continuous {
        RunMode::Paused
    } else {
        continuous(uncapped, cap)
    }
}

/// Continuous running, capped at `cap` unless `uncapped`.
pub open spec fn continuous(uncapped: bool, cap: u32) -> RunMode {
    if uncapped {
        RunMode::Continuous(None)
    } else {
        RunMode::Continuous(Some(cap))
    }
}

/// Where the camera is to go: the cell of the agent and the elevation there.
#[derive(Clone, Copy, Debug, PartialEq, Eq, Structural)]
pub struct CameraTarget {
    pub position: Coord,
    pub elevation: usize,
}

/// The state of the render side between frames.
pub struct GUI {
    /// The snapshot on display. Its dirty cells are those not rebuilt yet.
    pub world_copy: PartialWorld,
    /// The run mode that was requested last.
    pub run_mode: RunMode,
    /// The rate cap that the controls show, in thousandths of a tick per
    /// second.
    pub last_ticks_per_second_cap: u32,
    /// Whether the controls ask for no cap.
    pub last_was_uncapped: bool,
    /// Whether the camera follows the agent.
    pub follow_robot: bool,
    /// Whether the camera is to go to the agent once.
    pub find_robot: bool,
    pub enable_skybox: bool,
}

impl GUI {
    /// The rate cap is positive, and so is the cap of the run mode.
    pub open spec fn wf(&self) -> bool {
        self.last_ticks_per_second_cap > 0 && self.run_mode.wf()
    }

    /// Whether `other` differs from this state in the run mode at most.
    pub open spec fn same_but_mode(&self, other: &GUI) -> bool {
        &&& self.world_copy == other.world_copy
        &&& self.last_ticks_per_second_cap == other.last_ticks_per_second_cap
        &&& self.last_was_uncapped == other.last_was_uncapped
        &&& self.follow_robot == other.follow_robot
        &&& self.find_robot == other.find_robot
        &&& self.enable_skybox == other.enable_skybox
    }

    /// Whether `other` differs from this state in the snapshot at most.
    pub open spec fn same_controls(&self, other: &GUI) -> bool {
        &&& self.run_mode == other.run_mode
        &&& self.last_ticks_per_second_cap == other.last_ticks_per_second_cap
        &&& self.last_was_uncapped == other.last_was_uncapped
        &&& self.follow_robot == other.follow_robot
        &&& self.find_robot == other.find_robot
        &&& self.enable_skybox == other.enable_skybox
    }

    /// The state that the render side starts in, with the first snapshot on
    /// display: paused, capped at the default rate, the camera free.
    pub fn new(world_copy: PartialWorld) -> (gui: GUI)
        ensures
            gui.world_copy == world_copy,
            gui.run_mode == RunMode::Paused,
            gui.last_ticks_per_second_cap == DEFAULT_TICKS_PER_SECOND_CAP,
            !gui.last_was_uncapped,
            !gui.follow_robot,
            !gui.find_robot,
            gui.enable_skybox,
            gui.wf(),
    {
        GUI {
            world_copy,
            run_mode: RunMode::Paused,
            last_ticks_per_second_cap: DEFAULT_TICKS_PER_SECOND_CAP,
            last_was_uncapped: false,
            follow_robot: false,
            find_robot: false,
            enable_skybox: true,
        }
    }

    /// Starts or stops continuous running. Returns the mode to request.
    pub fn toggle_continuous_mode(&mut self) -> (request: RunMode)
        ensures
            request == toggled(
                old(self).run_mode,
                old(self).last_was_uncapped,
                old(self).last_ticks_per_second_cap,
            ),
            final(self).run_mode == request,
            final(self).same_but_mode(old(self)),
            old(self).wf() ==> final(self).wf(),
    {
        let request = match self.run_mode {
            RunMode::Continuous(_) => RunMode::Paused,
            _ => if self.last_was_uncapped {
                RunMode::Continuous(None)
            } else {
                RunMode::Continuous(Some(self.last_ticks_per_second_cap))
            },
        };
        self.run_mode = request;
        request
    }

    /// Asks for a single tick. Returns the mode to request.
    pub fn request_single_tick(&mut self) -> (request: RunMode)
        ensures
            request == RunMode::SingleTick,
            final(self).run_mode == request,
            final(self).same_but_mode(old(self)),
            old(self).wf() ==> final(self).wf(),
    {
        self.run_mode = RunMode::SingleTick;
        RunMode::SingleTick
    }

    /// Notes that the window is to close. Returns the mode to request.
    pub fn close_requested(&mut self) -> (request: RunMode)
        ensures
            request == RunMode::Terminate,
            final(self).run_mode == request,
            final(self).same_but_mode(old(self)),
            old(self).wf() ==> final(self).wf(),
    {
        self.run_mode = RunMode::Terminate;
        RunMode::Terminate
    }

    /// Notes that the user changed the rate controls, whose values
    /// `last_was_uncapped` and `last_ticks_per_second_cap` hold. The new cap
    /// counts at once if the simulation runs continuously: then this returns
    /// the mode to request.
    pub fn rate_changed(&mut self) -> (request: Option<RunMode>)
        ensures
            request == if old(self).run_mode is Continuous {
                Some(continuous(old(self).last_was_uncapped, old(self).last_ticks_per_second_cap))
            } else {
                None
            },
            final(self).run_mode == match request {
                Some(mode) => mode,
                None => old(self).run_mode,
            },
            final(self).same_but_mode(old(self)),
            old(self).wf() ==> final(self).wf(),
    {
        match self.run_mode {
            RunMode::Continuous(_) => {
                let request = if self.last_was_uncapped {
                    RunMode::Continuous(None)
                } else {
                    RunMode::Continuous(Some(self.last_ticks_per_second_cap))
                };
                self.run_mode = request;
                Some(request)
            },
            _ => None,
        }
    }

    /// Takes in what the keyboard asks for. A toggle of continuous running
    /// goes before a single tick; this returns the mode to request, if any.
    /// The camera follows the agent or stops following it, and is set to go to
    /// the agent, as asked.
    pub fn keyboard_input(&mut self, input: &ProcessedKeyboardInput) -> (request: Option<RunMode>)
        ensures
            request == if input.toggle_continuous_mode {
                Some(
                    toggled(
                        old(self).run_mode,
                        old(self).last_was_uncapped,
                        old(self).last_ticks_per_second_cap,
                    ),
                )
            } else if input.single_tick {
                Some(RunMode::SingleTick)
            } else {
                None
            },
            final(self).run_mode == match request {
                Some(mode) => mode,
                None => old(self).run_mode,
            },
            final(self).follow_robot == (old(self).follow_robot != input.toggle_follow_robot),
            final(self).find_robot == (old(self).find_robot || input.find_robot),
            final(self).world_copy == old(self).world_copy,
            final(self).last_ticks_per_second_cap == old(self).last_ticks_per_second_cap,
            final(self).last_was_uncapped == old(self).last_was_uncapped,
            final(self).enable_skybox == old(self).enable_skybox,
            old(self).wf() ==> final(self).wf(),
    {
        let request = if input.toggle_continuous_mode {
            Some(self.toggle_continuous_mode())
        } else if input.single_tick {
            Some(self.request_single_tick())
        } else {
            None
        };
        if input.toggle_follow_robot {
            self.follow_robot = !self.follow_robot;
        }
        self.find_robot = self.find_robot || input.find_robot;
        request
    }

    /// Takes in the snapshots drained from the channel, oldest first. The
    /// most recent one goes on display. Its dirty cells are those of all the
    /// drained snapshots and those that were still waiting to be rebuilt.
    /// Without a new snapshot nothing changes.
    pub fn receive(&mut self, queued: Vec<PartialWorld>)
        ensures
            final(self).same_controls(old(self)),
            queued@.len() == 0 ==> final(self).world_copy == old(self).world_copy,
            queued@.len() > 0 ==> final(self).world_copy.same_state(&queued@.last())
                && final(self).world_copy.tiles_to_refresh@ == old(
                self,
            ).world_copy.tiles_to_refresh@.union(merged_dirty(queued@)),
    {
        match merge_latest(queued) {
            None => {},
            Some(newest) => {
                let mut newest = newest;
                newest.tiles_to_refresh.extend(&self.world_copy.tiles_to_refresh);
                self.world_copy = newest;
            },
        }
    }

    /// Hands out the cells to rebuild, each once, and marks none as dirty any
    /// more.
    pub fn take_dirty(&mut self) -> (cells: Vec<Coord>)
        ensures
            cells@.no_duplicates(),
            cells_of(cells@) == old(self).world_copy.tiles_to_refresh@,
            final(self).world_copy.tiles_to_refresh@ == Set::<(int, int)>::empty(),
            final(self).world_copy.same_state(&old(self).world_copy),
            final(self).same_controls(old(self)),
    {
        let cells = self.world_copy.tiles_to_refresh.to_vec();
        self.world_copy.tiles_to_refresh.clear();
        cells
    }

    /// Where the camera is to go in this frame: to the agent, if it follows
    /// the agent or was set to go there once, and nowhere else. Going there
    /// once is then done. It is an error if the agent stands outside the grid
    /// or on a cell that is not discovered; nothing changes then.
    pub fn camera_target(&mut self) -> (result: Result<Option<CameraTarget>, PipelineError>)
        ensures
            result == if old(self).find_robot || old(self).follow_robot {
                match old(self).world_copy.robot_cell() {
                    Ok(tile) => Ok(
                        Some(
                            CameraTarget {
                                position: old(self).world_copy.robot_position,
                                elevation: tile.elevation,
                            },
                        ),
                    ),
                    Err(error) => Err(error),
                }
            } else {
                Ok(None)
            },
            final(self).find_robot == (old(self).find_robot && result is Err),
            final(self).world_copy == old(self).world_copy,
            final(self).run_mode == old(self).run_mode,
            final(self).last_ticks_per_second_cap == old(self).last_ticks_per_second_cap,
            final(self).last_was_uncapped == old(self).last_was_uncapped,
            final(self).follow_robot == old(self).follow_robot,
            final(self).enable_skybox == old(self).enable_skybox,
    {
        if !(self.find_robot || self.follow_robot) {
            return Ok(None);
        }
        match self.world_copy.robot_tile() {
            Err(error) => Err(error),
            Ok(tile) => {
                self.find_robot = false;
                Ok(
                    Some(
                        CameraTarget {
                            position: self.world_copy.robot_position,
                            elevation: tile.elevation,
                        },
                    ),
                )
            },
        }
    }
}

} // verus!
