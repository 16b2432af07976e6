//! The core of a visualizer for a robot that explores a grid world tick by
//! tick: what each stage of its pipeline decides, verified with Verus.
//!
//! Three stages run side by side and talk over channels only:
//!
//! - the driver ticks the simulation at the pace of the current
//!   [`run_mode::RunMode`] and takes a snapshot of what the robot knows after
//!   every tick ([`game_runner`], [`robot_wrapper`]);
//! - the diff stage compares each snapshot with the one before it and marks
//!   the cells that changed, with their neighbours ([`worker_thread`]);
//! - the render side shows the most recent snapshot, rebuilds the marked
//!   cells and sends the user's requests for a run mode back to the driver
//!   ([`gui`], [`keyboard_event_handler`], [`frame_delta_timer`]).
//!
//! The snapshot is a [`partial_world::PartialWorld`] of [`tile::Tile`]s, the
//! marked cells a [`dirty_set::DirtySet`].
//!
//! Nothing here reads a clock, sleeps, draws or touches a channel. Every
//! stage is a value that is told what happened and says what to do next, so
//! that the contracts cover each decision for every input. Times are whole
//! nanoseconds and rates whole thousandths of a tick per second.

pub mod dirty_set;
pub mod frame_delta_timer;
pub mod game_runner;
pub mod gui;
pub mod keyboard_event_handler;
pub mod partial_world;
pub mod robot_wrapper;
pub mod run_mode;
pub mod tile;
pub mod worker_thread;
