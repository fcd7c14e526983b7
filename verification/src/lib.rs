//! Device identity correlation and virtual-device lifecycle for a gamepad
//! bridge: physical input sources are correlated into logical devices, each
//! logical device is mapped to a virtual device on a remote device server, and
//! live input is framed for streaming to it.
//!
//! Every decision is a verified function from state and event to next state
//! and requested actions; the caller performs the actions (device I/O,
//! network requests, timers) and feeds the results back in.
//!
//! - [`handler`] is the event handler, [`model`] the state machine that it
//!   follows, [`laws`] what holds of every run of that machine.
//! - [`registry`] keeps the logical devices, [`device`] defines them and the
//!   input report, [`vid_pid`] derives the ids by which copies are told.
//! - [`bridge`] keeps the bus and the outbound queues and steps through the
//!   creation of virtual devices.
//! - [`readiness`] supervises the startup of the device server, [`version`]
//!   reads and compares its version.
//! - [`binding_enforcer`], [`steam`], [`config`], [`logging`] and [`events`]
//!   hold what the bridge shares with the program around it.

pub mod seqs;
pub mod text;
pub mod version;
pub mod device;
pub mod vid_pid;
pub mod registry;
pub mod binding_enforcer;
pub mod bridge;
pub mod actions;
pub mod events;
pub mod model;
pub mod handler;
pub mod laws;
pub mod readiness;
pub mod steam;
pub mod config;
pub mod logging;
