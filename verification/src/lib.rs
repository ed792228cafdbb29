//! The supervisory control loop of a background media-playback daemon, as a
//! state machine that performs no input or output of its own.
//!
//! The loop ties together session (re)establishment, the lifecycle of the
//! remote-control session, the hook program that runs once per playback
//! event, and graceful shutdown. Everything outside the loop (the credential
//! source, the connect operation, the playback pipeline, child processes, the
//! interrupt source) is reached through a driver: the loop names the
//! [`protocol::Request`] it is waiting on, the driver answers with a
//! [`protocol::Event`], and [`main_loop::MainLoopState::poll`] returns the
//! [`protocol::Effect`]s to carry out and says whether to go on, to suspend
//! or to stop.
//!
//! One iteration of the loop asks, in this order: the credential source; the
//! hook process for its exit, or else the playback events for the next one;
//! the control server; the connect operation; the interrupt source; the
//! remote-control task. The first of the last three that has something
//! decides how the iteration ends. [`model`] defines the loop as a
//! transition system, [`trace`] its runs, and [`guarantees`] proves what
//! holds of all of them.
pub mod connection;
pub mod guarantees;
pub mod main_loop;
pub mod model;
pub mod protocol;
pub mod trace;
