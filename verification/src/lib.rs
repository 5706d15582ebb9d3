//! Core logic of a daemon that keeps a single paired motion-sensing remote
//! connected only while it is in use, and disconnects it after a period of
//! inactivity.
//!
//! Everything here is pure: the connection/activity state machine, the
//! parsing of the external control tools' text output, and the idle policy.
//! Process invocation, threading and event-bus plumbing live outside the
//! library and feed their results in as plain values.

pub mod activity;
pub mod manager;
pub mod text;
pub mod watchdog;
pub mod wii_remote;
