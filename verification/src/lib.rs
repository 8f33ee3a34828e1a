//! Supervision of long-running external processes for a device control
//! panel: a table of units, one for each key at most; a supervisor for
//! each unit that decides when its process is spawned, restarted and
//! killed; and a bounded buffer that takes the output. Around that stand
//! the readers of what the device tools report.
//!
//! The library decides and the caller acts: nothing in it starts a
//! process, sleeps or reads a file.

pub mod appium;
pub mod buffer;
mod clock;
pub mod device;
pub mod files;
pub mod inspector;
pub mod logcat;
pub mod logs;
pub mod media;
pub mod monitor;
pub mod network;
pub mod ngrok;
pub mod number;
pub mod order;
pub mod packages;
pub mod patterns;
pub mod process;
pub mod registry;
pub mod runner;
pub mod shell;
pub mod stats;
pub mod supervisor;
pub mod system;
pub mod text;
