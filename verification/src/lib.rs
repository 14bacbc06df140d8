//! Installation orchestration for running a Windows-only game on a
//! non-Windows host: a durable record of which setup stages have
//! completed, a pure derivation of the next stage to run, commit
//! functions that advance the record one stage at a time, and a
//! progress-reporting protocol for long-running installs.

pub mod codec;
pub mod components;
pub mod game_manager;
pub mod game_state;
pub mod progress;
