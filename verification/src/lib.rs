//! Runtime core of a safety layer between a single-threaded host application
//! and user extension code: a session state machine with a sleeping and an
//! awake side, an action registry keyed by command id, a bounded task channel
//! into the real-time audio thread, a reference-counted activation guard and
//! an undo-block coordinator.

use vstd::prelude::*;

pub mod accel;
pub mod command;
pub mod guard;
pub mod reaper;
pub mod session;
pub mod task_channel;

verus! {

} // verus!
