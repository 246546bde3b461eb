//! Small station-side state records shared with the UI layer.

use vstd::prelude::*;

verus! {

/// Which stabilizations the operator has switched on.
#[derive(Clone, Copy, PartialEq, Eq, Structural, Debug)]
pub struct Settings {
    pub pitch_stabilization: bool,
    pub roll_stabilization: bool,
    pub depth_stabilization: bool,
}

impl Default for Settings {
    /// All stabilizations start engaged.
    fn default() -> (s: Settings)
        ensures
            s.pitch_stabilization == true,
            s.roll_stabilization == true,
            s.depth_stabilization == true,
    {
        Settings {
            pitch_stabilization: true,
            roll_stabilization: true,
            depth_stabilization: true,
        }
    }
}

/// Live station state mirrored to the UI: stabilization toggles and, while
/// a recording runs, when it started.
#[derive(Clone, Copy, Debug)]
pub struct States {
    pub pitch_stabilization: bool,
    pub roll_stabilization: bool,
    pub depth_stabilization: bool,
    pub recording_start_time: Option<u64>,
}

impl Default for States {
    /// Stabilizations engaged, no recording running.
    fn default() -> (s: States)
        ensures
            s.pitch_stabilization == true,
            s.roll_stabilization == true,
            s.depth_stabilization == true,
            s.recording_start_time is None,
    {
        States {
            pitch_stabilization: true,
            roll_stabilization: true,
            depth_stabilization: true,
            recording_start_time: None,
        }
    }
}

/// Kind of a diagnostic line.
#[derive(Clone, Copy, PartialEq, Eq, Structural, Debug)]
pub enum LogType {
    Log,
    Error,
}

/// One diagnostic line for the developer console.
#[derive(Clone, Debug)]
pub struct Debug {
    pub log_type: LogType,
    pub message: String,
}

impl Debug {
    /// Build a diagnostic line.
    pub fn new(log_type: LogType, message: String) -> (d: Debug)
        ensures
            d.log_type == log_type,
            d.message@ == message@,
    {
        Debug { log_type, message }
    }
}

} // verus!
