//! Lifecycle states of guests and of the scenario as a whole.
use vstd::prelude::*;

verus! {

/// Where a guest is in its boot: Starting → Booting → CloudInit → Ready, or
/// Error on a fatal failure.
#[derive(Debug, Clone, Copy, PartialEq, Eq, Structural)]
pub enum VmState {
    Starting,
    Booting,
    CloudInit,
    Ready,
    Error,
}

#[derive(Debug, Clone, Copy, PartialEq, Eq, Structural)]
pub enum ScenarioState {
    Initializing,
    Running,
    Completed,
    Error,
}

impl VmState {
    /// Progress as (step, of steps); an error counts as step 0.
    pub fn step(&self) -> (r: (u32, u32))
        ensures
            r.1 == 4,
            r.0 == match *self {
                VmState::Starting => 1u32,
                VmState::Booting => 2,
                VmState::CloudInit => 3,
                VmState::Ready => 4,
                VmState::Error => 0,
            },
    {
        match self {
            VmState::Starting => (1, 4),
            VmState::Booting => (2, 4),
            VmState::CloudInit => (3, 4),
            VmState::Ready => (4, 4),
            VmState::Error => (0, 4),
        }
    }

    /// A short human-readable name of the state.
    pub fn label(&self) -> (r: &'static str)
        ensures
            r@ == match *self {
                VmState::Starting => "Starting"@,
                VmState::Booting => "Booting"@,
                VmState::CloudInit => "Cloud-init"@,
                VmState::Ready => "Ready"@,
                VmState::Error => "Error"@,
            },
    {
        match self {
            VmState::Starting => "Starting",
            VmState::Booting => "Booting",
            VmState::CloudInit => "Cloud-init",
            VmState::Ready => "Ready",
            VmState::Error => "Error",
        }
    }
}

} // verus!
