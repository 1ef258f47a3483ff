//! Power control of a mocked system.

use vstd::prelude::*;

verus! {

/// What can be asked of a system's power: the reset types of the
/// management protocol.
#[derive(Debug, Clone, Copy, PartialEq, Eq, Structural)]
pub enum SystemPowerControl {
    On,
    GracefulShutdown,
    ForceOff,
    GracefulRestart,
    ForceRestart,
    ACPowercycle,
    PowerCycle,
}

} // verus!
