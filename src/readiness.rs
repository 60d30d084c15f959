//! The bounded wait for the development server to accept connections.
use vstd::prelude::*;

verus! {

/// How long to wait, in seconds, for the server to accept connections.
pub const READY_TIMEOUT_SECS: u64 = 30;

/// Pause between two connection probes, in milliseconds.
pub const PROBE_INTERVAL_MILLIS: u64 = 200;

/// The next move of the readiness wait.
#[derive(Clone, Copy, Debug, PartialEq, Eq, Structural)]
pub enum WaitStep {
    /// Try to connect once more.
    Probe,
    /// The bound is spent: report it and end the process.
    GiveUp,
}

/// Decides, `elapsed_secs` seconds into a wait bounded by `timeout_secs`,
/// whether to probe again or give up.
pub fn wait_step(elapsed_secs: u64, timeout_secs: u64) -> (r: WaitStep)
    ensures
        r == (if elapsed_secs >= timeout_secs {
            WaitStep::GiveUp
        } else {
            WaitStep::Probe
        }),
{
    if elapsed_secs >= timeout_secs {
        WaitStep::GiveUp
    } else {
        WaitStep::Probe
    }
}

} // verus!
