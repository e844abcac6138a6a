//! Decisions of the cooperative tick scheduler.
//!
//! The outer loop itself is plain hardware plumbing: once per iteration it
//! computes the elapsed time, drives one VM tick, runs each transport's
//! flush routine, and yields.  What is decided — rather than performed —
//! lives here: the per-instruction inspection hook that turns a designated
//! stop instruction into a hardware reboot instead of letting the VM halt.

use vstd::prelude::*;

verus! {

/// What the per-instruction inspection hook decides.
///
/// `Reboot` is a control-flow override: the caller must reset the device
/// into its firmware-update mode and never return to the VM.
#[derive(Clone, Copy, PartialEq, Eq, Structural, Debug)]
pub enum HookDecision {
    Pass,
    Reboot,
}

/// Inspects one instruction before it runs: a stop instruction reboots
/// the device; every other instruction passes unchanged.
pub fn inspect_instruction(is_stop: bool) -> (d: HookDecision)
    ensures
        d == (if is_stop {
            HookDecision::Reboot
        } else {
            HookDecision::Pass
        }),
{
    if is_stop {
        HookDecision::Reboot
    } else {
        HookDecision::Pass
    }
}

} // verus!
