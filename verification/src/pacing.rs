//! The pacing gate's decisions.
//!
//! Between two transitions the run waits until global CPU utilization falls
//! below a fixed threshold, for at most a fixed time, sampling once a second.
//! Utilization is carried as tenths of a percentage point, so a whole run of
//! samples fits in plain integers. The sampling loop itself runs outside the
//! library; every decision it takes comes from here.

use vstd::prelude::*;

verus! {

/// CPU utilization threshold, in tenths of a percentage point: the
/// pacing gate opens on the first sample strictly below it.
pub const CPU_THRESHOLD_TENTHS: u32 = 600;

/// Least change of utilization, in tenths of a percentage point, that is
/// worth reporting.
pub const CPU_REPORT_DELTA_TENTHS: u32 = 50;

/// Longest time, in seconds, the pacing gate holds before giving up.
pub const CPU_WAIT_TIMEOUT_SECS: u64 = 300;

/// What the pacing gate does at one sample tick.
#[derive(Debug, PartialEq, Eq, Structural)]
pub enum PacingStep {
    /// Cancellation was observed: leave the pacing gate at once.
    Cancelled,
    /// The sample is below the threshold: the system is quiet, leave the
    /// pacing gate at once.
    Quiet,
    /// The timeout has elapsed with the load still high: leave the
    /// pacing gate.
    TimedOut,
    /// Load is still high and there is time left: sleep one interval and
    /// sample again.
    Keep,
}

/// The pacing gate's decision at one tick: cancellation first, then the threshold,
/// then the timeout; only `Keep` sleeps.
pub open spec fn pacing_decision(elapsed_secs: u64, cancelled: bool, cpu_tenths: u32) -> PacingStep {
    if cancelled {
        PacingStep::Cancelled
    } else if cpu_tenths < CPU_THRESHOLD_TENTHS {
        PacingStep::Quiet
    } else if elapsed_secs >= CPU_WAIT_TIMEOUT_SECS {
        PacingStep::TimedOut
    } else {
        PacingStep::Keep
    }
}

/// Decides what one sample tick of the pacing gate does.
pub fn pacing_step(elapsed_secs: u64, cancelled: bool, cpu_tenths: u32) -> (r: PacingStep)
    ensures
        r == pacing_decision(elapsed_secs, cancelled, cpu_tenths),
{
    if cancelled {
        PacingStep::Cancelled
    } else if cpu_tenths < CPU_THRESHOLD_TENTHS {
        PacingStep::Quiet
    } else if elapsed_secs >= CPU_WAIT_TIMEOUT_SECS {
        PacingStep::TimedOut
    } else {
        PacingStep::Keep
    }
}

/// If the very first utilization sample is already below the threshold and
/// cancellation has not been observed, the pacing gate opens at that first tick:
/// no decision ever asks for a sleep.
pub proof fn lemma_pacing_immediate_when_quiet(cpu_tenths: u32)
    requires
        cpu_tenths < CPU_THRESHOLD_TENTHS,
    ensures
        pacing_decision(0, false, cpu_tenths) == PacingStep::Quiet,
{
}

/// Whether a fresh sample differs enough from the last reported one to be
/// worth a log line; the first sample is always reported. The policy has no
/// effect on the pacing gate's decisions.
pub open spec fn report_worthy(last_reported: Option<u32>, sample: u32) -> bool {
    match last_reported {
        None => true,
        Some(l) => sample >= l + CPU_REPORT_DELTA_TENTHS || l >= sample + CPU_REPORT_DELTA_TENTHS,
    }
}

/// Decides whether a sample is reported: the first always is, a later one
/// only when it moved at least the reporting delta away from the last
/// reported value.
pub fn should_report(last_reported: Option<u32>, sample: u32) -> (r: bool)
    ensures
        r == report_worthy(last_reported, sample),
{
    match last_reported {
        None => true,
        Some(l) => {
            if sample >= l {
                sample - l >= CPU_REPORT_DELTA_TENTHS
            } else {
                l - sample >= CPU_REPORT_DELTA_TENTHS
            }
        },
    }
}

} // verus!
