//! Health probes and the rule for waiting until a component is healthy.

use vstd::prelude::*;

verus! {

/// A caller-defined reason for checking component health.
///
/// The variants are modeled after common Kubernetes probe categories as a
/// convenience; each component decides which probes it recognizes and what
/// healthy means for that probe.
#[derive(Clone, Copy, Debug, PartialEq, Eq, Structural)]
pub enum HealthProbe {
    /// A startup-oriented probe.
    Startup,
    /// A readiness-oriented probe.
    Readiness,
    /// A liveness-oriented probe.
    Liveness,
    /// A probe that does not fit the other categories.
    Other,
}

/// An error returned while waiting for a health check to become healthy.
#[derive(Clone, Copy, Debug, PartialEq, Eq, Structural)]
pub enum WaitUntilHealthyError {
    /// The wait was cancelled before the health check became healthy.
    Cancelled,
}

impl WaitUntilHealthyError {
    /// The message of this error.
    pub fn message(&self) -> (r: String)
        ensures
            r@ == "health wait cancelled"@,
    {
        match self {
            WaitUntilHealthyError::Cancelled => String::from_str("health wait cancelled"),
        }
    }
}

/// What a wait for health does next.
#[derive(Clone, Copy, Debug)]
pub enum WaitCommand {
    /// Check the component's health for the probe.
    Check(HealthProbe),
    /// Sleep for the retry interval, unless cancellation comes first.
    Sleep,
    /// End the wait with this result.
    Return(Result<(), WaitUntilHealthyError>),
}

/// What happened since the last command of a wait.
#[derive(Clone, Copy, Debug, PartialEq, Eq, Structural)]
pub enum WaitEvent {
    /// A health check finished; an error counts as not yet healthy.
    Checked { healthy: bool },
    /// Cancellation was requested while sleeping.
    Cancelled,
    /// The retry interval elapsed.
    Slept,
}

/// The first command of a wait: check [`HealthProbe::Other`].
pub fn wait_start() -> (c: WaitCommand)
    ensures
        c == WaitCommand::Check(HealthProbe::Other),
{
    WaitCommand::Check(HealthProbe::Other)
}

/// The next command of a wait after `event`: a healthy check ends the wait
/// successfully, an unhealthy one sleeps, cancellation ends it with
/// `Cancelled`, and an elapsed interval checks [`HealthProbe::Other`] again.
pub fn wait_step(event: WaitEvent) -> (c: WaitCommand)
    ensures
        c == WaitCommand::Return(Ok(())) <==> event == (WaitEvent::Checked { healthy: true }),
        c == WaitCommand::Return(Err(WaitUntilHealthyError::Cancelled)) <==> event
            == WaitEvent::Cancelled,
        c == WaitCommand::Sleep <==> event == (WaitEvent::Checked { healthy: false }),
        c == WaitCommand::Check(HealthProbe::Other) <==> event == WaitEvent::Slept,
{
    match event {
        WaitEvent::Checked { healthy } => {
            if healthy {
                WaitCommand::Return(Ok(()))
            } else {
                WaitCommand::Sleep
            }
        },
        WaitEvent::Cancelled => WaitCommand::Return(Err(WaitUntilHealthyError::Cancelled)),
        WaitEvent::Slept => WaitCommand::Check(HealthProbe::Other),
    }
}

} // verus!
