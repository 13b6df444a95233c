//! The rules of the long-running Postgres pool component.
//!
//! The component connects a pool, keeps it open until cancellation, and
//! reports healthy only after a live `SELECT 1` probe succeeds. Its health is
//! shared with health checks as a one-byte code; the steps of a run are a
//! state machine whose commands the runtime carries out and whose events it
//! reports back.

use std::time::Duration;
use vstd::prelude::*;

use super::config::{duration_from_secs, duration_of_secs};
use crate::component::HealthProbe;
use crate::text::{decimal, decimal_string};

verus! {

/// Seconds between two health probes of a running component.
pub const HEALTH_PROBE_INTERVAL_SECS: u64 = 10;

/// The time between two health probes of a running component: ten seconds.
pub fn health_probe_interval() -> (d: Duration)
    ensures
        d == duration_of_secs(HEALTH_PROBE_INTERVAL_SECS),
{
    duration_from_secs(HEALTH_PROBE_INTERVAL_SECS)
}

/// The health of the component as stored in its shared state.
#[derive(Clone, Copy, Debug, PartialEq, Eq, Structural)]
pub enum HealthState {
    Uninitialized,
    Starting,
    Healthy,
    Unhealthy,
    Stopped,
}

/// A stored health code that names no [`HealthState`].
#[derive(Clone, Copy, Debug, PartialEq, Eq, Structural)]
pub struct InvalidHealthState {
    pub value: u8,
}

impl HealthState {
    /// The code that stores this state: 0 to 4 in declaration order.
    pub open spec fn code(self) -> u8 {
        match self {
            HealthState::Uninitialized => 0,
            HealthState::Starting => 1,
            HealthState::Healthy => 2,
            HealthState::Unhealthy => 3,
            HealthState::Stopped => 4,
        }
    }

    /// The state a stored code names, or the code as an error.
    pub open spec fn from_code(value: u8) -> Result<HealthState, InvalidHealthState> {
        if value == 0 {
            Ok(HealthState::Uninitialized)
        } else if value == 1 {
            Ok(HealthState::Starting)
        } else if value == 2 {
            Ok(HealthState::Healthy)
        } else if value == 3 {
            Ok(HealthState::Unhealthy)
        } else if value == 4 {
            Ok(HealthState::Stopped)
        } else {
            Err(InvalidHealthState { value })
        }
    }
}

impl From<HealthState> for u8 {
    fn from(state: HealthState) -> (r: u8) {
        match state {
            HealthState::Uninitialized => 0,
            HealthState::Starting => 1,
            HealthState::Healthy => 2,
            HealthState::Unhealthy => 3,
            HealthState::Stopped => 4,
        }
    }
}

impl vstd::std_specs::convert::FromSpecImpl<HealthState> for u8 {
    open spec fn obeys_from_spec() -> bool {
        true
    }

    open spec fn from_spec(v: HealthState) -> u8 {
        v.code()
    }
}

impl TryFrom<u8> for HealthState {
    type Error = InvalidHealthState;

    fn try_from(value: u8) -> (r: Result<HealthState, InvalidHealthState>) {
        match value {
            0 => Ok(HealthState::Uninitialized),
            1 => Ok(HealthState::Starting),
            2 => Ok(HealthState::Healthy),
            3 => Ok(HealthState::Unhealthy),
            4 => Ok(HealthState::Stopped),
            value => Err(InvalidHealthState { value }),
        }
    }
}

impl vstd::std_specs::convert::TryFromSpecImpl<u8> for HealthState {
    open spec fn obeys_try_from_spec() -> bool {
        true
    }

    open spec fn try_from_spec(v: u8) -> Result<HealthState, InvalidHealthState> {
        HealthState::from_code(v)
    }
}

impl InvalidHealthState {
    /// The message of this error: `invalid Postgres health state value {value}`.
    pub fn message(&self) -> (r: String)
        ensures
            r@ == "invalid Postgres health state value "@ + decimal(self.value as int),
    {
        let mut text = String::from_str("invalid Postgres health state value ");
        text.append(decimal_string(self.value as i64).as_str());
        text
    }
}

/// Error returned when accessing the Postgres pool before it is connected.
#[derive(Clone, Copy, Debug, PartialEq, Eq, Structural)]
pub enum PostgresAccessError {
    NotConnected,
}

impl PostgresAccessError {
    /// The message of this error.
    pub fn message(&self) -> (r: String)
        ensures
            r@ == "Postgres pool is not connected"@,
    {
        String::from_str("Postgres pool is not connected")
    }
}

/// Error returned by the component's health checks.
#[derive(Clone, Copy, Debug, PartialEq, Eq, Structural)]
pub enum PostgresHealthError {
    Unhealthy,
}

impl PostgresHealthError {
    /// The message of this error.
    pub fn message(&self) -> (r: String)
        ensures
            r@ == "Postgres pool is unhealthy"@,
    {
        String::from_str("Postgres pool is unhealthy")
    }
}

/// The answer to a health check for `probe` when the stored health code is
/// `code`: healthy exactly when the code stores [`HealthState::Healthy`],
/// whatever the probe.
pub fn check_health(code: u8, probe: HealthProbe) -> (r: Result<(), PostgresHealthError>)
    ensures
        r is Ok <==> HealthState::from_code(code) == Ok::<HealthState, InvalidHealthState>(
            HealthState::Healthy,
        ),
        r is Err ==> r == Err::<(), PostgresHealthError>(PostgresHealthError::Unhealthy),
{
    match HealthState::try_from(code) {
        Ok(HealthState::Healthy) => Ok(()),
        _ => Err(PostgresHealthError::Unhealthy),
    }
}

/// The stored health code after a run asks to start on a component whose
/// stored code is `code`: `Starting` when the component was never started,
/// `None` (refused as already initialized) otherwise.
pub fn begin_run(code: u8) -> (r: Option<u8>)
    ensures
        r is Some <==> code == HealthState::Uninitialized.code(),
        r matches Some(next) ==> next == HealthState::Starting.code(),
{
    if code == u8::from(HealthState::Uninitialized) {
        Some(u8::from(HealthState::Starting))
    } else {
        None
    }
}

/// Why a run ended without success.
#[derive(Clone, Copy, Debug, PartialEq, Eq, Structural)]
pub enum RunFailure {
    /// The component was already started, or its pool was already stored.
    AlreadyInitialized,
    /// Connecting the pool failed.
    ConnectFailed,
    /// The pool was needed but not stored.
    PoolNotConnected,
}

/// Where a run stands.
#[derive(Clone, Copy, Debug)]
pub enum RunPhase {
    /// Checking for early cancellation and for an already stored pool.
    Inspecting,
    /// Connecting the pool.
    Connecting,
    /// Probing the pool with `SELECT 1`.
    Probing,
    /// Waiting for the next probe.
    Pausing,
    /// Closing the pool after cancellation.
    Closing,
    /// Done, with the run's result.
    Finished(Result<(), RunFailure>),
}

/// What the runtime does next for a run.
#[derive(Clone, Copy, Debug)]
pub enum RunCommand {
    /// Report whether cancellation was requested and whether a pool is stored.
    InspectStart,
    /// Connect the pool, racing cancellation, and store it.
    Connect,
    /// Probe the stored pool with `SELECT 1`, racing cancellation.
    Probe,
    /// Sleep for the probe interval, racing cancellation.
    Pause,
    /// Close the stored pool.
    ClosePool,
    /// Return this result from the run.
    Finish(Result<(), RunFailure>),
}

/// What happened while the runtime carried out a command.
#[derive(Clone, Copy, Debug, PartialEq, Eq, Structural)]
pub enum RunEvent {
    /// The start was inspected.
    StartInspected { cancelled: bool, pool_stored: bool },
    /// Cancellation came before the connection.
    ConnectCancelled,
    /// The connection failed.
    ConnectFailed,
    /// A pool was connected; `stored` is false when another pool was already
    /// stored (the new one is then closed).
    Connected { stored: bool },
    /// No pool was stored when one was needed.
    PoolMissing,
    /// Cancellation came before the probe's answer.
    ProbeCancelled,
    /// The probe succeeded.
    ProbeSucceeded,
    /// The probe failed.
    ProbeFailed,
    /// Cancellation came during the pause.
    PauseCancelled,
    /// The pause elapsed.
    PauseElapsed,
    /// The pool was closed.
    PoolClosed,
}

/// What a step asks of the runtime: the health to store, if any, and the
/// next command.
#[derive(Clone, Copy, Debug)]
pub struct RunStep {
    pub store: Option<HealthState>,
    pub command: RunCommand,
}

/// The state of one run: its phase and the health it has stored last.
#[derive(Clone, Copy, Debug)]
pub struct RunMachine {
    pub phase: RunPhase,
    pub health: HealthState,
}

/// The command that a phase waits on.
pub open spec fn phase_command(phase: RunPhase) -> RunCommand {
    match phase {
        RunPhase::Inspecting => RunCommand::InspectStart,
        RunPhase::Connecting => RunCommand::Connect,
        RunPhase::Probing => RunCommand::Probe,
        RunPhase::Pausing => RunCommand::Pause,
        RunPhase::Closing => RunCommand::ClosePool,
        RunPhase::Finished(result) => RunCommand::Finish(result),
    }
}

/// The next phase and the health to store after `event` in `phase`; an event
/// that does not answer the phase's command changes nothing.
pub open spec fn run_transition(phase: RunPhase, event: RunEvent) -> (RunPhase, Option<
    HealthState,
>) {
    match (phase, event) {
        (RunPhase::Inspecting, RunEvent::StartInspected { cancelled, pool_stored }) => {
            if cancelled {
                (RunPhase::Finished(Ok(())), Some(HealthState::Stopped))
            } else if pool_stored {
                (RunPhase::Finished(Err(RunFailure::AlreadyInitialized)), None)
            } else {
                (RunPhase::Connecting, None)
            }
        },
        (RunPhase::Connecting, RunEvent::ConnectCancelled) => (
            RunPhase::Finished(Ok(())),
            Some(HealthState::Stopped),
        ),
        (RunPhase::Connecting, RunEvent::ConnectFailed) => (
            RunPhase::Finished(Err(RunFailure::ConnectFailed)),
            Some(HealthState::Unhealthy),
        ),
        (RunPhase::Connecting, RunEvent::Connected { stored }) => {
            if stored {
                (RunPhase::Probing, None)
            } else {
                (RunPhase::Finished(Err(RunFailure::AlreadyInitialized)), None)
            }
        },
        (RunPhase::Probing, RunEvent::PoolMissing) => (
            RunPhase::Finished(Err(RunFailure::PoolNotConnected)),
            None,
        ),
        (RunPhase::Probing, RunEvent::ProbeCancelled) => (
            RunPhase::Closing,
            Some(HealthState::Stopped),
        ),
        (RunPhase::Probing, RunEvent::ProbeSucceeded) => (
            RunPhase::Pausing,
            Some(HealthState::Healthy),
        ),
        (RunPhase::Probing, RunEvent::ProbeFailed) => (
            RunPhase::Pausing,
            Some(HealthState::Unhealthy),
        ),
        (RunPhase::Pausing, RunEvent::PauseCancelled) => (
            RunPhase::Closing,
            Some(HealthState::Stopped),
        ),
        (RunPhase::Pausing, RunEvent::PauseElapsed) => (RunPhase::Probing, None),
        (RunPhase::Closing, RunEvent::PoolClosed) => (RunPhase::Finished(Ok(())), None),
        (RunPhase::Closing, RunEvent::PoolMissing) => (
            RunPhase::Finished(Err(RunFailure::PoolNotConnected)),
            None,
        ),
        _ => (phase, None),
    }
}

impl RunMachine {
    /// The machine after the run was allowed to start: inspecting, with
    /// `Starting` stored.
    pub fn started() -> (m: RunMachine)
        ensures
            m.phase == RunPhase::Inspecting,
            m.health == HealthState::Starting,
    {
        RunMachine { phase: RunPhase::Inspecting, health: HealthState::Starting }
    }

    /// The command the current phase waits on.
    pub fn command(&self) -> (c: RunCommand)
        ensures
            c == phase_command(self.phase),
    {
        match self.phase {
            RunPhase::Inspecting => RunCommand::InspectStart,
            RunPhase::Connecting => RunCommand::Connect,
            RunPhase::Probing => RunCommand::Probe,
            RunPhase::Pausing => RunCommand::Pause,
            RunPhase::Closing => RunCommand::ClosePool,
            RunPhase::Finished(result) => RunCommand::Finish(result),
        }
    }

    /// Advances the run by `event`: moves to the next phase, records the
    /// health to store, and returns it with the next command.
    pub fn step(&mut self, event: RunEvent) -> (r: RunStep)
        ensures
            final(self).phase == run_transition(old(self).phase, event).0,
            r.store == run_transition(old(self).phase, event).1,
            r.command == phase_command(final(self).phase),
            final(self).health == (match r.store {
                Some(h) => h,
                None => old(self).health,
            }),
    {
        let (phase, store) = match (self.phase, event) {
            (RunPhase::Inspecting, RunEvent::StartInspected { cancelled, pool_stored }) => {
                if cancelled {
                    (RunPhase::Finished(Ok(())), Some(HealthState::Stopped))
                } else if pool_stored {
                    (RunPhase::Finished(Err(RunFailure::AlreadyInitialized)), None)
                } else {
                    (RunPhase::Connecting, None)
                }
            },
            (RunPhase::Connecting, RunEvent::ConnectCancelled) => (
                RunPhase::Finished(Ok(())),
                Some(HealthState::Stopped),
            ),
            (RunPhase::Connecting, RunEvent::ConnectFailed) => (
                RunPhase::Finished(Err(RunFailure::ConnectFailed)),
                Some(HealthState::Unhealthy),
            ),
            (RunPhase::Connecting, RunEvent::Connected { stored }) => {
                if stored {
                    (RunPhase::Probing, None)
                } else {
                    (RunPhase::Finished(Err(RunFailure::AlreadyInitialized)), None)
                }
            },
            (RunPhase::Probing, RunEvent::PoolMissing) => (
                RunPhase::Finished(Err(RunFailure::PoolNotConnected)),
                None,
            ),
            (RunPhase::Probing, RunEvent::ProbeCancelled) => (
                RunPhase::Closing,
                Some(HealthState::Stopped),
            ),
            (RunPhase::Probing, RunEvent::ProbeSucceeded) => (
                RunPhase::Pausing,
                Some(HealthState::Healthy),
            ),
            (RunPhase::Probing, RunEvent::ProbeFailed) => (
                RunPhase::Pausing,
                Some(HealthState::Unhealthy),
            ),
            (RunPhase::Pausing, RunEvent::PauseCancelled) => (
                RunPhase::Closing,
                Some(HealthState::Stopped),
            ),
            (RunPhase::Pausing, RunEvent::PauseElapsed) => (RunPhase::Probing, None),
            (RunPhase::Closing, RunEvent::PoolClosed) => (RunPhase::Finished(Ok(())), None),
            (RunPhase::Closing, RunEvent::PoolMissing) => (
                RunPhase::Finished(Err(RunFailure::PoolNotConnected)),
                None,
            ),
            (phase, _) => (phase, None),
        };
        self.phase = phase;
        if let Some(health) = store {
            self.health = health;
        }
        RunStep { store, command: self.command() }
    }
}

/// Every state survives being stored: its code names it again.
pub proof fn law_health_code_round_trip(state: HealthState)
    ensures
        HealthState::from_code(state.code()) == Ok::<HealthState, InvalidHealthState>(state),
{
}

/// Exactly the codes 0 to 4 name a state, and the state they name is stored
/// as the same code.
pub proof fn law_health_code_decoding(value: u8)
    ensures
        HealthState::from_code(value) is Ok <==> value <= 4,
        HealthState::from_code(value) matches Ok(state) ==> state.code() == value,
        HealthState::from_code(value) matches Err(e) ==> e.value == value,
{
}

/// What a run may hold at every step: it never stores `Uninitialized`;
/// until a pool is connected it keeps `Starting`; while closing it has stored
/// `Stopped`; a successful end has stored `Stopped`; a failed connection has
/// stored `Unhealthy`.
pub open spec fn run_invariant(phase: RunPhase, health: HealthState) -> bool {
    &&& health != HealthState::Uninitialized
    &&& (phase is Inspecting || phase is Connecting) ==> health == HealthState::Starting
    &&& phase is Closing ==> health == HealthState::Stopped
    &&& phase == RunPhase::Finished(Ok(())) ==> health == HealthState::Stopped
    &&& phase == RunPhase::Finished(Err(RunFailure::ConnectFailed)) ==> health
        == HealthState::Unhealthy
}

/// A run starts within its invariant.
pub proof fn law_run_starts_within_invariant()
    ensures
        run_invariant(RunPhase::Inspecting, HealthState::Starting),
{
}

/// Every step keeps the run's invariant; in particular a run returns `Ok`
/// only after it has stored `Stopped`, and never stores `Uninitialized`, so a
/// started component can never be started again (see [`begin_run`]).
pub proof fn law_run_step_keeps_invariant(phase: RunPhase, health: HealthState, event: RunEvent)
    requires
        run_invariant(phase, health),
    ensures
        ({
            let (next, store) = run_transition(phase, event);
            let stored = match store {
                Some(h) => h,
                None => health,
            };
            run_invariant(next, stored)
        }),
{
}

/// The component is stored as healthy only right after a successful probe;
/// a health check after any stored health answers healthy exactly then.
pub proof fn law_healthy_only_after_successful_probe(phase: RunPhase, event: RunEvent)
    ensures
        run_transition(phase, event).1 == Some(HealthState::Healthy) ==> event
            == RunEvent::ProbeSucceeded,
        run_transition(phase, event).1 matches Some(h) ==> (HealthState::from_code(h.code())
            == Ok::<HealthState, InvalidHealthState>(HealthState::Healthy) <==> event
            == RunEvent::ProbeSucceeded),
{
}

/// A finished run stays finished and stores nothing more.
pub proof fn law_finished_run_is_final(result: Result<(), RunFailure>, event: RunEvent)
    ensures
        run_transition(RunPhase::Finished(result), event) == (
            RunPhase::Finished(result),
            None::<HealthState>,
        ),
{
}

/// Whether `event` answers the command that `phase` waits on; a finished run
/// waits on nothing.
pub open spec fn answers(phase: RunPhase, event: RunEvent) -> bool {
    match phase {
        RunPhase::Inspecting => event is StartInspected,
        RunPhase::Connecting => event is ConnectCancelled || event is ConnectFailed
            || event is Connected,
        RunPhase::Probing => event is PoolMissing || event is ProbeCancelled
            || event is ProbeSucceeded || event is ProbeFailed,
        RunPhase::Pausing => event is PauseCancelled || event is PauseElapsed,
        RunPhase::Closing => event is PoolClosed || event is PoolMissing,
        RunPhase::Finished(_) => false,
    }
}

/// The machine after a run that was allowed to start has seen `events`.
pub open spec fn run_after(events: Seq<RunEvent>) -> RunMachine
    decreases events.len(),
{
    if events.len() == 0 {
        RunMachine { phase: RunPhase::Inspecting, health: HealthState::Starting }
    } else {
        let m = run_after(events.drop_last());
        let (phase, store) = run_transition(m.phase, events.last());
        RunMachine {
            phase,
            health: match store {
                Some(h) => h,
                None => m.health,
            },
        }
    }
}

/// Whether every one of `events` answered the command its run waited on.
pub open spec fn answered_run(events: Seq<RunEvent>) -> bool
    decreases events.len(),
{
    events.len() == 0 || (answered_run(events.drop_last()) && answers(
        run_after(events.drop_last()).phase,
        events.last(),
    ))
}

/// The last of `events` that made the run store a health, if any.
pub open spec fn last_storing_event(events: Seq<RunEvent>) -> Option<RunEvent>
    decreases events.len(),
{
    if events.len() == 0 {
        None
    } else if run_transition(run_after(events.drop_last()).phase, events.last()).1 is Some {
        Some(events.last())
    } else {
        last_storing_event(events.drop_last())
    }
}

proof fn lemma_contains_push(events: Seq<RunEvent>, x: RunEvent)
    requires
        events.len() > 0,
    ensures
        events.contains(x) <==> (events.drop_last().contains(x) || events.last() == x),
{
    let init = events.drop_last();
    if events.contains(x) {
        let i = choose|i: int| 0 <= i < events.len() && events[i] == x;
        if i < init.len() {
            assert(init[i] == x);
        }
    }
    if init.contains(x) {
        let i = choose|i: int| 0 <= i < init.len() && init[i] == x;
        assert(events[i] == x);
    }
    if events.last() == x {
        assert(events[events.len() - 1] == x);
    }
}

/// Over a whole run from its start, whatever events it sees:
/// - it keeps [`run_invariant`]: it never stores `Uninitialized`, and it
///   returns `Ok` only after storing `Stopped`;
/// - it holds `Healthy` (the one stored code a health check answers healthy
///   for) exactly when the last health it stored came from a successful probe;
/// - while it holds `Healthy`, or probes, pauses or closes, it has connected
///   and stored a pool.
///
/// When every event answered the run's command:
/// - a run that connected a pool and returned `Ok` has closed that pool;
/// - unless a stored pool went missing, a run holds `Healthy` only while it
///   probes or pauses, never once it has stopped.
pub proof fn law_run_health_over_whole_runs(events: Seq<RunEvent>)
    ensures
        ({
            let m = run_after(events);
            let connected = events.contains(RunEvent::Connected { stored: true });
            &&& run_invariant(m.phase, m.health)
            &&& (HealthState::from_code(m.health.code()) == Ok::<HealthState, InvalidHealthState>(
                HealthState::Healthy)) <==> last_storing_event(events) == Some(
                RunEvent::ProbeSucceeded,
            )
            &&& (m.health == HealthState::Healthy || m.phase is Probing || m.phase is Pausing
                || m.phase is Closing) ==> connected
            &&& answered_run(events) ==> (m.phase == RunPhase::Finished(Ok(())) && connected
                ==> events.contains(RunEvent::PoolClosed))
            &&& answered_run(events) && !events.contains(RunEvent::PoolMissing) ==> (m.health
                == HealthState::Healthy ==> (m.phase is Probing || m.phase is Pausing))
        }),
    decreases events.len(),
{
    if events.len() > 0 {
        let init = events.drop_last();
        let e = events.last();
        law_run_health_over_whole_runs(init);
        lemma_contains_push(events, RunEvent::Connected { stored: true });
        lemma_contains_push(events, RunEvent::PoolClosed);
        lemma_contains_push(events, RunEvent::PoolMissing);
        let m0 = run_after(init);
        law_run_step_keeps_invariant(m0.phase, m0.health, e);
        law_healthy_only_after_successful_probe(m0.phase, e);
        // A connected, answered run stays among the phases after the connection.
        assert(answered_run(init) && init.contains(RunEvent::Connected { stored: true }) ==> (
        m0.phase is Probing || m0.phase is Pausing || m0.phase is Closing || m0.phase
            == RunPhase::Finished(Err(RunFailure::PoolNotConnected)) || (m0.phase
            == RunPhase::Finished(Ok(())) && init.contains(RunEvent::PoolClosed)))) by {
            lemma_connected_phases(init);
        }
    }
}

/// In an answered run that has connected a pool, the phase is one of those
/// that follow the connection, and a successful end has closed the pool.
proof fn lemma_connected_phases(events: Seq<RunEvent>)
    ensures
        answered_run(events) && events.contains(RunEvent::Connected { stored: true }) ==> ({
            let p = run_after(events).phase;
            p is Probing || p is Pausing || p is Closing || p == RunPhase::Finished(
                Err(RunFailure::PoolNotConnected),
            ) || (p == RunPhase::Finished(Ok(())) && events.contains(RunEvent::PoolClosed))
        }),
    decreases events.len(),
{
    if events.len() > 0 {
        let init = events.drop_last();
        lemma_connected_phases(init);
        lemma_contains_push(events, RunEvent::Connected { stored: true });
        lemma_contains_push(events, RunEvent::PoolClosed);
    }
}

/// Whether `event` reports that the run was cancelled.
pub open spec fn is_cancellation(event: RunEvent) -> bool {
    ||| event matches RunEvent::StartInspected { cancelled, .. } && cancelled
    ||| event is ConnectCancelled
    ||| event is ProbeCancelled
    ||| event is PauseCancelled
}

/// Cancellation always ends a run: in every answered run, the moment a
/// cancellation is reported the run stores `Stopped` and either returns
/// `Ok(())` at once or closes its pool, after which it returns `Ok(())`.
pub proof fn law_cancellation_ends_the_run(events: Seq<RunEvent>, event: RunEvent)
    requires
        answered_run(events.push(event)),
        is_cancellation(event),
    ensures
        ({
            let m = run_after(events.push(event));
            &&& m.health == HealthState::Stopped
            &&& m.phase == RunPhase::Finished(Ok(())) || (m.phase is Closing && run_after(
                events.push(event).push(RunEvent::PoolClosed),
            ).phase == RunPhase::Finished(Ok(())))
        }),
{
    let all = events.push(event);
    assert(all.drop_last() =~= events);
    assert(all.last() == event);
    let closed = all.push(RunEvent::PoolClosed);
    assert(closed.drop_last() =~= all);
    assert(closed.last() == RunEvent::PoolClosed);
}

} // verus!
