use recomp::component::{wait_start, wait_step, HealthProbe, WaitCommand, WaitEvent, WaitUntilHealthyError};
use recomp::postgres::{
    begin_run, check_health, health_probe_interval, HealthState, InvalidHealthState,
    PostgresAccessError, PostgresHealthError, RunCommand, RunEvent, RunFailure, RunMachine,
};

const STATES: [HealthState; 5] = [
    HealthState::Uninitialized,
    HealthState::Starting,
    HealthState::Healthy,
    HealthState::Unhealthy,
    HealthState::Stopped,
];

#[test]
fn health_codes_round_trip() {
    for (code, state) in STATES.iter().enumerate() {
        assert_eq!(u8::from(*state), code as u8);
        assert_eq!(HealthState::try_from(code as u8), Ok(*state));
    }
    assert_eq!(HealthState::try_from(5), Err(InvalidHealthState { value: 5 }));
    assert_eq!(
        InvalidHealthState { value: 200 }.message(),
        "invalid Postgres health state value 200"
    );
}

#[test]
fn health_check_is_healthy_only_for_the_healthy_code() {
    for code in 0..=255u8 {
        let expected = if code == 2 { Ok(()) } else { Err(PostgresHealthError::Unhealthy) };
        assert_eq!(check_health(code, HealthProbe::Readiness), expected);
        assert_eq!(check_health(code, HealthProbe::Liveness), expected);
    }
    assert_eq!(PostgresHealthError::Unhealthy.message(), "Postgres pool is unhealthy");
    assert_eq!(PostgresAccessError::NotConnected.message(), "Postgres pool is not connected");
}

#[test]
fn a_component_starts_once() {
    assert_eq!(begin_run(0), Some(1));
    for code in 1..=255u8 {
        assert_eq!(begin_run(code), None);
    }
}

fn finish(command: RunCommand) -> Option<Result<(), RunFailure>> {
    match command {
        RunCommand::Finish(result) => Some(result),
        _ => None,
    }
}

#[test]
fn run_probes_until_cancelled_then_stops() {
    let mut machine = RunMachine::started();
    assert!(matches!(machine.command(), RunCommand::InspectStart));
    let step = machine.step(RunEvent::StartInspected { cancelled: false, pool_stored: false });
    assert_eq!(step.store, None);
    assert!(matches!(step.command, RunCommand::Connect));
    let step = machine.step(RunEvent::Connected { stored: true });
    assert!(matches!(step.command, RunCommand::Probe));
    let step = machine.step(RunEvent::ProbeSucceeded);
    assert_eq!(step.store, Some(HealthState::Healthy));
    assert!(matches!(step.command, RunCommand::Pause));
    let step = machine.step(RunEvent::PauseElapsed);
    assert!(matches!(step.command, RunCommand::Probe));
    let step = machine.step(RunEvent::ProbeFailed);
    assert_eq!(step.store, Some(HealthState::Unhealthy));
    let step = machine.step(RunEvent::PauseCancelled);
    assert_eq!(step.store, Some(HealthState::Stopped));
    assert!(matches!(step.command, RunCommand::ClosePool));
    let step = machine.step(RunEvent::PoolClosed);
    assert_eq!(finish(step.command), Some(Ok(())));
    assert_eq!(machine.health, HealthState::Stopped);
}

#[test]
fn run_outcomes_before_probing() {
    let mut machine = RunMachine::started();
    let step = machine.step(RunEvent::StartInspected { cancelled: true, pool_stored: true });
    assert_eq!(step.store, Some(HealthState::Stopped));
    assert_eq!(finish(step.command), Some(Ok(())));

    let mut machine = RunMachine::started();
    let step = machine.step(RunEvent::StartInspected { cancelled: false, pool_stored: true });
    assert_eq!(step.store, None);
    assert_eq!(finish(step.command), Some(Err(RunFailure::AlreadyInitialized)));
    assert_eq!(machine.health, HealthState::Starting);

    let mut machine = RunMachine::started();
    machine.step(RunEvent::StartInspected { cancelled: false, pool_stored: false });
    let step = machine.step(RunEvent::ConnectFailed);
    assert_eq!(step.store, Some(HealthState::Unhealthy));
    assert_eq!(finish(step.command), Some(Err(RunFailure::ConnectFailed)));

    let mut machine = RunMachine::started();
    machine.step(RunEvent::StartInspected { cancelled: false, pool_stored: false });
    let step = machine.step(RunEvent::ConnectCancelled);
    assert_eq!(step.store, Some(HealthState::Stopped));
    assert_eq!(finish(step.command), Some(Ok(())));

    let mut machine = RunMachine::started();
    machine.step(RunEvent::StartInspected { cancelled: false, pool_stored: false });
    let step = machine.step(RunEvent::Connected { stored: false });
    assert_eq!(finish(step.command), Some(Err(RunFailure::AlreadyInitialized)));
}

#[test]
fn run_fails_when_the_pool_is_missing_and_ignores_stray_events() {
    let mut machine = RunMachine::started();
    machine.step(RunEvent::StartInspected { cancelled: false, pool_stored: false });
    machine.step(RunEvent::Connected { stored: true });
    let step = machine.step(RunEvent::PauseElapsed);
    assert_eq!(step.store, None);
    assert!(matches!(step.command, RunCommand::Probe));
    let step = machine.step(RunEvent::PoolMissing);
    assert_eq!(finish(step.command), Some(Err(RunFailure::PoolNotConnected)));
    let step = machine.step(RunEvent::ProbeSucceeded);
    assert_eq!(step.store, None);
    assert_eq!(finish(step.command), Some(Err(RunFailure::PoolNotConnected)));
}

#[test]
fn health_probe_runs_every_ten_seconds() {
    assert_eq!(health_probe_interval(), std::time::Duration::from_secs(10));
}

#[test]
fn waiting_returns_on_health_or_cancellation() {
    assert!(matches!(wait_start(), WaitCommand::Check(HealthProbe::Other)));
    assert!(matches!(wait_step(WaitEvent::Checked { healthy: true }), WaitCommand::Return(Ok(()))));
    assert!(matches!(wait_step(WaitEvent::Checked { healthy: false }), WaitCommand::Sleep));
    assert!(matches!(
        wait_step(WaitEvent::Cancelled),
        WaitCommand::Return(Err(WaitUntilHealthyError::Cancelled))
    ));
    assert!(matches!(wait_step(WaitEvent::Slept), WaitCommand::Check(HealthProbe::Other)));
    assert_eq!(WaitUntilHealthyError::Cancelled.message(), "health wait cancelled");
}

#[test]
fn a_whole_answered_run_reports_healthy_only_while_probing() {
    let mut machine = RunMachine::started();
    let events = [
        RunEvent::StartInspected { cancelled: false, pool_stored: false },
        RunEvent::Connected { stored: true },
        RunEvent::ProbeSucceeded,
        RunEvent::PauseElapsed,
        RunEvent::ProbeSucceeded,
        RunEvent::PauseCancelled,
        RunEvent::PoolClosed,
    ];
    let mut healthy_seen = false;
    for event in events {
        let step = machine.step(event);
        if let Some(state) = step.store {
            assert_eq!(check_health(u8::from(state), HealthProbe::Other).is_ok(), event == RunEvent::ProbeSucceeded);
            healthy_seen |= state == HealthState::Healthy;
        }
    }
    assert!(healthy_seen);
    assert_eq!(machine.health, HealthState::Stopped);
    assert!(check_health(u8::from(machine.health), HealthProbe::Other).is_err());
}
