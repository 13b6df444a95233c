//! Reusable Postgres configuration, migration naming and component rules.

mod component;
mod config;
mod options;
pub mod migration;

pub use config::{
    default_acquire_timeout, default_idle_timeout, default_max_connections, default_max_lifetime,
    duration_of_secs, law_build_keeps_overrides, law_build_succeeds_exactly_when_min_fits,
    law_unset_pool_values_take_defaults, law_empty_builder_builds_defaults,
    law_only_min_connections_can_fail, opt_password, opt_str_text, opt_text, Config, ConfigBuilder,
    ConfigBuilderError, ConfigBuilderView, ConfigView, NonZeroCount, Password,
    DEFAULT_ACQUIRE_TIMEOUT_SECS, DEFAULT_IDLE_TIMEOUT_SECS, DEFAULT_MAX_CONNECTIONS_COUNT,
    DEFAULT_MAX_LIFETIME_SECS, DEFAULT_MIN_CONNECTIONS,
};
pub use component::{
    answered_run, answers, begin_run, check_health, is_cancellation, law_cancellation_ends_the_run, last_storing_event, law_run_health_over_whole_runs,
    run_after, health_probe_interval, law_finished_run_is_final,
    law_health_code_decoding, law_health_code_round_trip, law_healthy_only_after_successful_probe,
    law_run_starts_within_invariant, law_run_step_keeps_invariant, run_invariant, phase_command, run_transition, HealthState,
    InvalidHealthState, PostgresAccessError, PostgresHealthError, RunCommand, RunEvent, RunFailure,
    RunMachine, RunPhase, RunStep, HEALTH_PROBE_INTERVAL_SECS,
};
pub use options::{
    application_name_setting, connect_overrides, connect_settings, database_setting, host_setting,
    law_each_override_listed_exactly_when_set,
    password_setting, port_setting, statement_cache_capacity_setting, username_setting,
    ConnectOverride, ConnectSetting,
};
