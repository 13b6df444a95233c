//! Postgres connection overrides and pool settings.
//!
//! Connection fields are explicit overrides: an omitted one stays absent, so
//! that `sqlx` and Postgres defaults stay in control. Pool fields have
//! concrete defaults, so a pool has bounded behavior even when only
//! connection defaults are used.

use std::fmt;
use std::time::Duration;
use vstd::prelude::*;

use crate::text::{decimal, decimal_string};

verus! {

/// `std::fmt::Formatter`, carried through opaque.
#[verifier::external_type_specification]
#[verifier::external_body]
pub struct ExFormatter<'a>(fmt::Formatter<'a>);

/// `std::fmt::Error`, carried through opaque.
#[verifier::external_type_specification]
#[verifier::external_body]
pub struct ExFmtError(fmt::Error);

/// `Duration` is `Copy`: its clone is the same duration.
pub assume_specification[ <Duration as Clone>::clone ](d: &Duration) -> (r: Duration)
    ensures
        r == *d,
;

/// Default time to wait while acquiring a pool connection, in seconds.
pub const DEFAULT_ACQUIRE_TIMEOUT_SECS: u64 = 5;

/// Default time an idle pool connection may remain open, in seconds.
pub const DEFAULT_IDLE_TIMEOUT_SECS: u64 = 300;

/// Default maximum age for a pool connection, in seconds.
pub const DEFAULT_MAX_LIFETIME_SECS: u64 = 1800;

/// Default maximum number of pool connections.
pub const DEFAULT_MAX_CONNECTIONS_COUNT: u32 = 10;

/// Default target minimum number of pool connections.
pub const DEFAULT_MIN_CONNECTIONS: u32 = 0;

/// The duration of `secs` whole seconds.
pub uninterp spec fn duration_of_secs(secs: u64) -> Duration;

/// `Duration::from_secs`.
#[verifier::external_body]
pub(crate) fn duration_from_secs(secs: u64) -> (d: Duration)
    ensures
        d == duration_of_secs(secs),
{
    Duration::from_secs(secs)
}

/// Default time to wait while acquiring a pool connection: five seconds.
pub fn default_acquire_timeout() -> (d: Duration)
    ensures
        d == duration_of_secs(DEFAULT_ACQUIRE_TIMEOUT_SECS),
{
    duration_from_secs(DEFAULT_ACQUIRE_TIMEOUT_SECS)
}

/// Default time an idle pool connection may remain open: five minutes.
pub fn default_idle_timeout() -> (d: Duration)
    ensures
        d == duration_of_secs(DEFAULT_IDLE_TIMEOUT_SECS),
{
    duration_from_secs(DEFAULT_IDLE_TIMEOUT_SECS)
}

/// Default maximum age for a pool connection: thirty minutes.
pub fn default_max_lifetime() -> (d: Duration)
    ensures
        d == duration_of_secs(DEFAULT_MAX_LIFETIME_SECS),
{
    duration_from_secs(DEFAULT_MAX_LIFETIME_SECS)
}

/// Default maximum number of pool connections: ten.
pub fn default_max_connections() -> (n: NonZeroCount)
    ensures
        n.count() == DEFAULT_MAX_CONNECTIONS_COUNT,
{
    NonZeroCount { value: DEFAULT_MAX_CONNECTIONS_COUNT }
}

/// A connection count that is never zero.
#[derive(Clone, Copy, PartialEq, Eq, Structural)]
pub struct NonZeroCount {
    value: u32,
}

impl fmt::Debug for NonZeroCount {
    /// Writes the count as a plain number, as `NonZeroU32` does
    /// (`<u32 as Debug>::fmt`).
    #[verifier::external_body]
    fn fmt(&self, f: &mut fmt::Formatter<'_>) -> fmt::Result {
        fmt::Debug::fmt(&self.value, f)
    }
}

impl NonZeroCount {
    #[verifier::type_invariant]
    spec fn is_positive(self) -> bool {
        self.value > 0
    }

    /// The count.
    pub closed spec fn count(self) -> u32 {
        self.value
    }

    /// A count of `value`, or `None` when `value` is zero.
    pub fn new(value: u32) -> (r: Option<NonZeroCount>)
        ensures
            r is Some <==> value > 0,
            r matches Some(n) ==> n.count() == value,
    {
        if value > 0 {
            Some(NonZeroCount { value })
        } else {
            None
        }
    }

    /// Returns the count, which is positive.
    pub fn get(self) -> (r: u32)
        ensures
            r == self.count(),
            r > 0,
    {
        proof {
            use_type_invariant(&self);
        }
        self.value
    }
}

/// Error returned when building Postgres configuration.
#[derive(Clone, Copy, Debug, PartialEq, Eq, Structural)]
pub enum ConfigBuilderError {
    /// The minimum connection count is above the maximum one.
    MinConnectionsExceedsMaxConnections { min_connections: u32, max_connections: NonZeroCount },
}

impl ConfigBuilderError {
    /// The message of this error:
    /// `Postgres min connections ({min}) cannot exceed max connections ({max})`.
    pub fn message(&self) -> (r: String)
        ensures
            match *self {
                ConfigBuilderError::MinConnectionsExceedsMaxConnections {
                    min_connections,
                    max_connections,
                } => r@ == "Postgres min connections ("@ + decimal(min_connections as int)
                    + ") cannot exceed max connections ("@ + decimal(max_connections.count() as int)
                    + ")"@,
            },
    {
        match self {
            ConfigBuilderError::MinConnectionsExceedsMaxConnections {
                min_connections,
                max_connections,
            } => {
                let mut text = String::from_str("Postgres min connections (");
                text.append(decimal_string(*min_connections as i64).as_str());
                text.append(") cannot exceed max connections (");
                text.append(decimal_string(max_connections.get() as i64).as_str());
                text.append(")");
                text
            },
        }
    }
}

/// Postgres password wrapper that redacts its value from `Debug` output.
///
/// An empty password is valid and different from an omitted password.
#[derive(Clone, PartialEq, Eq)]
pub struct Password(String);

impl View for Password {
    type V = Seq<char>;

    closed spec fn view(&self) -> Seq<char> {
        self.0@
    }
}

impl Password {
    /// A password with the given text.
    pub fn new(password: &str) -> (r: Password)
        ensures
            r@ == password@,
    {
        Password(password.to_owned())
    }

    /// Returns the password text.
    pub fn as_str(&self) -> (r: &str)
        ensures
            r@ == self@,
    {
        self.0.as_str()
    }
}

impl fmt::Debug for Password {
    /// Writes `<redacted>` in place of the password (`Formatter::write_str`).
    #[verifier::external_body]
    fn fmt(&self, f: &mut fmt::Formatter<'_>) -> fmt::Result {
        f.write_str("<redacted>")
    }
}

/// The text of an optional string.
pub open spec fn opt_text(s: Option<String>) -> Option<Seq<char>> {
    match s {
        Some(s) => Some(s@),
        None => None,
    }
}

/// The text of an optional password.
pub open spec fn opt_password(p: Option<Password>) -> Option<Seq<char>> {
    match p {
        Some(p) => Some(p@),
        None => None,
    }
}

/// The settings a builder has recorded; `None` where nothing was set.
#[verifier::ext_equal]
pub struct ConfigBuilderView {
    pub host: Option<Seq<char>>,
    pub port: Option<u16>,
    pub username: Option<Seq<char>>,
    pub password: Option<Seq<char>>,
    pub database: Option<Seq<char>>,
    pub application_name: Option<Seq<char>>,
    pub acquire_timeout: Option<Duration>,
    pub idle_timeout: Option<Duration>,
    pub max_lifetime: Option<Duration>,
    pub max_connections: Option<u32>,
    pub min_connections: Option<u32>,
    pub statement_cache_capacity: Option<usize>,
}

/// The settings of a built configuration.
#[verifier::ext_equal]
pub struct ConfigView {
    pub host: Option<Seq<char>>,
    pub port: Option<u16>,
    pub username: Option<Seq<char>>,
    pub password: Option<Seq<char>>,
    pub database: Option<Seq<char>>,
    pub application_name: Option<Seq<char>>,
    pub statement_cache_capacity: Option<usize>,
    pub acquire_timeout: Duration,
    pub idle_timeout: Duration,
    pub max_lifetime: Duration,
    pub max_connections: u32,
    pub min_connections: u32,
}

impl ConfigBuilderView {
    /// A builder with nothing set.
    pub open spec fn empty() -> ConfigBuilderView {
        ConfigBuilderView {
            host: None,
            port: None,
            username: None,
            password: None,
            database: None,
            application_name: None,
            acquire_timeout: None,
            idle_timeout: None,
            max_lifetime: None,
            max_connections: None,
            min_connections: None,
            statement_cache_capacity: None,
        }
    }

    /// The maximum connection count a build uses.
    pub open spec fn effective_max_connections(self) -> u32 {
        match self.max_connections {
            Some(n) => n,
            None => DEFAULT_MAX_CONNECTIONS_COUNT,
        }
    }

    /// The minimum connection count a build uses.
    pub open spec fn effective_min_connections(self) -> u32 {
        match self.min_connections {
            Some(n) => n,
            None => DEFAULT_MIN_CONNECTIONS,
        }
    }

    /// Whether the pool sizes fit: the minimum is at most the maximum.
    pub open spec fn pool_sizes_valid(self) -> bool {
        self.effective_min_connections() <= self.effective_max_connections()
    }

    /// The configuration a successful build gives: connection overrides as
    /// they were set, pool values as set or their defaults.
    pub open spec fn built(self) -> ConfigView {
        ConfigView {
            host: self.host,
            port: self.port,
            username: self.username,
            password: self.password,
            database: self.database,
            application_name: self.application_name,
            statement_cache_capacity: self.statement_cache_capacity,
            acquire_timeout: match self.acquire_timeout {
                Some(d) => d,
                None => duration_of_secs(DEFAULT_ACQUIRE_TIMEOUT_SECS),
            },
            idle_timeout: match self.idle_timeout {
                Some(d) => d,
                None => duration_of_secs(DEFAULT_IDLE_TIMEOUT_SECS),
            },
            max_lifetime: match self.max_lifetime {
                Some(d) => d,
                None => duration_of_secs(DEFAULT_MAX_LIFETIME_SECS),
            },
            max_connections: self.effective_max_connections(),
            min_connections: self.effective_min_connections(),
        }
    }
}

/// Builder for Postgres connection overrides and pool settings.
#[derive(Clone, Debug, PartialEq, Eq)]
pub struct ConfigBuilder {
    host: Option<String>,
    port: Option<u16>,
    username: Option<String>,
    password: Option<Password>,
    database: Option<String>,
    application_name: Option<String>,
    acquire_timeout: Option<Duration>,
    idle_timeout: Option<Duration>,
    max_lifetime: Option<Duration>,
    max_connections: Option<NonZeroCount>,
    min_connections: Option<u32>,
    statement_cache_capacity: Option<usize>,
}

impl View for ConfigBuilder {
    type V = ConfigBuilderView;

    closed spec fn view(&self) -> ConfigBuilderView {
        ConfigBuilderView {
            host: opt_text(self.host),
            port: self.port,
            username: opt_text(self.username),
            password: opt_password(self.password),
            database: opt_text(self.database),
            application_name: opt_text(self.application_name),
            acquire_timeout: self.acquire_timeout,
            idle_timeout: self.idle_timeout,
            max_lifetime: self.max_lifetime,
            max_connections: match self.max_connections {
                Some(n) => Some(n.count()),
                None => None,
            },
            min_connections: self.min_connections,
            statement_cache_capacity: self.statement_cache_capacity,
        }
    }
}

impl Default for ConfigBuilder {
    fn default() -> (r: ConfigBuilder)
        ensures
            r@ == ConfigBuilderView::empty(),
    {
        ConfigBuilder {
            host: None,
            port: None,
            username: None,
            password: None,
            database: None,
            application_name: None,
            acquire_timeout: None,
            idle_timeout: None,
            max_lifetime: None,
            max_connections: None,
            min_connections: None,
            statement_cache_capacity: None,
        }
    }
}

impl ConfigBuilder {
    /// Creates a builder with no connection overrides and default pool values.
    pub fn new() -> (r: ConfigBuilder)
        ensures
            r@ == ConfigBuilderView::empty(),
    {
        ConfigBuilder::default()
    }

    /// Overrides the Postgres host.
    pub fn with_host(self, host: &str) -> (r: ConfigBuilder)
        ensures
            r@ == (ConfigBuilderView { host: Some(host@), ..self@ }),
    {
        let mut builder = self;
        builder.host = Some(host.to_owned());
        builder
    }

    /// Overrides the Postgres port.
    pub fn with_port(self, port: u16) -> (r: ConfigBuilder)
        ensures
            r@ == (ConfigBuilderView { port: Some(port), ..self@ }),
    {
        let mut builder = self;
        builder.port = Some(port);
        builder
    }

    /// Overrides the Postgres username.
    pub fn with_username(self, username: &str) -> (r: ConfigBuilder)
        ensures
            r@ == (ConfigBuilderView { username: Some(username@), ..self@ }),
    {
        let mut builder = self;
        builder.username = Some(username.to_owned());
        builder
    }

    /// Overrides the Postgres password; `""` records an explicit empty password.
    pub fn with_password(self, password: &str) -> (r: ConfigBuilder)
        ensures
            r@ == (ConfigBuilderView { password: Some(password@), ..self@ }),
    {
        let mut builder = self;
        builder.password = Some(Password::new(password));
        builder
    }

    /// Overrides the Postgres database name.
    pub fn with_database(self, database: &str) -> (r: ConfigBuilder)
        ensures
            r@ == (ConfigBuilderView { database: Some(database@), ..self@ }),
    {
        let mut builder = self;
        builder.database = Some(database.to_owned());
        builder
    }

    /// Overrides the Postgres application name startup parameter.
    pub fn with_application_name(self, application_name: &str) -> (r: ConfigBuilder)
        ensures
            r@ == (ConfigBuilderView { application_name: Some(application_name@), ..self@ }),
    {
        let mut builder = self;
        builder.application_name = Some(application_name.to_owned());
        builder
    }

    /// Overrides the pool acquire timeout.
    pub fn with_acquire_timeout(self, acquire_timeout: Duration) -> (r: ConfigBuilder)
        ensures
            r@ == (ConfigBuilderView { acquire_timeout: Some(acquire_timeout), ..self@ }),
    {
        let mut builder = self;
        builder.acquire_timeout = Some(acquire_timeout);
        builder
    }

    /// Overrides the pool idle timeout.
    pub fn with_idle_timeout(self, idle_timeout: Duration) -> (r: ConfigBuilder)
        ensures
            r@ == (ConfigBuilderView { idle_timeout: Some(idle_timeout), ..self@ }),
    {
        let mut builder = self;
        builder.idle_timeout = Some(idle_timeout);
        builder
    }

    /// Overrides the pool connection maximum lifetime.
    pub fn with_max_lifetime(self, max_lifetime: Duration) -> (r: ConfigBuilder)
        ensures
            r@ == (ConfigBuilderView { max_lifetime: Some(max_lifetime), ..self@ }),
    {
        let mut builder = self;
        builder.max_lifetime = Some(max_lifetime);
        builder
    }

    /// Overrides the pool maximum connection count, which is never zero.
    pub fn with_max_connections(self, max_connections: NonZeroCount) -> (r: ConfigBuilder)
        ensures
            r@ == (ConfigBuilderView { max_connections: Some(max_connections.count()), ..self@ }),
    {
        let mut builder = self;
        builder.max_connections = Some(max_connections);
        builder
    }

    /// Overrides the pool target minimum connection count.
    pub fn with_min_connections(self, min_connections: u32) -> (r: ConfigBuilder)
        ensures
            r@ == (ConfigBuilderView { min_connections: Some(min_connections), ..self@ }),
    {
        let mut builder = self;
        builder.min_connections = Some(min_connections);
        builder
    }

    /// Overrides the per-connection prepared statement cache capacity.
    pub fn with_statement_cache_capacity(self, capacity: usize) -> (r: ConfigBuilder)
        ensures
            r@ == (ConfigBuilderView { statement_cache_capacity: Some(capacity), ..self@ }),
    {
        let mut builder = self;
        builder.statement_cache_capacity = Some(capacity);
        builder
    }

    /// Builds a config and validates pool size relationships.
    pub fn build(self) -> (r: Result<Config, ConfigBuilderError>)
        ensures
            r is Ok <==> self@.pool_sizes_valid(),
            r matches Ok(c) ==> c@ == self@.built(),
            r matches Err(
                ConfigBuilderError::MinConnectionsExceedsMaxConnections {
                    min_connections,
                    max_connections,
                },
            ) ==> min_connections == self@.effective_min_connections()
                && max_connections.count() == self@.effective_max_connections(),
    {
        let max_connections = match self.max_connections {
            Some(n) => n,
            None => default_max_connections(),
        };
        let min_connections = match self.min_connections {
            Some(n) => n,
            None => DEFAULT_MIN_CONNECTIONS,
        };
        if min_connections > max_connections.get() {
            return Err(
                ConfigBuilderError::MinConnectionsExceedsMaxConnections {
                    min_connections,
                    max_connections,
                },
            );
        }
        let acquire_timeout = match self.acquire_timeout {
            Some(d) => d,
            None => default_acquire_timeout(),
        };
        let idle_timeout = match self.idle_timeout {
            Some(d) => d,
            None => default_idle_timeout(),
        };
        let max_lifetime = match self.max_lifetime {
            Some(d) => d,
            None => default_max_lifetime(),
        };
        Ok(
            Config {
                host: self.host,
                port: self.port,
                username: self.username,
                password: self.password,
                database: self.database,
                application_name: self.application_name,
                statement_cache_capacity: self.statement_cache_capacity,
                acquire_timeout,
                idle_timeout,
                max_lifetime,
                max_connections,
                min_connections,
            },
        )
    }
}

/// Postgres connection overrides and pool configuration.
#[derive(Clone, Debug, PartialEq, Eq)]
pub struct Config {
    host: Option<String>,
    port: Option<u16>,
    username: Option<String>,
    password: Option<Password>,
    database: Option<String>,
    application_name: Option<String>,
    statement_cache_capacity: Option<usize>,
    acquire_timeout: Duration,
    idle_timeout: Duration,
    max_lifetime: Duration,
    max_connections: NonZeroCount,
    min_connections: u32,
}

impl View for Config {
    type V = ConfigView;

    closed spec fn view(&self) -> ConfigView {
        ConfigView {
            host: opt_text(self.host),
            port: self.port,
            username: opt_text(self.username),
            password: opt_password(self.password),
            database: opt_text(self.database),
            application_name: opt_text(self.application_name),
            statement_cache_capacity: self.statement_cache_capacity,
            acquire_timeout: self.acquire_timeout,
            idle_timeout: self.idle_timeout,
            max_lifetime: self.max_lifetime,
            max_connections: self.max_connections.count(),
            min_connections: self.min_connections,
        }
    }
}

/// The text of an optional string slice.
pub open spec fn opt_str_text(s: Option<&str>) -> Option<Seq<char>> {
    match s {
        Some(s) => Some(s@),
        None => None,
    }
}

fn borrow_text(s: &Option<String>) -> (r: Option<&str>)
    ensures
        opt_str_text(r) == opt_text(*s),
{
    match s {
        Some(s) => Some(s.as_str()),
        None => None,
    }
}

impl Config {
    /// Creates a builder with no connection overrides and default pool values.
    pub fn builder() -> (r: ConfigBuilder)
        ensures
            r@ == ConfigBuilderView::empty(),
    {
        ConfigBuilder::new()
    }

    /// Returns the explicit host override, if one was configured.
    pub fn host(&self) -> (r: Option<&str>)
        ensures
            opt_str_text(r) == self@.host,
    {
        borrow_text(&self.host)
    }

    /// Returns the explicit port override, if one was configured.
    pub fn port(&self) -> (r: Option<u16>)
        ensures
            r == self@.port,
    {
        self.port
    }

    /// Returns the explicit username override, if one was configured.
    pub fn username(&self) -> (r: Option<&str>)
        ensures
            opt_str_text(r) == self@.username,
    {
        borrow_text(&self.username)
    }

    /// Returns the explicit password override, if one was configured.
    pub fn password(&self) -> (r: Option<&Password>)
        ensures
            match r {
                Some(p) => self@.password == Some(p@),
                None => self@.password is None,
            },
    {
        match &self.password {
            Some(password) => Some(password),
            None => None,
        }
    }

    /// Returns the explicit database override, if one was configured.
    pub fn database(&self) -> (r: Option<&str>)
        ensures
            opt_str_text(r) == self@.database,
    {
        borrow_text(&self.database)
    }

    /// Returns the explicit application name override, if one was configured.
    pub fn application_name(&self) -> (r: Option<&str>)
        ensures
            opt_str_text(r) == self@.application_name,
    {
        borrow_text(&self.application_name)
    }

    /// Returns the pool acquire timeout.
    pub fn acquire_timeout(&self) -> (r: Duration)
        ensures
            r == self@.acquire_timeout,
    {
        self.acquire_timeout
    }

    /// Returns the pool idle timeout.
    pub fn idle_timeout(&self) -> (r: Duration)
        ensures
            r == self@.idle_timeout,
    {
        self.idle_timeout
    }

    /// Returns the pool connection maximum lifetime.
    pub fn max_lifetime(&self) -> (r: Duration)
        ensures
            r == self@.max_lifetime,
    {
        self.max_lifetime
    }

    /// Returns the pool maximum connection count.
    pub fn max_connections(&self) -> (r: NonZeroCount)
        ensures
            r.count() == self@.max_connections,
    {
        self.max_connections
    }

    /// Returns the pool target minimum connection count.
    pub fn min_connections(&self) -> (r: u32)
        ensures
            r == self@.min_connections,
    {
        self.min_connections
    }

    /// Returns the explicit per-connection prepared statement cache capacity,
    /// if one was configured.
    pub fn statement_cache_capacity(&self) -> (r: Option<usize>)
        ensures
            r == self@.statement_cache_capacity,
    {
        self.statement_cache_capacity
    }
}

/// A builder with nothing set builds: no connection override is invented and
/// every pool value is its default.
pub proof fn law_empty_builder_builds_defaults()
    ensures
        ConfigBuilderView::empty().pool_sizes_valid(),
        ({
            let c = ConfigBuilderView::empty().built();
            &&& c.host is None
            &&& c.port is None
            &&& c.username is None
            &&& c.password is None
            &&& c.database is None
            &&& c.application_name is None
            &&& c.statement_cache_capacity is None
            &&& c.acquire_timeout == duration_of_secs(DEFAULT_ACQUIRE_TIMEOUT_SECS)
            &&& c.idle_timeout == duration_of_secs(DEFAULT_IDLE_TIMEOUT_SECS)
            &&& c.max_lifetime == duration_of_secs(DEFAULT_MAX_LIFETIME_SECS)
            &&& c.max_connections == DEFAULT_MAX_CONNECTIONS_COUNT
            &&& c.min_connections == DEFAULT_MIN_CONNECTIONS
        }),
{
}

/// A build keeps every connection override exactly as it was set (an empty
/// password included) and leaves every omitted one absent; pool values are
/// the ones set, or their defaults.
pub proof fn law_build_keeps_overrides(v: ConfigBuilderView)
    ensures
        v.built().host == v.host,
        v.built().port == v.port,
        v.built().username == v.username,
        v.built().password == v.password,
        v.built().database == v.database,
        v.built().application_name == v.application_name,
        v.built().statement_cache_capacity == v.statement_cache_capacity,
        v.acquire_timeout matches Some(d) ==> v.built().acquire_timeout == d,
        v.idle_timeout matches Some(d) ==> v.built().idle_timeout == d,
        v.max_lifetime matches Some(d) ==> v.built().max_lifetime == d,
        v.max_connections matches Some(n) ==> v.built().max_connections == n,
        v.min_connections matches Some(n) ==> v.built().min_connections == n,
{
}

/// Only a minimum connection count can make a build fail: with a positive
/// maximum (as every [`NonZeroCount`] is) and no minimum set, the pool sizes
/// fit; and they fit exactly when the minimum is at most the maximum.
pub proof fn law_only_min_connections_can_fail(v: ConfigBuilderView)
    requires
        v.max_connections matches Some(n) ==> n > 0,
    ensures
        v.min_connections is None ==> v.pool_sizes_valid(),
        v.pool_sizes_valid() <==> v.effective_min_connections() <= v.effective_max_connections(),
{
}

/// Whatever else a builder sets, each pool value it leaves unset builds as its
/// default: five seconds to acquire, five minutes idle, thirty minutes of
/// lifetime, at most ten and at least zero connections.
pub proof fn law_unset_pool_values_take_defaults(v: ConfigBuilderView)
    ensures
        v.acquire_timeout is None ==> v.built().acquire_timeout == duration_of_secs(5),
        v.idle_timeout is None ==> v.built().idle_timeout == duration_of_secs(300),
        v.max_lifetime is None ==> v.built().max_lifetime == duration_of_secs(1800),
        v.max_connections is None ==> v.built().max_connections == 10,
        v.min_connections is None ==> v.built().min_connections == 0,
{
}

/// A build succeeds exactly when the minimum connection count set (zero when
/// unset) is at most the maximum set (ten when unset); so a builder that sets
/// no minimum always builds, whatever maximum it sets.
pub proof fn law_build_succeeds_exactly_when_min_fits(v: ConfigBuilderView)
    requires
        v.max_connections matches Some(n) ==> n > 0,
    ensures
        v.pool_sizes_valid() <==> (match v.min_connections {
            Some(n) => n,
            None => 0u32,
        }) <= (match v.max_connections {
            Some(n) => n,
            None => 10u32,
        }),
        v.min_connections is None ==> v.pool_sizes_valid(),
{
}

} // verus!
