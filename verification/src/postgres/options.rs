//! The connection settings a configuration overrides, in the order in which
//! they are handed to the `sqlx` connection options.

use vstd::prelude::*;

use super::config::{Config, ConfigView};

verus! {

/// One connection setting that a configuration overrides.
#[derive(Clone, Debug, PartialEq, Eq)]
pub enum ConnectOverride {
    Host(String),
    Port(u16),
    Username(String),
    Password(String),
    Database(String),
    ApplicationName(String),
    StatementCacheCapacity(usize),
}

/// The value of a [`ConnectOverride`].
pub enum ConnectSetting {
    Host(Seq<char>),
    Port(u16),
    Username(Seq<char>),
    Password(Seq<char>),
    Database(Seq<char>),
    ApplicationName(Seq<char>),
    StatementCacheCapacity(usize),
}

impl View for ConnectOverride {
    type V = ConnectSetting;

    open spec fn view(&self) -> ConnectSetting {
        match self {
            ConnectOverride::Host(s) => ConnectSetting::Host(s@),
            ConnectOverride::Port(p) => ConnectSetting::Port(*p),
            ConnectOverride::Username(s) => ConnectSetting::Username(s@),
            ConnectOverride::Password(s) => ConnectSetting::Password(s@),
            ConnectOverride::Database(s) => ConnectSetting::Database(s@),
            ConnectOverride::ApplicationName(s) => ConnectSetting::ApplicationName(s@),
            ConnectOverride::StatementCacheCapacity(n) => ConnectSetting::StatementCacheCapacity(*n),
        }
    }
}

/// The host override, if any.
pub open spec fn host_setting(c: ConfigView) -> Seq<ConnectSetting> {
    match c.host {
        Some(s) => seq![ConnectSetting::Host(s)],
        None => Seq::empty(),
    }
}

/// The port override, if any.
pub open spec fn port_setting(c: ConfigView) -> Seq<ConnectSetting> {
    match c.port {
        Some(p) => seq![ConnectSetting::Port(p)],
        None => Seq::empty(),
    }
}

/// The username override, if any.
pub open spec fn username_setting(c: ConfigView) -> Seq<ConnectSetting> {
    match c.username {
        Some(s) => seq![ConnectSetting::Username(s)],
        None => Seq::empty(),
    }
}

/// The password override, if any.
pub open spec fn password_setting(c: ConfigView) -> Seq<ConnectSetting> {
    match c.password {
        Some(s) => seq![ConnectSetting::Password(s)],
        None => Seq::empty(),
    }
}

/// The database override, if any.
pub open spec fn database_setting(c: ConfigView) -> Seq<ConnectSetting> {
    match c.database {
        Some(s) => seq![ConnectSetting::Database(s)],
        None => Seq::empty(),
    }
}

/// The application name override, if any.
pub open spec fn application_name_setting(c: ConfigView) -> Seq<ConnectSetting> {
    match c.application_name {
        Some(s) => seq![ConnectSetting::ApplicationName(s)],
        None => Seq::empty(),
    }
}

/// The statement cache capacity override, if any.
pub open spec fn statement_cache_capacity_setting(c: ConfigView) -> Seq<ConnectSetting> {
    match c.statement_cache_capacity {
        Some(n) => seq![ConnectSetting::StatementCacheCapacity(n)],
        None => Seq::empty(),
    }
}

/// Every connection override of `c`, each exactly once, in the order host,
/// port, username, password, database, application name, statement cache
/// capacity; settings that were not overridden are left out so that `sqlx`'s
/// own defaults apply.
pub open spec fn connect_settings(c: ConfigView) -> Seq<ConnectSetting> {
    host_setting(c) + port_setting(c) + username_setting(c) + password_setting(c)
        + database_setting(c) + application_name_setting(c) + statement_cache_capacity_setting(c)
}

/// The connection settings `config` overrides, in the order they are applied.
#[verifier::rlimit(40)]
pub fn connect_overrides(config: &Config) -> (r: Vec<ConnectOverride>)
    ensures
        r@.map_values(|o: ConnectOverride| o@) == connect_settings(config@),
{
    let ghost c = config@;
    let mut overrides: Vec<ConnectOverride> = Vec::new();
    if let Some(host) = config.host() {
        overrides.push(ConnectOverride::Host(host.to_owned()));
    }
    assert(overrides@.map_values(|o: ConnectOverride| o@) =~= host_setting(c));
    if let Some(port) = config.port() {
        overrides.push(ConnectOverride::Port(port));
    }
    assert(overrides@.map_values(|o: ConnectOverride| o@) =~= host_setting(c) + port_setting(c));
    if let Some(username) = config.username() {
        overrides.push(ConnectOverride::Username(username.to_owned()));
    }
    assert(overrides@.map_values(|o: ConnectOverride| o@) =~= host_setting(c) + port_setting(c)
        + username_setting(c));
    if let Some(password) = config.password() {
        overrides.push(ConnectOverride::Password(password.as_str().to_owned()));
    }
    assert(overrides@.map_values(|o: ConnectOverride| o@) =~= host_setting(c) + port_setting(c)
        + username_setting(c) + password_setting(c));
    if let Some(database) = config.database() {
        overrides.push(ConnectOverride::Database(database.to_owned()));
    }
    assert(overrides@.map_values(|o: ConnectOverride| o@) =~= host_setting(c) + port_setting(c)
        + username_setting(c) + password_setting(c) + database_setting(c));
    if let Some(application_name) = config.application_name() {
        overrides.push(ConnectOverride::ApplicationName(application_name.to_owned()));
    }
    assert(overrides@.map_values(|o: ConnectOverride| o@) =~= host_setting(c) + port_setting(c)
        + username_setting(c) + password_setting(c) + database_setting(c)
        + application_name_setting(c));
    if let Some(capacity) = config.statement_cache_capacity() {
        overrides.push(ConnectOverride::StatementCacheCapacity(capacity));
    }
    assert(overrides@.map_values(|o: ConnectOverride| o@) =~= connect_settings(c));
    overrides
}

/// Each connection override appears in the settings exactly when it is set,
/// with the value it is set to, whatever the other fields hold.
pub proof fn law_each_override_listed_exactly_when_set(c: ConfigView)
    ensures
        forall|h: Seq<char>| connect_settings(c).contains(ConnectSetting::Host(h)) <==> c.host
            == Some(h),
        forall|p: u16| connect_settings(c).contains(ConnectSetting::Port(p)) <==> c.port == Some(p),
        forall|u: Seq<char>| connect_settings(c).contains(ConnectSetting::Username(u)) <==> c.username
            == Some(u),
        forall|w: Seq<char>| connect_settings(c).contains(ConnectSetting::Password(w)) <==> c.password
            == Some(w),
        forall|d: Seq<char>| connect_settings(c).contains(ConnectSetting::Database(d)) <==> c.database
            == Some(d),
        forall|a: Seq<char>| connect_settings(c).contains(ConnectSetting::ApplicationName(a)) <==> c.application_name
            == Some(a),
        forall|n: usize| connect_settings(c).contains(ConnectSetting::StatementCacheCapacity(n))
            <==> c.statement_cache_capacity == Some(n),
        connect_settings(c).len() == (if c.host is Some { 1int } else { 0int }) + (if c.port is Some {
            1int
        } else {
            0int
        }) + (if c.username is Some { 1int } else { 0int }) + (if c.password is Some {
            1int
        } else {
            0int
        }) + (if c.database is Some { 1int } else { 0int }) + (if c.application_name is Some {
            1int
        } else {
            0int
        }) + (if c.statement_cache_capacity is Some { 1int } else { 0int }),
{
    let s = connect_settings(c);
    // Position bookkeeping: `s` is the concatenation of the seven parts.
    let a = host_setting(c);
    let b = a + port_setting(c);
    let d = b + username_setting(c);
    let e = d + password_setting(c);
    let f = e + database_setting(c);
    let g = f + application_name_setting(c);
    assert(s == g + statement_cache_capacity_setting(c));
    assert forall|x: ConnectSetting| s.contains(x) <==> (a.contains(x) || port_setting(c).contains(x)
        || username_setting(c).contains(x) || password_setting(c).contains(x)
        || database_setting(c).contains(x) || application_name_setting(c).contains(x)
        || statement_cache_capacity_setting(c).contains(x)) by {
        lemma_concat_contains(a, port_setting(c), x);
        lemma_concat_contains(b, username_setting(c), x);
        lemma_concat_contains(d, password_setting(c), x);
        lemma_concat_contains(e, database_setting(c), x);
        lemma_concat_contains(f, application_name_setting(c), x);
        lemma_concat_contains(g, statement_cache_capacity_setting(c), x);
    }
    assert forall|x: ConnectSetting| #[trigger] host_setting(c).contains(x) implies x is Host by {
        if host_setting(c).contains(x) { let i = choose|i: int| 0 <= i < host_setting(c).len() && host_setting(c)[i] == x; }
    }
    assert forall|x: ConnectSetting| #[trigger] port_setting(c).contains(x) implies x is Port by {
        if port_setting(c).contains(x) { let i = choose|i: int| 0 <= i < port_setting(c).len() && port_setting(c)[i] == x; }
    }
    assert forall|x: ConnectSetting| #[trigger] username_setting(c).contains(x) implies x is Username by {
        if username_setting(c).contains(x) { let i = choose|i: int| 0 <= i < username_setting(c).len() && username_setting(c)[i] == x; }
    }
    assert forall|x: ConnectSetting| #[trigger] password_setting(c).contains(x) implies x is Password by {
        if password_setting(c).contains(x) { let i = choose|i: int| 0 <= i < password_setting(c).len() && password_setting(c)[i] == x; }
    }
    assert forall|x: ConnectSetting| #[trigger] database_setting(c).contains(x) implies x is Database by {
        if database_setting(c).contains(x) { let i = choose|i: int| 0 <= i < database_setting(c).len() && database_setting(c)[i] == x; }
    }
    assert forall|x: ConnectSetting| #[trigger] application_name_setting(c).contains(x) implies x is ApplicationName by {
        if application_name_setting(c).contains(x) { let i = choose|i: int| 0 <= i < application_name_setting(c).len() && application_name_setting(c)[i] == x; }
    }
    assert forall|x: ConnectSetting| #[trigger] statement_cache_capacity_setting(c).contains(x) implies x is StatementCacheCapacity by {
        if statement_cache_capacity_setting(c).contains(x) { let i = choose|i: int| 0 <= i < statement_cache_capacity_setting(c).len() && statement_cache_capacity_setting(c)[i] == x; }
    }
    assert forall|h: Seq<char>| s.contains(ConnectSetting::Host(h)) <==> c.host == Some(h) by {
        if c.host == Some(h) { assert(host_setting(c)[0] == ConnectSetting::Host(h)); }
        if host_setting(c).contains(ConnectSetting::Host(h)) { let i = choose|i: int| 0 <= i < host_setting(c).len() && host_setting(c)[i] == ConnectSetting::Host(h); }
    }
    assert forall|p: u16| s.contains(ConnectSetting::Port(p)) <==> c.port == Some(p) by {
        if c.port == Some(p) { assert(port_setting(c)[0] == ConnectSetting::Port(p)); }
        if port_setting(c).contains(ConnectSetting::Port(p)) { let i = choose|i: int| 0 <= i < port_setting(c).len() && port_setting(c)[i] == ConnectSetting::Port(p); }
    }
    assert forall|u: Seq<char>| s.contains(ConnectSetting::Username(u)) <==> c.username == Some(u) by {
        if c.username == Some(u) { assert(username_setting(c)[0] == ConnectSetting::Username(u)); }
        if username_setting(c).contains(ConnectSetting::Username(u)) { let i = choose|i: int| 0 <= i < username_setting(c).len() && username_setting(c)[i] == ConnectSetting::Username(u); }
    }
    assert forall|w: Seq<char>| s.contains(ConnectSetting::Password(w)) <==> c.password == Some(w) by {
        if c.password == Some(w) { assert(password_setting(c)[0] == ConnectSetting::Password(w)); }
        if password_setting(c).contains(ConnectSetting::Password(w)) { let i = choose|i: int| 0 <= i < password_setting(c).len() && password_setting(c)[i] == ConnectSetting::Password(w); }
    }
    assert forall|dd: Seq<char>| s.contains(ConnectSetting::Database(dd)) <==> c.database == Some(dd) by {
        if c.database == Some(dd) { assert(database_setting(c)[0] == ConnectSetting::Database(dd)); }
        if database_setting(c).contains(ConnectSetting::Database(dd)) { let i = choose|i: int| 0 <= i < database_setting(c).len() && database_setting(c)[i] == ConnectSetting::Database(dd); }
    }
    assert forall|an: Seq<char>| s.contains(ConnectSetting::ApplicationName(an)) <==> c.application_name == Some(an) by {
        if c.application_name == Some(an) { assert(application_name_setting(c)[0] == ConnectSetting::ApplicationName(an)); }
        if application_name_setting(c).contains(ConnectSetting::ApplicationName(an)) { let i = choose|i: int| 0 <= i < application_name_setting(c).len() && application_name_setting(c)[i] == ConnectSetting::ApplicationName(an); }
    }
    assert forall|n: usize| s.contains(ConnectSetting::StatementCacheCapacity(n)) <==> c.statement_cache_capacity == Some(n) by {
        if c.statement_cache_capacity == Some(n) { assert(statement_cache_capacity_setting(c)[0] == ConnectSetting::StatementCacheCapacity(n)); }
        if statement_cache_capacity_setting(c).contains(ConnectSetting::StatementCacheCapacity(n)) { let i = choose|i: int| 0 <= i < statement_cache_capacity_setting(c).len() && statement_cache_capacity_setting(c)[i] == ConnectSetting::StatementCacheCapacity(n); }
    }
}

proof fn lemma_concat_contains(a: Seq<ConnectSetting>, b: Seq<ConnectSetting>, x: ConnectSetting)
    ensures
        (a + b).contains(x) <==> (a.contains(x) || b.contains(x)),
{
    if (a + b).contains(x) {
        let i = choose|i: int| 0 <= i < (a + b).len() && (a + b)[i] == x;
        if i < a.len() {
            assert(a[i] == x);
        } else {
            assert(b[i - a.len()] == x);
        }
    }
    if a.contains(x) {
        let i = choose|i: int| 0 <= i < a.len() && a[i] == x;
        assert((a + b)[i] == x);
    }
    if b.contains(x) {
        let i = choose|i: int| 0 <= i < b.len() && b[i] == x;
        assert((a + b)[a.len() + i] == x);
    }
}

} // verus!
