//! The options that the session engine recognises.

use vstd::prelude::*;

verus! {

/// The `SameSite` attribute of a cookie.
#[derive(Clone, Copy, Debug, PartialEq, Eq, Structural)]
pub enum SameSite {
    Strict,
    Lax,
    /// `SameSite=None`: the cookie is sent on cross-site requests too.
    Unrestricted,
}

/// Six hours, in seconds: the default lifetime of a session.
pub const DEFAULT_LIFESPAN: i64 = 21_600;

/// Sixty days, in seconds: the default lifetime of a long-term session.
pub const DEFAULT_MAX_LIFESPAN: i64 = 5_184_000;

/// One hour, in seconds: the default time between two memory sweeps.
pub const DEFAULT_PURGE_UPDATE: i64 = 3_600;

/// Five hours, in seconds: the default time between two storage sweeps.
pub const DEFAULT_PURGE_DATABASE_UPDATE: i64 = 18_000;

/// Configuration of a session store. Durations are in seconds.
#[derive(Debug)]
pub struct AxumSessionConfig {
    /// Name of the token that carries the session identifier.
    pub cookie_name: String,
    /// Name of the token that carries the storable flag.
    pub storable_cookie_name: String,
    /// Maximum age of the identifier token, if it has one.
    pub cookie_max_age: Option<i64>,
    /// Maximum age of the storable-flag token, if it has one.
    pub storable_cookie_max_age: Option<i64>,
    pub cookie_path: String,
    pub cookie_domain: Option<String>,
    pub cookie_http_only: bool,
    pub cookie_secure: bool,
    pub cookie_same_site: SameSite,
    /// Lifetime given to a session on renewal.
    pub lifespan: i64,
    /// Lifetime given to a long-term session on renewal.
    pub max_lifespan: i64,
    /// Table or namespace of the persistent backend.
    pub table_name: String,
    /// Time between two memory sweeps.
    pub purge_update: i64,
    /// Time between two storage sweeps.
    pub purge_database_update: i64,
}

impl AxumSessionConfig {
    /// The default configuration.
    pub fn new() -> (config: AxumSessionConfig)
        ensures
            config.cookie_name@ == "sqlx_session"@,
            config.storable_cookie_name@ == "session_acceptance"@,
            config.cookie_max_age == Some(DEFAULT_MAX_LIFESPAN),
            config.storable_cookie_max_age == Some(DEFAULT_MAX_LIFESPAN),
            config.cookie_path@ == "/"@,
            config.cookie_domain.is_none(),
            config.cookie_http_only,
            !config.cookie_secure,
            config.cookie_same_site == SameSite::Lax,
            config.lifespan == DEFAULT_LIFESPAN,
            config.max_lifespan == DEFAULT_MAX_LIFESPAN,
            config.table_name@ == "async_sessions"@,
            config.purge_update == DEFAULT_PURGE_UPDATE,
            config.purge_database_update == DEFAULT_PURGE_DATABASE_UPDATE,
    {
        AxumSessionConfig {
            cookie_name: "sqlx_session".to_owned(),
            storable_cookie_name: "session_acceptance".to_owned(),
            cookie_max_age: Some(DEFAULT_MAX_LIFESPAN),
            storable_cookie_max_age: Some(DEFAULT_MAX_LIFESPAN),
            cookie_path: "/".to_owned(),
            cookie_domain: None,
            cookie_http_only: true,
            cookie_secure: false,
            cookie_same_site: SameSite::Lax,
            lifespan: DEFAULT_LIFESPAN,
            max_lifespan: DEFAULT_MAX_LIFESPAN,
            table_name: "async_sessions".to_owned(),
            purge_update: DEFAULT_PURGE_UPDATE,
            purge_database_update: DEFAULT_PURGE_DATABASE_UPDATE,
        }
    }

    /// The lifetime that a record with the given policy gets on renewal.
    pub open spec fn spec_lifespan_for(&self, longterm: bool) -> i64 {
        if longterm {
            self.max_lifespan
        } else {
            self.lifespan
        }
    }

    /// The lifetime that a record with the given policy gets on renewal.
    pub fn lifespan_for(&self, longterm: bool) -> (seconds: i64)
        ensures
            seconds == self.spec_lifespan_for(longterm),
    {
        if longterm {
            self.max_lifespan
        } else {
            self.lifespan
        }
    }

    /// Sets the name of the token that carries the session identifier.
    pub fn with_cookie_name(self, name: &str) -> (config: AxumSessionConfig)
        ensures
            config.cookie_name@ == name@,
            config == (AxumSessionConfig { cookie_name: config.cookie_name, ..self }),
    {
        AxumSessionConfig { cookie_name: name.to_owned(), ..self }
    }

    /// Sets the name of the token that carries the storable flag.
    pub fn with_storable_cookie_name(self, name: &str) -> (config: AxumSessionConfig)
        ensures
            config.storable_cookie_name@ == name@,
            config == (AxumSessionConfig { storable_cookie_name: config.storable_cookie_name, ..self }),
    {
        AxumSessionConfig { storable_cookie_name: name.to_owned(), ..self }
    }

    /// Sets the path that the tokens are valid for.
    pub fn with_cookie_path(self, path: &str) -> (config: AxumSessionConfig)
        ensures
            config.cookie_path@ == path@,
            config == (AxumSessionConfig { cookie_path: config.cookie_path, ..self }),
    {
        AxumSessionConfig { cookie_path: path.to_owned(), ..self }
    }

    /// Sets the table or namespace of the persistent backend.
    pub fn with_table_name(self, name: &str) -> (config: AxumSessionConfig)
        ensures
            config.table_name@ == name@,
            config == (AxumSessionConfig { table_name: config.table_name, ..self }),
    {
        AxumSessionConfig { table_name: name.to_owned(), ..self }
    }

    /// Sets the domain that the tokens are valid for.
    pub fn with_cookie_domain(self, domain: Option<String>) -> (config: AxumSessionConfig)
        ensures
            config == (AxumSessionConfig { cookie_domain: domain, ..self }),
    {
        AxumSessionConfig { cookie_domain: domain, ..self }
    }

    /// Sets the maximum age of the identifier token, in seconds.
    pub fn with_max_age(self, age: Option<i64>) -> (config: AxumSessionConfig)
        ensures
            config == (AxumSessionConfig { cookie_max_age: age, ..self }),
    {
        AxumSessionConfig { cookie_max_age: age, ..self }
    }

    /// Sets the maximum age of the storable-flag token, in seconds.
    pub fn with_storable_max_age(self, age: Option<i64>) -> (config: AxumSessionConfig)
        ensures
            config == (AxumSessionConfig { storable_cookie_max_age: age, ..self }),
    {
        AxumSessionConfig { storable_cookie_max_age: age, ..self }
    }

    /// Says whether the tokens are hidden from scripts.
    pub fn with_http_only(self, http_only: bool) -> (config: AxumSessionConfig)
        ensures
            config == (AxumSessionConfig { cookie_http_only: http_only, ..self }),
    {
        AxumSessionConfig { cookie_http_only: http_only, ..self }
    }

    /// Says whether the tokens travel over secure connections only.
    pub fn with_secure(self, secure: bool) -> (config: AxumSessionConfig)
        ensures
            config == (AxumSessionConfig { cookie_secure: secure, ..self }),
    {
        AxumSessionConfig { cookie_secure: secure, ..self }
    }

    /// Sets the `SameSite` attribute that goes with a domain.
    pub fn with_cookie_same_site(self, same_site: SameSite) -> (config: AxumSessionConfig)
        ensures
            config == (AxumSessionConfig { cookie_same_site: same_site, ..self }),
    {
        AxumSessionConfig { cookie_same_site: same_site, ..self }
    }

    /// Sets the lifetime given to a session on renewal, in seconds.
    pub fn with_lifetime(self, seconds: i64) -> (config: AxumSessionConfig)
        ensures
            config == (AxumSessionConfig { lifespan: seconds, ..self }),
    {
        AxumSessionConfig { lifespan: seconds, ..self }
    }

    /// Sets the lifetime given to a long-term session on renewal, in seconds.
    pub fn with_max_lifetime(self, seconds: i64) -> (config: AxumSessionConfig)
        ensures
            config == (AxumSessionConfig { max_lifespan: seconds, ..self }),
    {
        AxumSessionConfig { max_lifespan: seconds, ..self }
    }

    /// Sets the time between two memory sweeps, in seconds.
    pub fn with_purge_update(self, seconds: i64) -> (config: AxumSessionConfig)
        ensures
            config == (AxumSessionConfig { purge_update: seconds, ..self }),
    {
        AxumSessionConfig { purge_update: seconds, ..self }
    }

    /// Sets the time between two storage sweeps, in seconds.
    pub fn with_purge_database_update(self, seconds: i64) -> (config: AxumSessionConfig)
        ensures
            config == (AxumSessionConfig { purge_database_update: seconds, ..self }),
    {
        AxumSessionConfig { purge_database_update: seconds, ..self }
    }
}

impl Clone for AxumSessionConfig {
    /// A copy with the same options.
    fn clone(&self) -> (copy: AxumSessionConfig)
        ensures
            copy == *self,
    {
        let cookie_domain = match &self.cookie_domain {
            Some(domain) => Some(domain.clone()),
            None => None,
        };
        AxumSessionConfig {
            cookie_name: self.cookie_name.clone(),
            storable_cookie_name: self.storable_cookie_name.clone(),
            cookie_max_age: self.cookie_max_age,
            storable_cookie_max_age: self.storable_cookie_max_age,
            cookie_path: self.cookie_path.clone(),
            cookie_domain,
            cookie_http_only: self.cookie_http_only,
            cookie_secure: self.cookie_secure,
            cookie_same_site: self.cookie_same_site,
            lifespan: self.lifespan,
            max_lifespan: self.max_lifespan,
            table_name: self.table_name.clone(),
            purge_update: self.purge_update,
            purge_database_update: self.purge_database_update,
        }
    }
}

} // verus!
