//! The two tokens of a session and the attributes they are written with.

use crate::config::{AxumSessionConfig, SameSite};
use vstd::prelude::*;

verus! {

/// Which of the two tokens of a session is meant.
#[derive(Clone, Copy, Debug, PartialEq, Eq, Structural)]
pub enum CookieType {
    /// The token that carries the storable flag.
    Storable,
    /// The token that carries the session identifier.
    Data,
}

/// A token to be written to the client: its name and value with the
/// attributes that the configuration gives it.
#[derive(Debug)]
pub struct SessionCookie {
    pub name: String,
    pub value: String,
    pub path: String,
    pub secure: bool,
    pub http_only: bool,
    pub domain: Option<String>,
    /// Present exactly where a domain is.
    pub same_site: Option<SameSite>,
    /// Seconds for which the client keeps the token; absent for a token that
    /// ends with the client's session.
    pub max_age: Option<i64>,
}

impl CookieType {
    /// The name that the configuration gives this token.
    pub open spec fn spec_name(&self, config: &AxumSessionConfig) -> Seq<char> {
        match self {
            CookieType::Data => config.cookie_name@,
            CookieType::Storable => config.storable_cookie_name@,
        }
    }

    /// The maximum age that the configuration gives this token.
    pub open spec fn spec_age(&self, config: &AxumSessionConfig) -> Option<i64> {
        match self {
            CookieType::Data => config.cookie_max_age,
            CookieType::Storable => config.storable_cookie_max_age,
        }
    }

    /// The name that the configuration gives this token.
    pub fn get_name(&self, config: &AxumSessionConfig) -> (name: String)
        ensures
            name@ == self.spec_name(config),
    {
        match self {
            CookieType::Data => config.cookie_name.clone(),
            CookieType::Storable => config.storable_cookie_name.clone(),
        }
    }

    /// The maximum age, in seconds, that the configuration gives this token.
    pub fn get_age(&self, config: &AxumSessionConfig) -> (age: Option<i64>)
        ensures
            age == self.spec_age(config),
    {
        match self {
            CookieType::Data => config.cookie_max_age,
            CookieType::Storable => config.storable_cookie_max_age,
        }
    }
}

/// The token of the given type with `value`, as the configuration wants it
/// written. The `SameSite` attribute goes with the domain: a token without a
/// domain carries neither. A maximum age must not be negative.
pub fn create_cookie(config: &AxumSessionConfig, value: String, cookie_type: CookieType) -> (cookie:
    SessionCookie)
    requires
        cookie_type.spec_age(config) matches Some(age) ==> age >= 0,
    ensures
        cookie.name@ == cookie_type.spec_name(config),
        cookie.value == value,
        cookie.path == config.cookie_path,
        cookie.secure == config.cookie_secure,
        cookie.http_only == config.cookie_http_only,
        cookie.domain == config.cookie_domain,
        cookie.same_site == if config.cookie_domain.is_some() {
            Some(config.cookie_same_site)
        } else {
            None
        },
        cookie.max_age == cookie_type.spec_age(config),
{
    let (domain, same_site) = match &config.cookie_domain {
        Some(domain) => (Some(domain.clone()), Some(config.cookie_same_site)),
        None => (None, None),
    };
    SessionCookie {
        name: cookie_type.get_name(config),
        value,
        path: config.cookie_path.clone(),
        secure: config.cookie_secure,
        http_only: config.cookie_http_only,
        domain,
        same_site,
        max_age: cookie_type.get_age(config),
    }
}

} // verus!
