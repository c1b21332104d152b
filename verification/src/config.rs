//! Configuration: the recognized environment variables, their defaults,
//! and how raw values become a validated configuration. Callers read the
//! process environment and hand the raw values over; the rules of what is
//! required, what has a default, and what is rejected live here.

use vstd::prelude::*;

use crate::text::{dec_val, spec_parses_bounded, parse_u16, parse_usize, unsigned_body};

verus! {

/// The raw values of the recognized environment variables, each absent or
/// present as read from the process environment.
pub struct EnvValues {
    pub redis_url: Option<String>,
    pub database_url: Option<String>,
    pub docker_host: Option<String>,
    pub docker_compose_network: Option<String>,
    pub auth_jwt_secret: Option<String>,
    pub server_host: Option<String>,
    pub server_port: Option<String>,
    pub default_runtime: Option<String>,
    pub max_function_size: Option<String>,
}

/// The string an optional variable contributes, or its default.
pub open spec fn spec_opt_or(v: Option<String>, default: Seq<char>) -> Seq<char> {
    match v {
        Some(s) => s@,
        None => default,
    }
}

/// A failure of configuration loading.
#[derive(Debug)]
pub enum ConfigError {
    /// A required variable is absent; the payload names it.
    MissingVar(String),
    /// A variable is present but unusable; the payload names it.
    InvalidValue(String),
}

/// Server configuration of the earlier generation: backends and listen
/// address.
#[derive(Debug, Clone)]
pub struct ServerConfig {
    pub redis_url: String,
    pub database_url: String,
    pub host: String,
    pub port: u16,
}

impl ServerConfig {
    /// Validate the server part of the environment: `REDIS_URL` and
    /// `DATABASE_URL` are required, the listen address defaults to
    /// `0.0.0.0:3000`, and a present but unparsable `SERVER_PORT` is
    /// rejected.
    pub fn from_values(env: &EnvValues) -> (r: Result<ServerConfig, ConfigError>)
        ensures
            match r {
                Ok(c) => {
                    &&& env.redis_url matches Some(u) && c.redis_url@ == u@
                    &&& env.database_url matches Some(d) && c.database_url@ == d@
                    &&& c.host@ == spec_opt_or(env.server_host, "0.0.0.0"@)
                    &&& match env.server_port {
                        Some(p) => spec_parses_bounded(p@, u16::MAX as int) && c.port == dec_val(
                            unsigned_body(p@),
                        ),
                        None => c.port == 3000,
                    }
                },
                Err(ConfigError::MissingVar(v)) => (env.redis_url is None && v@ == "REDIS_URL"@)
                    || (env.redis_url is Some && env.database_url is None && v@
                    == "DATABASE_URL"@),
                Err(ConfigError::InvalidValue(v)) => {
                    &&& env.redis_url is Some
                    &&& env.database_url is Some
                    &&& env.server_port matches Some(p) && !spec_parses_bounded(
                        p@,
                        u16::MAX as int,
                    ) && v@ == "SERVER_PORT"@
                },
            },
    {
        let redis_url = match &env.redis_url {
            Some(u) => u.clone(),
            None => {
                return Err(ConfigError::MissingVar("REDIS_URL".to_owned()));
            },
        };
        let database_url = match &env.database_url {
            Some(d) => d.clone(),
            None => {
                return Err(ConfigError::MissingVar("DATABASE_URL".to_owned()));
            },
        };
        let host = match &env.server_host {
            Some(h) => h.clone(),
            None => "0.0.0.0".to_owned(),
        };
        let port: u16 = match &env.server_port {
            Some(p) => match parse_u16(p.as_str()) {
                Some(v) => v,
                None => {
                    return Err(ConfigError::InvalidValue("SERVER_PORT".to_owned()));
                },
            },
            None => 3000,
        };
        Ok(ServerConfig { redis_url, database_url, host, port })
    }
}

/// Function-service configuration of the earlier generation: the default
/// runtime and the upload size cap.
#[derive(Debug, Clone)]
pub struct FunctionConfig {
    pub default_runtime: String,
    pub max_function_size: usize,
}

impl FunctionConfig {
    /// Read the function limits: the runtime defaults to `go`; the size
    /// cap defaults to ten megabytes, also when the variable does not
    /// parse.
    pub fn from_values(env: &EnvValues) -> (r: FunctionConfig)
        ensures
            r.default_runtime@ == spec_opt_or(env.default_runtime, "go"@),
            match env.max_function_size {
                Some(s) => {
                    if spec_parses_bounded(s@, usize::MAX as int) {
                        r.max_function_size == dec_val(unsigned_body(s@))
                    } else {
                        r.max_function_size == 10485760
                    }
                },
                None => r.max_function_size == 10485760,
            },
    {
        let default_runtime = match &env.default_runtime {
            Some(s) => s.clone(),
            None => "go".to_owned(),
        };
        let max_function_size: usize = match &env.max_function_size {
            Some(s) => match parse_usize(s.as_str()) {
                Some(v) => v,
                None => 10485760,
            },
            None => 10485760,
        };
        FunctionConfig { default_runtime, max_function_size }
    }
}

/// The complete configuration of the earlier generation.
#[derive(Debug, Clone)]
pub struct AppConfig {
    pub server: ServerConfig,
    pub function: FunctionConfig,
}

impl AppConfig {
    /// Load the whole configuration from the raw environment values: the
    /// server part exactly as `ServerConfig::from_values` gives it, the
    /// function part exactly as `FunctionConfig::from_values` gives it,
    /// and the server part's error, naming the offending variable,
    /// passed on unchanged.
    pub fn load(env: &EnvValues) -> (r: Result<AppConfig, ConfigError>)
        ensures
            match r {
                Ok(c) => {
                    &&& env.redis_url matches Some(u) && c.server.redis_url@ == u@
                    &&& env.database_url matches Some(d) && c.server.database_url@ == d@
                    &&& c.server.host@ == spec_opt_or(env.server_host, "0.0.0.0"@)
                    &&& match env.server_port {
                        Some(p) => spec_parses_bounded(p@, u16::MAX as int) && c.server.port
                            == dec_val(unsigned_body(p@)),
                        None => c.server.port == 3000,
                    }
                    &&& c.function.default_runtime@ == spec_opt_or(env.default_runtime, "go"@)
                    &&& match env.max_function_size {
                        Some(s) => {
                            if spec_parses_bounded(s@, usize::MAX as int) {
                                c.function.max_function_size == dec_val(unsigned_body(s@))
                            } else {
                                c.function.max_function_size == 10485760
                            }
                        },
                        None => c.function.max_function_size == 10485760,
                    }
                },
                Err(ConfigError::MissingVar(v)) => (env.redis_url is None && v@ == "REDIS_URL"@)
                    || (env.redis_url is Some && env.database_url is None && v@
                    == "DATABASE_URL"@),
                Err(ConfigError::InvalidValue(v)) => {
                    &&& env.redis_url is Some
                    &&& env.database_url is Some
                    &&& env.server_port matches Some(p) && !spec_parses_bounded(
                        p@,
                        u16::MAX as int,
                    ) && v@ == "SERVER_PORT"@
                },
            },
    {
        let server = match ServerConfig::from_values(env) {
            Ok(s) => s,
            Err(e) => {
                return Err(e);
            },
        };
        let function = FunctionConfig::from_values(env);
        Ok(AppConfig { server, function })
    }
}

/// A failure of configuration loading in the later generation, which
/// reports the offending port value itself.
#[derive(Debug)]
pub enum InvokConfigError {
    /// A required variable is absent; the payload names it.
    MissingVar(String),
    /// The configured port does not parse; the payload holds it.
    InvalidPort(String),
}

/// Server configuration of the later generation: backends, token secret,
/// the compose network, and the listen address.
#[derive(Debug, Clone)]
pub struct InvokServerConfig {
    pub redis_url: String,
    pub database_url: String,
    pub jwt_auth_secret: String,
    pub host: String,
    pub docker_compose_network_host: String,
    pub port: u16,
}

impl InvokServerConfig {
    /// Validate the server part of the environment: `REDIS_URL`,
    /// `DATABASE_URL`, `DOCKER_HOST`, `DOCKER_COMPOSE_NETWORK` and
    /// `AUTH_JWT_SECRET` are required (the daemon socket is only checked
    /// for presence), the listen address defaults to `0.0.0.0:3000`, and
    /// an unparsable `SERVER_PORT` is reported with its value.
    pub fn from_values(env: &EnvValues) -> (r: Result<InvokServerConfig, InvokConfigError>)
        ensures
            match r {
                Ok(c) => {
                    &&& env.redis_url matches Some(u) && c.redis_url@ == u@
                    &&& env.database_url matches Some(d) && c.database_url@ == d@
                    &&& env.docker_host is Some
                    &&& env.docker_compose_network matches Some(n)
                        && c.docker_compose_network_host@ == n@
                    &&& env.auth_jwt_secret matches Some(s) && c.jwt_auth_secret@ == s@
                    &&& c.host@ == spec_opt_or(env.server_host, "0.0.0.0"@)
                    &&& match env.server_port {
                        Some(p) => spec_parses_bounded(p@, u16::MAX as int) && c.port == dec_val(
                            unsigned_body(p@),
                        ),
                        None => c.port == 3000,
                    }
                },
                Err(InvokConfigError::MissingVar(v)) => {
                    ||| env.redis_url is None && v@ == "REDIS_URL"@
                    ||| env.redis_url is Some && env.database_url is None && v@ == "DATABASE_URL"@
                    ||| env.redis_url is Some && env.database_url is Some
                        && env.docker_host is None && v@ == "DOCKER_HOST"@
                    ||| env.redis_url is Some && env.database_url is Some
                        && env.docker_host is Some && env.docker_compose_network is None && v@
                        == "DOCKER_COMPOSE_NETWORK"@
                    ||| env.redis_url is Some && env.database_url is Some
                        && env.docker_host is Some && env.docker_compose_network is Some
                        && env.auth_jwt_secret is None && v@ == "AUTH_JWT_SECRET"@
                },
                Err(InvokConfigError::InvalidPort(p)) => {
                    &&& env.redis_url is Some
                    &&& env.database_url is Some
                    &&& env.docker_host is Some
                    &&& env.docker_compose_network is Some
                    &&& env.auth_jwt_secret is Some
                    &&& env.server_port matches Some(sp) && !spec_parses_bounded(
                        sp@,
                        u16::MAX as int,
                    ) && p@ == sp@
                },
            },
    {
        let redis_url = match &env.redis_url {
            Some(u) => u.clone(),
            None => {
                return Err(InvokConfigError::MissingVar("REDIS_URL".to_owned()));
            },
        };
        let database_url = match &env.database_url {
            Some(d) => d.clone(),
            None => {
                return Err(InvokConfigError::MissingVar("DATABASE_URL".to_owned()));
            },
        };
        match &env.docker_host {
            Some(_) => (),
            None => {
                return Err(InvokConfigError::MissingVar("DOCKER_HOST".to_owned()));
            },
        };
        let docker_compose_network_host = match &env.docker_compose_network {
            Some(n) => n.clone(),
            None => {
                return Err(InvokConfigError::MissingVar("DOCKER_COMPOSE_NETWORK".to_owned()));
            },
        };
        let jwt_auth_secret = match &env.auth_jwt_secret {
            Some(s) => s.clone(),
            None => {
                return Err(InvokConfigError::MissingVar("AUTH_JWT_SECRET".to_owned()));
            },
        };
        let host = match &env.server_host {
            Some(h) => h.clone(),
            None => "0.0.0.0".to_owned(),
        };
        let port: u16 = match &env.server_port {
            Some(p) => match parse_u16(p.as_str()) {
                Some(v) => v,
                None => {
                    return Err(InvokConfigError::InvalidPort(p.clone()));
                },
            },
            None => 3000,
        };
        Ok(
            InvokServerConfig {
                redis_url,
                database_url,
                jwt_auth_secret,
                host,
                docker_compose_network_host,
                port,
            },
        )
    }
}

/// Function-service configuration of the later generation.
#[derive(Debug, Clone)]
pub struct InvokFunctionConfig {
    pub default_runtime: String,
    pub max_function_size: usize,
}

impl InvokFunctionConfig {
    /// Read the function limits, with the same defaults as the earlier
    /// generation.
    pub fn from_values(env: &EnvValues) -> (r: InvokFunctionConfig)
        ensures
            r.default_runtime@ == spec_opt_or(env.default_runtime, "go"@),
            match env.max_function_size {
                Some(s) => {
                    if spec_parses_bounded(s@, usize::MAX as int) {
                        r.max_function_size == dec_val(unsigned_body(s@))
                    } else {
                        r.max_function_size == 10485760
                    }
                },
                None => r.max_function_size == 10485760,
            },
    {
        let f = FunctionConfig::from_values(env);
        InvokFunctionConfig {
            default_runtime: f.default_runtime,
            max_function_size: f.max_function_size,
        }
    }
}

/// The complete configuration of the later generation.
#[derive(Debug, Clone)]
pub struct InvokConfig {
    pub server_config: InvokServerConfig,
    pub function_config: InvokFunctionConfig,
}

impl InvokConfig {
    /// Load the whole configuration from the raw environment values: the
    /// server part exactly as `InvokServerConfig::from_values` gives it,
    /// the function part exactly as `InvokFunctionConfig::from_values`
    /// gives it, and the server part's error, naming the offending
    /// variable or carrying the bad port value, passed on unchanged.
    pub fn load(env: &EnvValues) -> (r: Result<InvokConfig, InvokConfigError>)
        ensures
            match r {
                Ok(c) => {
                    &&& env.redis_url matches Some(u) && c.server_config.redis_url@ == u@
                    &&& env.database_url matches Some(d) && c.server_config.database_url@ == d@
                    &&& env.docker_host is Some
                    &&& env.docker_compose_network matches Some(n)
                        && c.server_config.docker_compose_network_host@ == n@
                    &&& env.auth_jwt_secret matches Some(s) && c.server_config.jwt_auth_secret@
                        == s@
                    &&& c.server_config.host@ == spec_opt_or(env.server_host, "0.0.0.0"@)
                    &&& match env.server_port {
                        Some(p) => spec_parses_bounded(p@, u16::MAX as int)
                            && c.server_config.port == dec_val(unsigned_body(p@)),
                        None => c.server_config.port == 3000,
                    }
                    &&& c.function_config.default_runtime@ == spec_opt_or(
                        env.default_runtime,
                        "go"@,
                    )
                    &&& match env.max_function_size {
                        Some(s) => {
                            if spec_parses_bounded(s@, usize::MAX as int) {
                                c.function_config.max_function_size == dec_val(unsigned_body(s@))
                            } else {
                                c.function_config.max_function_size == 10485760
                            }
                        },
                        None => c.function_config.max_function_size == 10485760,
                    }
                },
                Err(InvokConfigError::MissingVar(v)) => {
                    ||| env.redis_url is None && v@ == "REDIS_URL"@
                    ||| env.redis_url is Some && env.database_url is None && v@ == "DATABASE_URL"@
                    ||| env.redis_url is Some && env.database_url is Some
                        && env.docker_host is None && v@ == "DOCKER_HOST"@
                    ||| env.redis_url is Some && env.database_url is Some
                        && env.docker_host is Some && env.docker_compose_network is None && v@
                        == "DOCKER_COMPOSE_NETWORK"@
                    ||| env.redis_url is Some && env.database_url is Some
                        && env.docker_host is Some && env.docker_compose_network is Some
                        && env.auth_jwt_secret is None && v@ == "AUTH_JWT_SECRET"@
                },
                Err(InvokConfigError::InvalidPort(p)) => {
                    &&& env.redis_url is Some
                    &&& env.database_url is Some
                    &&& env.docker_host is Some
                    &&& env.docker_compose_network is Some
                    &&& env.auth_jwt_secret is Some
                    &&& env.server_port matches Some(sp) && !spec_parses_bounded(
                        sp@,
                        u16::MAX as int,
                    ) && p@ == sp@
                },
            },
    {
        let server_config = match InvokServerConfig::from_values(env) {
            Ok(s) => s,
            Err(e) => {
                return Err(e);
            },
        };
        let function_config = InvokFunctionConfig::from_values(env);
        Ok(InvokConfig { server_config, function_config })
    }
}

} // verus!
