//! Startup configuration, read from the raw values of environment variables.

use vstd::prelude::*;

use crate::decimal::{bounded_decimal, parse_bounded};
use crate::decimal::{decimal_text, push_decimal};
use crate::errors::ConfigError;

verus! {

/// Configuration required to run the HTTP service and its durable
/// dependencies. Durations are whole seconds.
#[derive(Debug, Clone)]
pub struct AppConfig {
    pub server_host: String,
    pub server_port: u16,
    pub database_url: String,
    pub database_max_connections: u32,
    pub redis_url: String,
    pub redis_lock_ttl_secs: u64,
    pub idempotency_ttl_secs: u64,
    pub request_timeout_secs: u64,
    pub max_request_body_bytes: usize,
}

/// The raw value of each configuration variable; `None` where the variable
/// is unset or not valid Unicode.
#[derive(Debug)]
pub struct ConfigValues {
    /// `SERVER_HOST`
    pub server_host: Option<String>,
    /// `SERVER_PORT`
    pub server_port: Option<String>,
    /// `DATABASE_URL`
    pub database_url: Option<String>,
    /// `DATABASE_MAX_CONNECTIONS`
    pub database_max_connections: Option<String>,
    /// `REDIS_URL`
    pub redis_url: Option<String>,
    /// `REDIS_LOCK_TTL_SECONDS`
    pub redis_lock_ttl_seconds: Option<String>,
    /// `IDEMPOTENCY_TTL_SECONDS`
    pub idempotency_ttl_seconds: Option<String>,
    /// `REQUEST_TIMEOUT_SECONDS`
    pub request_timeout_seconds: Option<String>,
    /// `MAX_REQUEST_BODY_BYTES`
    pub max_request_body_bytes: Option<String>,
}

/// The port named by `SERVER_PORT`, which defaults to 3000.
pub open spec fn port_value(value: Option<String>) -> Option<u16> {
    match value {
        None => Some(3000),
        Some(text) => match bounded_decimal(text@, 65535) {
            Some(port) => Some(port as u16),
            None => None,
        },
    }
}

/// A positive integer setting: the variable's value when set, else the default.
pub open spec fn positive_value(value: Option<String>, default: u64) -> Option<u64> {
    match value {
        None => if default > 0 {
            Some(default)
        } else {
            None
        },
        Some(text) => match bounded_decimal(text@, u64::MAX as nat) {
            Some(v) => if v > 0 {
                Some(v as u64)
            } else {
                None
            },
            None => None,
        },
    }
}

/// The first configuration problem, in the order in which the variables
/// are read, if there is one.
pub open spec fn config_failure(values: ConfigValues) -> Option<ConfigError> {
    if port_value(values.server_port) is None {
        Some(ConfigError::InvalidServerPort)
    } else if values.database_url is None {
        Some(ConfigError::MissingDatabaseUrl)
    } else if positive_value(values.database_max_connections, 10) is None {
        Some(ConfigError::InvalidPositiveInteger("DATABASE_MAX_CONNECTIONS"))
    } else if values.redis_url is None {
        Some(ConfigError::MissingRedisUrl)
    } else if positive_value(values.redis_lock_ttl_seconds, 30) is None {
        Some(ConfigError::InvalidPositiveInteger("REDIS_LOCK_TTL_SECONDS"))
    } else if positive_value(values.idempotency_ttl_seconds, 86_400) is None {
        Some(ConfigError::InvalidPositiveInteger("IDEMPOTENCY_TTL_SECONDS"))
    } else if positive_value(values.request_timeout_seconds, 10) is None {
        Some(ConfigError::InvalidPositiveInteger("REQUEST_TIMEOUT_SECONDS"))
    } else if positive_value(values.max_request_body_bytes, 16_384) is None {
        Some(ConfigError::InvalidPositiveInteger("MAX_REQUEST_BODY_BYTES"))
    } else {
        None
    }
}

/// `config` holds exactly the settings that `values` describe.
pub open spec fn config_of(config: AppConfig, values: ConfigValues) -> bool {
    &&& config.server_host@ == match values.server_host {
        Some(host) => host@,
        None => "127.0.0.1"@,
    }
    &&& Some(config.server_port) == port_value(values.server_port)
    &&& Some(config.database_url) == values.database_url
    &&& config.database_max_connections == positive_value(
        values.database_max_connections,
        10,
    )->0 as u32
    &&& Some(config.redis_url) == values.redis_url
    &&& Some(config.redis_lock_ttl_secs) == positive_value(values.redis_lock_ttl_seconds, 30)
    &&& Some(config.idempotency_ttl_secs) == positive_value(
        values.idempotency_ttl_seconds,
        86_400,
    )
    &&& Some(config.request_timeout_secs) == positive_value(values.request_timeout_seconds, 10)
    &&& config.max_request_body_bytes == positive_value(
        values.max_request_body_bytes,
        16_384,
    )->0 as usize
}

/// An unset positive setting takes its default; a set one is the number its
/// text spells, which must be positive.
pub proof fn lemma_positive_value_reads_the_variable(value: Option<String>, default: u64)
    ensures
        value is None && default > 0 ==> positive_value(value, default) == Some(default),
        value is None && default == 0 ==> positive_value(value, default) is None,
        value matches Some(text) ==> (positive_value(value, default) matches Some(v) ==> Some(
            v as nat,
        ) == bounded_decimal(text@, u64::MAX as nat) && v > 0),
        value matches Some(text) ==> (bounded_decimal(text@, u64::MAX as nat) matches Some(n) ==> (n
            > 0 ==> positive_value(value, default) == Some(n as u64))),
        value matches Some(text) ==> (positive_value(value, default) is None
            <==> !(bounded_decimal(text@, u64::MAX as nat) matches Some(n) && n > 0)),
{
}

/// Each setting is read from its own variable, with its own default, and no
/// other variable changes it: a valid configuration holds, for every
/// setting, exactly what its variable gives.
pub proof fn lemma_each_setting_reads_its_variable(config: AppConfig, values: ConfigValues)
    requires
        config_of(config, values),
    ensures
        values.server_host is None ==> config.server_host@ == "127.0.0.1"@,
        values.server_host matches Some(host) ==> config.server_host@ == host@,
        values.server_port is None ==> config.server_port == 3000,
        values.server_port matches Some(text) ==> Some(config.server_port as nat)
            == bounded_decimal(text@, 65535),
        values.database_url == Some(config.database_url),
        values.redis_url == Some(config.redis_url),
        positive_value(values.database_max_connections, 10) matches Some(v)
            ==> config.database_max_connections == v as u32,
        positive_value(values.max_request_body_bytes, 16_384) matches Some(v)
            ==> config.max_request_body_bytes == v as usize,
        values.database_max_connections is None ==> config.database_max_connections == 10,
        Some(config.redis_lock_ttl_secs) == positive_value(values.redis_lock_ttl_seconds, 30),
        values.redis_lock_ttl_seconds is None ==> config.redis_lock_ttl_secs == 30,
        Some(config.idempotency_ttl_secs) == positive_value(values.idempotency_ttl_seconds, 86_400),
        values.idempotency_ttl_seconds is None ==> config.idempotency_ttl_secs == 86_400,
        Some(config.request_timeout_secs) == positive_value(values.request_timeout_seconds, 10),
        values.request_timeout_seconds is None ==> config.request_timeout_secs == 10,
        values.max_request_body_bytes is None ==> config.max_request_body_bytes == 16_384,
{
}

/// A configuration is accepted exactly when every variable is valid, and a
/// rejection names the variable at fault.
pub proof fn lemma_config_rejects_exactly_invalid_variables(values: ConfigValues)
    ensures
        config_failure(values) is None <==> {
            &&& port_value(values.server_port) is Some
            &&& values.database_url is Some
            &&& values.redis_url is Some
            &&& positive_value(values.database_max_connections, 10) is Some
            &&& positive_value(values.redis_lock_ttl_seconds, 30) is Some
            &&& positive_value(values.idempotency_ttl_seconds, 86_400) is Some
            &&& positive_value(values.request_timeout_seconds, 10) is Some
            &&& positive_value(values.max_request_body_bytes, 16_384) is Some
        },
        config_failure(values) == Some(ConfigError::InvalidServerPort) ==> port_value(
            values.server_port,
        ) is None,
        config_failure(values) == Some(ConfigError::MissingDatabaseUrl)
            ==> values.database_url is None,
        config_failure(values) == Some(ConfigError::MissingRedisUrl) ==> values.redis_url is None,
        config_failure(values) == Some(ConfigError::InvalidPositiveInteger("DATABASE_MAX_CONNECTIONS"))
            ==> positive_value(values.database_max_connections, 10) is None,
        config_failure(values) == Some(ConfigError::InvalidPositiveInteger("REDIS_LOCK_TTL_SECONDS"))
            ==> positive_value(values.redis_lock_ttl_seconds, 30) is None,
        config_failure(values) == Some(ConfigError::InvalidPositiveInteger("IDEMPOTENCY_TTL_SECONDS"))
            ==> positive_value(values.idempotency_ttl_seconds, 86_400) is None,
        config_failure(values) == Some(ConfigError::InvalidPositiveInteger("REQUEST_TIMEOUT_SECONDS"))
            ==> positive_value(values.request_timeout_seconds, 10) is None,
        config_failure(values) == Some(ConfigError::InvalidPositiveInteger("MAX_REQUEST_BODY_BYTES"))
            ==> positive_value(values.max_request_body_bytes, 16_384) is None,
{
    reveal_strlit("DATABASE_MAX_CONNECTIONS");
    reveal_strlit("REDIS_LOCK_TTL_SECONDS");
    reveal_strlit("IDEMPOTENCY_TTL_SECONDS");
    reveal_strlit("REQUEST_TIMEOUT_SECONDS");
    reveal_strlit("MAX_REQUEST_BODY_BYTES");
    assert("DATABASE_MAX_CONNECTIONS"@.len() == 24);
    assert("REDIS_LOCK_TTL_SECONDS"@.len() == 22);
    assert("IDEMPOTENCY_TTL_SECONDS"@.len() == 23);
    assert("REQUEST_TIMEOUT_SECONDS"@.len() == 23);
    assert("MAX_REQUEST_BODY_BYTES"@.len() == 22);
}

/// Reads `SERVER_PORT`, which defaults to 3000.
pub fn server_port(value: &Option<String>) -> (port: Result<u16, ConfigError>)
    ensures
        match port_value(*value) {
            Some(p) => port == Ok::<u16, ConfigError>(p),
            None => port == Err::<u16, ConfigError>(ConfigError::InvalidServerPort),
        },
{
    match value {
        None => Ok(3000),
        Some(text) => match parse_bounded(text.as_str(), 65535) {
            Some(port) => Ok(port as u16),
            None => Err(ConfigError::InvalidServerPort),
        },
    }
}

/// Reads a setting that must be a positive integer, with a default for
/// when the variable is unset.
pub fn positive_env(variable: &'static str, value: &Option<String>, default: u64) -> (setting:
    Result<u64, ConfigError>)
    ensures
        match positive_value(*value, default) {
            Some(v) => setting == Ok::<u64, ConfigError>(v),
            None => setting == Err::<u64, ConfigError>(
                ConfigError::InvalidPositiveInteger(variable),
            ),
        },
{
    match value {
        None => {
            if default == 0 {
                Err(ConfigError::InvalidPositiveInteger(variable))
            } else {
                Ok(default)
            }
        },
        Some(text) => match parse_bounded(text.as_str(), u64::MAX) {
            Some(parsed) => {
                if parsed == 0 {
                    Err(ConfigError::InvalidPositiveInteger(variable))
                } else {
                    Ok(parsed)
                }
            },
            None => Err(ConfigError::InvalidPositiveInteger(variable)),
        },
    }
}

impl AppConfig {
    /// The `host:port` text from which the listening address is parsed.
    pub fn socket_addr_text(&self) -> (text: String)
        ensures
            text@ == self.server_host@ + seq![':'] + decimal_text(self.server_port as nat),
    {
        let mut text = self.server_host.clone();
        text.append(":");
        proof {
            reveal_strlit(":");
        }
        push_decimal(&mut text, self.server_port as u128);
        assert(text@ =~= self.server_host@ + seq![':'] + decimal_text(self.server_port as nat));
        text
    }

    /// Builds the configuration from the raw variable values, or reports
    /// the first variable that is missing or malformed.
    pub fn from_values(values: ConfigValues) -> (config: Result<AppConfig, ConfigError>)
        ensures
            match config_failure(values) {
                Some(error) => config == Err::<AppConfig, ConfigError>(error),
                None => config matches Ok(c) && config_of(c, values),
            },
    {
        let server_port = match server_port(&values.server_port) {
            Ok(port) => port,
            Err(error) => return Err(error),
        };
        let database_url = match values.database_url {
            Some(url) => url,
            None => return Err(ConfigError::MissingDatabaseUrl),
        };
        let database_max_connections = match positive_env(
            "DATABASE_MAX_CONNECTIONS",
            &values.database_max_connections,
            10,
        ) {
            Ok(v) => v,
            Err(error) => return Err(error),
        };
        let redis_url = match values.redis_url {
            Some(url) => url,
            None => return Err(ConfigError::MissingRedisUrl),
        };
        let redis_lock_ttl_secs = match positive_env(
            "REDIS_LOCK_TTL_SECONDS",
            &values.redis_lock_ttl_seconds,
            30,
        ) {
            Ok(v) => v,
            Err(error) => return Err(error),
        };
        let idempotency_ttl_secs = match positive_env(
            "IDEMPOTENCY_TTL_SECONDS",
            &values.idempotency_ttl_seconds,
            86_400,
        ) {
            Ok(v) => v,
            Err(error) => return Err(error),
        };
        let request_timeout_secs = match positive_env(
            "REQUEST_TIMEOUT_SECONDS",
            &values.request_timeout_seconds,
            10,
        ) {
            Ok(v) => v,
            Err(error) => return Err(error),
        };
        let max_request_body_bytes = match positive_env(
            "MAX_REQUEST_BODY_BYTES",
            &values.max_request_body_bytes,
            16_384,
        ) {
            Ok(v) => v,
            Err(error) => return Err(error),
        };
        let server_host = match values.server_host {
            Some(host) => host,
            None => "127.0.0.1".to_owned(),
        };
        Ok(AppConfig {
            server_host,
            server_port,
            database_url,
            database_max_connections: database_max_connections as u32,
            redis_url,
            redis_lock_ttl_secs,
            idempotency_ttl_secs,
            request_timeout_secs,
            max_request_body_bytes: max_request_body_bytes as usize,
        })
    }
}

} // verus!
