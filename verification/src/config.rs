//! Startup configuration.
//!
//! All configuration is read once at process startup from the environment by
//! the surrounding binary and validated here: the role to assume, the secret
//! name of the dictionary API token, the dictionary target, and an optional
//! log level. A missing required value is fatal; nothing runs without it.
use vstd::prelude::*;

use crate::errors::ConfigError;

verus! {

/// Verbosity of the process's diagnostic output.
#[derive(Debug, Clone, Copy, PartialEq, Eq, Structural)]
pub enum LogLevel {
    Trace,
    Debug,
    Info,
    Error,
}

/// The log level selected by an optional configuration value: the recognized
/// spellings pick their level ("WARN" is read as debug verbosity), anything
/// else, or no value at all, defaults to info.
pub open spec fn level_of(v: Option<Seq<char>>) -> LogLevel {
    if v is None {
        LogLevel::Info
    } else if v->0 == "TRACE"@ {
        LogLevel::Trace
    } else if v->0 == "DEBUG"@ {
        LogLevel::Debug
    } else if v->0 == "WARN"@ {
        LogLevel::Debug
    } else if v->0 == "ERROR"@ {
        LogLevel::Error
    } else {
        LogLevel::Info
    }
}

/// Parses the optional log-level configuration value.
pub fn parse_log_level(value: &Option<String>) -> (l: LogLevel)
    ensures
        l == level_of(
            match *value {
                Some(s) => Some(s@),
                None => None,
            },
        ),
{
    match value {
        None => LogLevel::Info,
        Some(v) => {
            if *v == String::from_str("TRACE") {
                LogLevel::Trace
            } else if *v == String::from_str("DEBUG") {
                LogLevel::Debug
            } else if *v == String::from_str("WARN") {
                LogLevel::Debug
            } else if *v == String::from_str("ERROR") {
                LogLevel::Error
            } else {
                LogLevel::Info
            }
        },
    }
}

/// The immutable startup configuration of the pipeline.
#[derive(Debug, Clone)]
pub struct Config {
    /// The IAM role to assume on every invocation.
    pub role_arn: String,
    /// Name of the secret that holds the dictionary API token.
    pub token_ssm_name: String,
    /// Service that owns the destination dictionary.
    pub service_id: String,
    /// The destination dictionary.
    pub dictionary_id: String,
    /// Diagnostic verbosity.
    pub log_level: LogLevel,
}

/// Builds the configuration from the raw environment values, in the fixed
/// order role ARN, token secret name, service id, dictionary id: the first
/// missing required value is reported. The log level is optional.
pub fn build_config(
    role_arn: Option<String>,
    token_ssm_name: Option<String>,
    service_id: Option<String>,
    dictionary_id: Option<String>,
    log_level: Option<String>,
) -> (r: Result<Config, ConfigError>)
    ensures
        match r {
            Ok(c) => {
                &&& role_arn matches Some(a) && c.role_arn@ == a@
                &&& token_ssm_name matches Some(t) && c.token_ssm_name@ == t@
                &&& service_id matches Some(s) && c.service_id@ == s@
                &&& dictionary_id matches Some(d) && c.dictionary_id@ == d@
                &&& c.log_level == level_of(
                    match log_level {
                        Some(s) => Some(s@),
                        None => None,
                    },
                )
            },
            Err(e) => match e {
                ConfigError::MissingRoleArn => role_arn is None,
                ConfigError::MissingTokenName => role_arn is Some && token_ssm_name is None,
                ConfigError::MissingServiceId => {
                    &&& role_arn is Some
                    &&& token_ssm_name is Some
                    &&& service_id is None
                },
                ConfigError::MissingDictionaryId => {
                    &&& role_arn is Some
                    &&& token_ssm_name is Some
                    &&& service_id is Some
                    &&& dictionary_id is None
                },
            },
        },
{
    let level = parse_log_level(&log_level);
    match (role_arn, token_ssm_name, service_id, dictionary_id) {
        (None, _, _, _) => Err(ConfigError::MissingRoleArn),
        (Some(_), None, _, _) => Err(ConfigError::MissingTokenName),
        (Some(_), Some(_), None, _) => Err(ConfigError::MissingServiceId),
        (Some(_), Some(_), Some(_), None) => Err(ConfigError::MissingDictionaryId),
        (Some(arn), Some(token_name), Some(service), Some(dictionary)) => Ok(
            Config {
                role_arn: arn,
                token_ssm_name: token_name,
                service_id: service,
                dictionary_id: dictionary,
                log_level: level,
            },
        ),
    }
}

} // verus!
