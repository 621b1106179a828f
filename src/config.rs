use vstd::prelude::*;
use crate::source::{ConfigError, RawTiss, SourceView, TissConfig, parse_source};

verus! {

/// The listen address used when the configuration names none.
pub const DEFAULT_BIND: &'static str = "127.0.0.1:8485";

/// Settings of the HTTP listener.
#[derive(Debug, Clone, PartialEq, Eq)]
pub struct ServiceConfig {
    /// The address to listen on.
    pub bind: String,
}

impl Default for ServiceConfig {
    fn default() -> (r: ServiceConfig)
        ensures
            r.bind@ == DEFAULT_BIND@,
    {
        ServiceConfig { bind: DEFAULT_BIND.to_owned() }
    }
}

/// What each request needs: where the calendar comes from.
#[derive(Debug, Clone, PartialEq, Eq)]
pub struct AppConfig {
    pub tiss: TissConfig,
}

/// The whole configuration of the service.
#[derive(Debug, Clone, PartialEq, Eq)]
pub struct Config {
    pub app: AppConfig,
    pub service: ServiceConfig,
}

impl Config {
    /// Builds the configuration from the merged raw values: the calendar source
    /// is checked as `TissConfig::from_raw` does, and an absent listen address
    /// falls back to the default.
    pub fn from_raw(tiss: &RawTiss, bind: Option<String>) -> (r: Result<Config, ConfigError>)
        ensures
            match r {
                Ok(c) => {
                    &&& parse_source(*tiss) == Ok::<SourceView, ConfigError>(c.app.tiss@)
                    &&& c.service.bind@ == match bind {
                        Some(b) => b@,
                        None => DEFAULT_BIND@,
                    }
                },
                Err(e) => parse_source(*tiss) == Err::<SourceView, ConfigError>(e),
            },
    {
        let source = match TissConfig::from_raw(tiss) {
            Ok(s) => s,
            Err(e) => return Err(e),
        };
        let service = match bind {
            Some(b) => ServiceConfig { bind: b },
            None => ServiceConfig::default(),
        };
        Ok(Config { app: AppConfig { tiss: source }, service })
    }
}

} // verus!
