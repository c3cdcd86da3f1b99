//! Configuration: what the program needs to start, read from plain values.
//! The environment itself is read outside and handed in.

use vstd::prelude::*;
use crate::text::{ascii_lower, to_ascii_lower};
use crate::json::str_eq;
use crate::protocol::opt_view;

verus! {

/// What the assistant starts with.
#[derive(Debug, Clone)]
pub struct Config {
    pub gemini_api_key: String,
    pub gemini_model: String,
    pub dev_mode: bool,
}

pub struct ConfigV {
    pub gemini_api_key: Seq<char>,
    pub gemini_model: Seq<char>,
    pub dev_mode: bool,
}

impl View for Config {
    type V = ConfigV;

    open spec fn view(&self) -> ConfigV {
        ConfigV {
            gemini_api_key: self.gemini_api_key@,
            gemini_model: self.gemini_model@,
            dev_mode: self.dev_mode,
        }
    }
}

/// The model used when none is configured.
pub open spec fn default_model() -> Seq<char> {
    "gemini-1.5-flash"@
}

/// The message shown when the key is missing.
pub open spec fn missing_key_message() -> Seq<char> {
    "GEMINI_API_KEY must be set in .env or environment"@
}

impl Config {
    /// Builds the configuration from the raw variable values: the key is
    /// required, the model defaults, and developer mode is on unless the
    /// variable reads (case-insensitively) as anything but true.
    pub fn from_values(
        api_key: Option<String>,
        model: Option<String>,
        dev_mode: Option<String>,
    ) -> (r: Result<Config, String>)
        ensures
            match (r, api_key) {
                (Result::Ok(c), Some(key)) => {
                    &&& c@.gemini_api_key == key@
                    &&& c@.gemini_model == match opt_view(model) {
                        Some(m) => m,
                        None => default_model(),
                    }
                    &&& c@.dev_mode == match opt_view(dev_mode) {
                        Some(d) => ascii_lower(d) == "true"@,
                        None => true,
                    }
                },
                (Result::Err(m), None) => m@ == missing_key_message(),
                _ => false,
            },
    {
        let key = match api_key {
            Some(k) => k,
            None => {
                return Err("GEMINI_API_KEY must be set in .env or environment".to_owned());
            }
        };
        let gemini_model = match model {
            Some(m) => m,
            None => "gemini-1.5-flash".to_owned(),
        };
        let dev = match dev_mode {
            Some(d) => {
                let low = to_ascii_lower(d.as_str());
                str_eq(low.as_str(), "true")
            }
            None => true,
        };
        Ok(Config { gemini_api_key: key, gemini_model, dev_mode: dev })
    }
}

/// How loudly to log.
#[derive(Debug, Clone, Copy, PartialEq, Eq, Structural)]
pub enum LogLevel {
    Debug,
    Info,
    Warn,
    Error,
}

/// How a log-level word maps, case-insensitively; anything unknown is info.
pub open spec fn log_level_of(s: Seq<char>) -> LogLevel {
    let low = ascii_lower(s);
    if low == "debug"@ {
        LogLevel::Debug
    } else if low == "info"@ {
        LogLevel::Info
    } else if low == "warn"@ {
        LogLevel::Warn
    } else if low == "error"@ {
        LogLevel::Error
    } else {
        LogLevel::Info
    }
}

/// Reads a log-level word.
pub fn parse_log_level(s: &str) -> (r: LogLevel)
    ensures
        r == log_level_of(s@),
{
    let low = to_ascii_lower(s);
    if str_eq(low.as_str(), "debug") {
        LogLevel::Debug
    } else if str_eq(low.as_str(), "info") {
        LogLevel::Info
    } else if str_eq(low.as_str(), "warn") {
        LogLevel::Warn
    } else if str_eq(low.as_str(), "error") {
        LogLevel::Error
    } else {
        LogLevel::Info
    }
}

} // verus!
