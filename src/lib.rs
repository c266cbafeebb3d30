//! Extension commands of a browser-automation bridge: the route table, the
//! resolver from a route and a JSON body to a typed command, and the
//! payload types with their decoding and encoding rules.
use vstd::prelude::*;

pub mod addon;
pub mod command;
pub mod decode;
pub mod json;
pub mod params;
pub mod print;

verus! {

/// The key under which a chrome element reference is serialised.
pub const CHROME_ELEMENT_KEY: &'static str = "chromeelement-9fc5-4b51-a3c8-01716eedeb04";

/// Verbosity of the browser's log.
#[derive(Clone, Copy, Debug, PartialEq, Eq, Structural)]
pub enum LogLevel {
    Fatal,
    Error,
    Warn,
    Info,
    Config,
    Debug,
    Trace,
}

/// Logging options for a session; no level means the browser's own default.
#[derive(Clone, Copy, Debug, PartialEq, Eq, Structural)]
pub struct LogOptions {
    pub level: Option<LogLevel>,
}

impl Default for LogOptions {
    fn default() -> (r: LogOptions)
        ensures
            r.level is None,
    {
        LogOptions { level: None }
    }
}

} // verus!
