use vstd::prelude::*;

verus! {

/// How much the service logs.
#[derive(Debug, Clone, Copy, PartialEq, Eq, Structural)]
pub enum LogLevel {
    Off,
    Error,
    Warn,
    Info,
    Debug,
    Trace,
}

/// The command-line arguments of the service.
#[derive(Debug, Clone)]
pub struct CliArgs {
    /// Path to the configuration file.
    pub config: String,
    /// Base directory of the Pico CSS files; overrides the configuration file.
    pub pico_css_base_path: Option<String>,
    pub verbosity: Option<LogLevel>,
    /// Download the Pico CSS archive and exit.
    pub download_pico_css: bool,
}

impl CliArgs {
    /// The log level to run with: the argument's, else the environment's,
    /// else `Info`.
    pub fn effective_verbosity(&self, from_environment: Option<LogLevel>) -> (r: LogLevel)
        ensures
            r == match self.verbosity {
                Some(v) => v,
                None => match from_environment {
                    Some(v) => v,
                    None => LogLevel::Info,
                },
            },
    {
        match self.verbosity {
            Some(v) => v,
            None => match from_environment {
                Some(v) => v,
                None => LogLevel::Info,
            },
        }
    }

    /// The Pico CSS base path: the argument's where given, else the configured one.
    pub fn css_base_path(&self, configured: &String) -> (r: String)
        ensures
            r@ == match self.pico_css_base_path {
                Some(p) => p@,
                None => configured@,
            },
    {
        match &self.pico_css_base_path {
            Some(p) => p.clone(),
            None => configured.clone(),
        }
    }
}

/// The log level for the database driver: as verbose as the service at debug
/// and trace, warnings only otherwise.
pub fn database_log_level(verbosity: LogLevel) -> (r: LogLevel)
    ensures
        r == match verbosity {
            LogLevel::Trace => LogLevel::Trace,
            LogLevel::Debug => LogLevel::Debug,
            _ => LogLevel::Warn,
        },
{
    match verbosity {
        LogLevel::Trace => LogLevel::Trace,
        LogLevel::Debug => LogLevel::Debug,
        _ => LogLevel::Warn,
    }
}

} // verus!
