//! Output settings, decided once from the command line and the terminal and
//! then passed explicitly.
use vstd::prelude::*;

verus! {

/// How upload progress is shown.
#[derive(Clone, Copy, Debug, PartialEq, Eq, Structural)]
pub enum ProgressMode {
    /// Always show a progress bar.
    On,
    /// Never show a progress bar.
    Off,
    /// Show a progress bar when the output is a terminal and quiet is off.
    Auto,
}

/// The name of a progress mode, as written on the command line.
pub open spec fn mode_name(m: ProgressMode) -> Seq<char> {
    match m {
        ProgressMode::On => seq!['o', 'n'],
        ProgressMode::Off => seq!['o', 'f', 'f'],
        ProgressMode::Auto => seq!['a', 'u', 't', 'o'],
    }
}

impl ProgressMode {
    /// The mode's name, as written on the command line.
    pub fn name(&self) -> (r: &'static str)
        ensures
            r@ == mode_name(*self),
    {
        proof {
            reveal_strlit("on");
            reveal_strlit("off");
            reveal_strlit("auto");
        }
        match self {
            ProgressMode::On => "on",
            ProgressMode::Off => "off",
            ProgressMode::Auto => "auto",
        }
    }
}

impl Default for ProgressMode {
    fn default() -> (r: ProgressMode)
        ensures
            r == ProgressMode::Auto,
    {
        ProgressMode::Auto
    }
}

/// The most detailed kind of log message that is shown.
#[derive(Clone, Copy, Debug, PartialEq, Eq, Structural)]
pub enum LogLevel {
    Off,
    Warn,
    Info,
    Debug,
    Trace,
}

/// The output settings of one run.
#[derive(Clone, Copy, Debug, PartialEq, Eq, Structural)]
pub struct OutputConfig {
    pub progress: ProgressMode,
    pub log_level: LogLevel,
}

/// The progress mode that a run uses: a bar when the error stream is a
/// terminal and quiet is off, none otherwise.
pub fn progress_mode(stderr_is_terminal: bool, quiet: bool) -> (r: ProgressMode)
    ensures
        r == (if stderr_is_terminal && !quiet {
            ProgressMode::On
        } else {
            ProgressMode::Off
        }),
{
    if stderr_is_terminal && !quiet {
        ProgressMode::On
    } else {
        ProgressMode::Off
    }
}

/// The log level for the quiet flag and the number of verbose flags: quiet
/// shows nothing; else warnings, and each verbose flag one level more, up to
/// trace.
pub fn log_level(quiet: bool, verbose: u8) -> (r: LogLevel)
    ensures
        r == (if quiet {
            LogLevel::Off
        } else if verbose == 0 {
            LogLevel::Warn
        } else if verbose == 1 {
            LogLevel::Info
        } else if verbose == 2 {
            LogLevel::Debug
        } else {
            LogLevel::Trace
        }),
{
    if quiet {
        LogLevel::Off
    } else {
        match verbose {
            0 => LogLevel::Warn,
            1 => LogLevel::Info,
            2 => LogLevel::Debug,
            _ => LogLevel::Trace,
        }
    }
}

impl OutputConfig {
    /// The settings for the given flags and terminal.
    pub fn from_flags(quiet: bool, verbose: u8, stderr_is_terminal: bool) -> (r: OutputConfig)
        ensures
            r.progress == (if stderr_is_terminal && !quiet {
                ProgressMode::On
            } else {
                ProgressMode::Off
            }),
            r.log_level == (if quiet {
                LogLevel::Off
            } else if verbose == 0 {
                LogLevel::Warn
            } else if verbose == 1 {
                LogLevel::Info
            } else if verbose == 2 {
                LogLevel::Debug
            } else {
                LogLevel::Trace
            }),
    {
        OutputConfig {
            progress: progress_mode(stderr_is_terminal, quiet),
            log_level: log_level(quiet, verbose),
        }
    }
}

} // verus!
