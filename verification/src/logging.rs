//! Where the log goes and how much it says: a "trace" or "debug" file dropped next to the
//! program turns on detailed logging into that file; otherwise the log setting decides.

use vstd::prelude::*;

verus! {

/// How much the log says.
#[derive(Debug, Clone, Copy, PartialEq, Eq, Structural)]
pub enum LogLevel {
    Trace,
    Debug,
    Info,
}

/// Where the log is written.
#[derive(Debug, Clone, Copy, PartialEq, Eq)]
pub enum LogSink {
    /// The override file of this name in the working directory.
    Override(&'static str),
    /// "logs.txt" in the application's data directory, the previous log kept as
    /// "logs.prev.txt".
    Rotated,
}

/// What logging does this session.
#[derive(Debug, Clone, Copy, PartialEq, Eq)]
pub enum LogPlan {
    /// Write at `level`, filtered by `directive`, to `sink`.
    Write { level: LogLevel, directive: &'static str, sink: LogSink },
    /// No log; old logs are removed.
    Off,
}

/// The file names that turn on trace logging, in the order they are looked for.
pub open spec fn spec_trace_names() -> Seq<Seq<char>> {
    seq!["trace.txt"@, "trace"@]
}

/// The file names that turn on debug logging, in the order they are looked for.
pub open spec fn spec_debug_names() -> Seq<Seq<char>> {
    seq!["debug.txt"@, "debug"@]
}

/// The file names that turn on trace logging, in the order they are looked for.
pub fn trace_names() -> (v: Vec<&'static str>)
    ensures
        v@.len() == 2,
        forall|i: int| 0 <= i < 2 ==> #[trigger] v@[i]@ == spec_trace_names()[i],
{
    vec!["trace.txt", "trace"]
}

/// The file names that turn on debug logging, in the order they are looked for.
pub fn debug_names() -> (v: Vec<&'static str>)
    ensures
        v@.len() == 2,
        forall|i: int| 0 <= i < 2 ==> #[trigger] v@[i]@ == spec_debug_names()[i],
{
    vec!["debug.txt", "debug"]
}

/// The first of `names` whose file exists (`exists[i]` tells for `names[i]`).
pub fn find_override_file(names: &Vec<&'static str>, exists: &Vec<bool>) -> (r: Option<&'static str>)
    requires
        exists@.len() == names@.len(),
    ensures
        r matches Some(n) ==> exists|i: int| 0 <= i < names@.len() && exists@[i] && names@[i] == n
            && forall|j: int| 0 <= j < i ==> !#[trigger] exists@[j],
        r is None ==> forall|j: int| 0 <= j < names@.len() ==> !#[trigger] exists@[j],
{
    let mut i: usize = 0;
    while i < names.len()
        invariant
            i <= names.len(),
            exists@.len() == names@.len(),
            forall|j: int| 0 <= j < i ==> !#[trigger] exists@[j],
        decreases names.len() - i,
    {
        if exists[i] {
            return Some(names[i]);
        }
        i = i + 1;
    }
    None
}

/// The filter used at each level.
pub open spec fn spec_directive(level: LogLevel) -> Seq<char> {
    match level {
        LogLevel::Trace => "info,gui=trace,core=trace,nyanko=trace,zbus=error"@,
        LogLevel::Debug => "info,gui=debug,core=debug,nyanko=debug,zbus=error"@,
        LogLevel::Info => "info,zbus=error"@,
    }
}

/// What logging does: a trace file wins over a debug file, which wins over the setting;
/// with the setting on, the log goes to the data directory at the info level.
pub open spec fn spec_log_plan(trace_file: Option<&'static str>, debug_file: Option<&'static str>, enable_logging: bool) -> Option<(LogLevel, LogSink)> {
    match trace_file {
        Some(t) => Some((LogLevel::Trace, LogSink::Override(t))),
        None => match debug_file {
            Some(d) => Some((LogLevel::Debug, LogSink::Override(d))),
            None => if enable_logging { Some((LogLevel::Info, LogSink::Rotated)) } else { None },
        },
    }
}

/// What logging does this session.
pub fn log_plan(trace_file: Option<&'static str>, debug_file: Option<&'static str>, enable_logging: bool) -> (p: LogPlan)
    ensures
        match spec_log_plan(trace_file, debug_file, enable_logging) {
            Some((level, sink)) => p matches LogPlan::Write { level: l, directive, sink: s }
                && l == level && s == sink && directive@ == spec_directive(level),
            None => p == LogPlan::Off,
        },
{
    match trace_file {
        Some(t) => LogPlan::Write {
            level: LogLevel::Trace,
            directive: "info,gui=trace,core=trace,nyanko=trace,zbus=error",
            sink: LogSink::Override(t),
        },
        None => match debug_file {
            Some(d) => LogPlan::Write {
                level: LogLevel::Debug,
                directive: "info,gui=debug,core=debug,nyanko=debug,zbus=error",
                sink: LogSink::Override(d),
            },
            None => if enable_logging {
                LogPlan::Write { level: LogLevel::Info, directive: "info,zbus=error", sink: LogSink::Rotated }
            } else {
                LogPlan::Off
            },
        },
    }
}

} // verus!
