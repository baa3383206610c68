//! The logging sink selector: which sinks receive log events.

use vstd::prelude::*;

verus! {

/// A destination for log events.
#[derive(Clone, Copy, Debug, PartialEq, Eq, Structural)]
pub enum LogSink {
    Stdout,
    LogDirectory,
    Webview,
}

/// The severity threshold handed to the logging subsystem.
#[derive(Clone, Copy, Debug, PartialEq, Eq, Structural)]
pub enum LogLevel {
    Off,
    Error,
    Warn,
    Info,
    Debug,
    Trace,
}

/// The logging configuration: a threshold and the ordered sinks.
#[derive(Clone, Debug, PartialEq, Eq)]
pub struct LoggingConfig {
    pub level: LogLevel,
    pub sinks: Vec<LogSink>,
}

/// The name of the environment variable that opts in to the in-app viewer.
pub open spec fn webview_flag_name_text() -> Seq<char> {
    "ASGARDEX_LOG_TO_WEBVIEW"@
}

/// The name of the environment variable that opts in to the in-app viewer.
pub fn webview_flag_name() -> (name: &'static str)
    ensures
        name@ == webview_flag_name_text(),
{
    "ASGARDEX_LOG_TO_WEBVIEW"
}

/// What was read for the flag, as text; `None` when the variable is absent
/// or unreadable.
pub open spec fn flag_text(flag: Option<&str>) -> Option<Seq<char>> {
    match flag {
        Some(value) => Some(value@),
        None => None,
    }
}

/// The in-app viewer is enabled by the exact value `true` and by no other.
pub open spec fn webview_enabled(flag: Option<Seq<char>>) -> bool {
    flag == Some("true"@)
}

/// The two sinks that are always present.
pub open spec fn default_sinks() -> Seq<LogSink> {
    seq![LogSink::Stdout, LogSink::LogDirectory]
}

/// The ordered sinks for a flag value: the defaults, then the in-app viewer
/// when the flag enables it.
pub open spec fn sink_set(flag: Option<Seq<char>>) -> Seq<LogSink> {
    if webview_enabled(flag) {
        default_sinks().push(LogSink::Webview)
    } else {
        default_sinks()
    }
}

/// Tells whether the flag value enables the in-app viewer.
pub fn is_webview_enabled(flag: Option<&str>) -> (enabled: bool)
    ensures
        enabled == webview_enabled(flag_text(flag)),
{
    match flag {
        Some(value) => {
            let given: String = value.to_owned();
            let wanted: String = "true".to_owned();
            given == wanted
        },
        None => false,
    }
}

/// Selects the log sinks from the value read for the opt-in flag.
pub fn select_sinks(flag: Option<&str>) -> (sinks: Vec<LogSink>)
    ensures
        sinks@ == sink_set(flag_text(flag)),
        sinks@.contains(LogSink::Stdout),
        sinks@.contains(LogSink::LogDirectory),
        sinks@.contains(LogSink::Webview) <==> flag_text(flag) == Some("true"@),
{
    let mut sinks: Vec<LogSink> = Vec::new();
    sinks.push(LogSink::Stdout);
    sinks.push(LogSink::LogDirectory);
    assert(sinks@ =~= default_sinks());
    if is_webview_enabled(flag) {
        sinks.push(LogSink::Webview);
    }
    proof {
        lemma_sink_set_membership(flag_text(flag));
    }
    sinks
}

/// The logging configuration for a flag value: threshold `Info` and the
/// selected sinks.
pub fn logging_config(flag: Option<&str>) -> (config: LoggingConfig)
    ensures
        config.level == LogLevel::Info,
        config.sinks@ == sink_set(flag_text(flag)),
{
    LoggingConfig { level: LogLevel::Info, sinks: select_sinks(flag) }
}

/// Standard output and the log directory are sinks for every flag value; the
/// in-app viewer is one exactly when the value is `true`.
pub proof fn lemma_sink_set_membership(flag: Option<Seq<char>>)
    ensures
        sink_set(flag).contains(LogSink::Stdout),
        sink_set(flag).contains(LogSink::LogDirectory),
        sink_set(flag).contains(LogSink::Webview) <==> flag == Some("true"@),
        sink_set(flag).no_duplicates(),
        default_sinks().is_prefix_of(sink_set(flag)),
        sink_set(flag).len() == (if flag == Some("true"@) { 3int } else { 2int }),
{
    let sinks = sink_set(flag);
    assert(sinks[0] == LogSink::Stdout);
    assert(sinks[1] == LogSink::LogDirectory);
    if webview_enabled(flag) {
        assert(sinks[2] == LogSink::Webview);
    }
}

/// Values that merely look truthy do not enable the in-app viewer: the match
/// is exact and case-sensitive.
pub proof fn lemma_near_misses_rejected()
    ensures
        !webview_enabled(None),
        !webview_enabled(Some("TRUE"@)),
        !webview_enabled(Some("True"@)),
        !webview_enabled(Some("1"@)),
        !webview_enabled(Some(""@)),
        webview_enabled(Some("true"@)),
{
    reveal_strlit("true");
    reveal_strlit("TRUE");
    reveal_strlit("True");
    reveal_strlit("1");
    reveal_strlit("");
    assert("true"@[0] == 't');
    assert("TRUE"@[0] == 'T');
    assert("True"@[0] == 'T');
    assert("1"@.len() == 1);
    assert(""@.len() == 0);
    assert("true"@.len() == 4);
}

} // verus!
