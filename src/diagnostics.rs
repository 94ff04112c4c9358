//! The debug channel: what it subscribes to, and how each driver message is
//! routed to the host's log.
use vstd::prelude::*;

use crate::builder::BootstrapConfig;

verus! {

/// How severe the driver says a message is. `Verbose` also stands for any
/// value that is not exactly one of the other three.
#[derive(Clone, Copy, Debug, PartialEq, Eq, Structural)]
pub enum Severity {
    Verbose,
    Info,
    Warning,
    Error,
}

/// What kind of event a message reports. `Other` stands for any value that
/// is not exactly one of the other three.
#[derive(Clone, Copy, Debug, PartialEq, Eq, Structural)]
pub enum Category {
    General,
    Validation,
    Performance,
    Other,
}

/// A level of the host's log.
#[derive(Clone, Copy, Debug, PartialEq, Eq, Structural)]
pub enum LogLevel {
    Error,
    Warn,
    Info,
    Trace,
}

/// One line the channel writes for a message.
#[derive(Clone, Copy, Debug, PartialEq, Eq, Structural)]
pub struct LogLine {
    pub level: LogLevel,
    /// The line is the notice that performance messages get besides their
    /// severity line.
    pub performance_notice: bool,
}

/// What the channel does with one message.
#[derive(Clone, Debug)]
pub struct Routing {
    /// The lines to write, in order.
    pub lines: Vec<LogLine>,
    /// Whether to ask the driver to abort the call that raised the message.
    pub abort: bool,
}

/// What the channel asks the driver to deliver.
#[derive(Clone, Debug)]
pub struct ChannelRequest {
    pub severities: Vec<Severity>,
    pub categories: Vec<Category>,
}

/// The log level for a severity, whatever the category.
pub open spec fn level_of(s: Severity) -> LogLevel {
    match s {
        Severity::Error => LogLevel::Error,
        Severity::Warning => LogLevel::Warn,
        Severity::Info => LogLevel::Info,
        Severity::Verbose => LogLevel::Trace,
    }
}

/// The lines for a message: a warning notice first for performance
/// messages, then the line at the severity's level.
pub open spec fn lines_for(s: Severity, c: Category) -> Seq<LogLine> {
    let by_severity = LogLine { level: level_of(s), performance_notice: false };
    if c == Category::Performance {
        seq![LogLine { level: LogLevel::Warn, performance_notice: true }, by_severity]
    } else {
        seq![by_severity]
    }
}

/// The log level for a severity.
pub fn severity_level(s: Severity) -> (r: LogLevel)
    ensures
        r == level_of(s),
{
    match s {
        Severity::Error => LogLevel::Error,
        Severity::Warning => LogLevel::Warn,
        Severity::Info => LogLevel::Info,
        Severity::Verbose => LogLevel::Trace,
    }
}

/// Routes one driver message. The channel only observes: it never asks the
/// driver to abort.
pub fn route_message(severity: Severity, category: Category) -> (r: Routing)
    ensures
        r.lines@ == lines_for(severity, category),
        !r.abort,
{
    let mut lines: Vec<LogLine> = Vec::new();
    if category == Category::Performance {
        lines.push(LogLine { level: LogLevel::Warn, performance_notice: true });
    }
    lines.push(LogLine { level: severity_level(severity), performance_notice: false });
    assert(lines@ =~= lines_for(severity, category));
    Routing { lines, abort: false }
}

/// Every severity, verbose through error.
pub open spec fn all_severities() -> Seq<Severity> {
    seq![Severity::Verbose, Severity::Info, Severity::Warning, Severity::Error]
}

/// The three categories the channel listens to.
pub open spec fn listened_categories() -> Seq<Category> {
    seq![Category::General, Category::Validation, Category::Performance]
}

/// The channel to install under `c`: none when diagnostics are off, else one
/// that hears every severity of general, validation and performance messages.
pub open spec fn subscription_matches(r: Option<ChannelRequest>, c: BootstrapConfig) -> bool {
    &&& r is None <==> !c.diagnostics_enabled
    &&& r is Some ==> r->Some_0.severities@ == all_severities() && r->Some_0.categories@
        == listened_categories()
}

/// The channel to install under `config`.
pub fn channel_request(config: &BootstrapConfig) -> (r: Option<ChannelRequest>)
    ensures
        subscription_matches(r, *config),
{
    if !config.diagnostics_enabled {
        return None;
    }
    let severities: Vec<Severity> = vec![
        Severity::Verbose,
        Severity::Info,
        Severity::Warning,
        Severity::Error,
    ];
    let categories: Vec<Category> = vec![
        Category::General,
        Category::Validation,
        Category::Performance,
    ];
    assert(severities@ =~= all_severities());
    assert(categories@ =~= listened_categories());
    Some(ChannelRequest { severities, categories })
}

/// Routing depends on the message alone: every message gets a line at its
/// severity's level (error, warn, info, else trace) whatever its category,
/// and performance messages get a warning notice as well.
pub proof fn lemma_routing_table(s: Severity, c: Category)
    ensures
        lines_for(s, c).last() == (LogLine { level: level_of(s), performance_notice: false }),
        s == Severity::Error ==> level_of(s) == LogLevel::Error,
        s == Severity::Warning ==> level_of(s) == LogLevel::Warn,
        s == Severity::Info ==> level_of(s) == LogLevel::Info,
        s == Severity::Verbose ==> level_of(s) == LogLevel::Trace,
        c == Category::Performance <==> lines_for(s, c).len() == 2,
        c == Category::Performance ==> lines_for(s, c)[0] == (LogLine {
            level: LogLevel::Warn,
            performance_notice: true,
        }),
        c != Category::Performance ==> lines_for(s, c).len() == 1,
{
}

} // verus!
