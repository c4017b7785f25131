//! Log events and the rule that decides which of them are emitted.

use vstd::prelude::*;

verus! {

/// Where a message is meant to go and how much it matters.
#[derive(Clone, Copy, Debug, PartialEq, Eq, Structural)]
pub enum Output {
    /// Informational, for the console only.
    Console,
    /// Informational, for the application shell and the console.
    App,
    /// An error, for the application shell and the console.
    AppError,
}

/// How much a log event matters.
#[derive(Clone, Copy, Debug, PartialEq, Eq, Structural)]
pub enum Severity {
    Info,
    Error,
}

/// A message on its way to the log sink.
#[derive(Debug)]
pub struct LogEvent {
    pub message: String,
    pub severity: Severity,
    /// Whether the application shell is to show it too.
    pub to_shell: bool,
}

/// A `LogEvent` as a mathematical value.
pub struct LogEventView {
    pub message: Seq<char>,
    pub severity: Severity,
    pub to_shell: bool,
}

impl View for LogEvent {
    type V = LogEventView;

    open spec fn view(&self) -> LogEventView {
        LogEventView { message: self.message@, severity: self.severity, to_shell: self.to_shell }
    }
}

/// The view of an optional event.
pub open spec fn event_view(event: Option<LogEvent>) -> Option<LogEventView> {
    match event {
        Some(e) => Some(e@),
        None => None,
    }
}

/// The severity of a message of kind `output`.
pub open spec fn severity_of(output: Output) -> Severity {
    match output {
        Output::AppError => Severity::Error,
        _ => Severity::Info,
    }
}

/// Whether a message of kind `output` is emitted: an error always, an
/// informational message only while debug logging is on.
pub open spec fn is_emitted(output: Output, debug_enabled: bool) -> bool {
    severity_of(output) == Severity::Error || debug_enabled
}

/// The event that a message gives rise to, if any.
pub open spec fn emitted(msg: Seq<char>, output: Output, debug_enabled: bool) -> Option<
    LogEventView,
> {
    if is_emitted(output, debug_enabled) {
        Some(
            LogEventView {
                message: msg,
                severity: severity_of(output),
                to_shell: output != Output::Console,
            },
        )
    } else {
        None
    }
}

/// Decides whether `msg` is emitted and makes its event. Informational
/// messages are gated by the debug flag; errors never are.
pub fn custom_print(msg: String, type_output: Output, debug_enabled: bool) -> (r: Option<LogEvent>)
    ensures
        event_view(r) == emitted(msg@, type_output, debug_enabled),
{
    match type_output {
        Output::Console => {
            if debug_enabled {
                Some(LogEvent { message: msg, severity: Severity::Info, to_shell: false })
            } else {
                None
            }
        },
        Output::App => {
            if debug_enabled {
                Some(LogEvent { message: msg, severity: Severity::Info, to_shell: true })
            } else {
                None
            }
        },
        Output::AppError => Some(
            LogEvent { message: msg, severity: Severity::Error, to_shell: true },
        ),
    }
}

} // verus!
