//! What to do with each event of the supervised backend process: which
//! line to log at which level, and whether to go on listening.

use vstd::prelude::*;

verus! {

/// Prefix of every logged line that concerns the backend.
pub const BACKEND_PREFIX: &'static str = "[python-backend] ";

/// Words between the prefix and the exit status of a backend that ended.
pub const TERMINATED_WORDS: &'static str = "terminated with ";

/// An event of the backend process, with its text already decoded.
#[derive(Debug, PartialEq)]
pub enum BackendEvent {
    /// A line on standard output.
    Stdout(String),
    /// A line on standard error.
    Stderr(String),
    /// The process ended; the text describes its exit status.
    Terminated(String),
    /// Anything else.
    Other,
}

/// Severity of a logged line.
#[derive(Debug, Clone, Copy, PartialEq, Eq, Structural)]
pub enum LogLevel {
    Info,
    Warn,
    Error,
}

/// What the supervisor does on one event.
#[derive(Debug, PartialEq)]
pub struct Forwarded {
    /// The line to log and its level, if the event is logged.
    pub line: Option<(LogLevel, String)>,
    /// Whether the supervisor goes on listening.
    pub listening: bool,
}

/// The mathematical value of a [`BackendEvent`].
pub enum BackendEventModel {
    Stdout(Seq<char>),
    Stderr(Seq<char>),
    Terminated(Seq<char>),
    Other,
}

impl View for BackendEvent {
    type V = BackendEventModel;

    open spec fn view(&self) -> BackendEventModel {
        match self {
            BackendEvent::Stdout(line) => BackendEventModel::Stdout(line@),
            BackendEvent::Stderr(line) => BackendEventModel::Stderr(line@),
            BackendEvent::Terminated(status) => BackendEventModel::Terminated(status@),
            BackendEvent::Other => BackendEventModel::Other,
        }
    }
}

/// The mathematical value of a [`Forwarded`].
pub struct ForwardedModel {
    pub line: Option<(LogLevel, Seq<char>)>,
    pub listening: bool,
}

impl View for Forwarded {
    type V = ForwardedModel;

    open spec fn view(&self) -> ForwardedModel {
        ForwardedModel {
            line: match self.line {
                Some((level, text)) => Some((level, text@)),
                None => None,
            },
            listening: self.listening,
        }
    }
}

/// Output lines are logged as information, error lines as warnings; the end
/// of the process is logged as an error and ends the listening; any other
/// event is passed over.
pub open spec fn forwarded(event: BackendEventModel) -> ForwardedModel {
    match event {
        BackendEventModel::Stdout(line) => ForwardedModel {
            line: Some((LogLevel::Info, BACKEND_PREFIX@ + line)),
            listening: true,
        },
        BackendEventModel::Stderr(line) => ForwardedModel {
            line: Some((LogLevel::Warn, BACKEND_PREFIX@ + line)),
            listening: true,
        },
        BackendEventModel::Terminated(status) => ForwardedModel {
            line: Some((LogLevel::Error, BACKEND_PREFIX@ + TERMINATED_WORDS@ + status)),
            listening: false,
        },
        BackendEventModel::Other => ForwardedModel { line: None, listening: true },
    }
}

/// Decides what the supervisor does on `event`.
pub fn forward_backend_event(event: BackendEvent) -> (outcome: Forwarded)
    ensures
        outcome@ == forwarded(event@),
{
    match event {
        BackendEvent::Stdout(line) => {
            let mut text = String::from_str(BACKEND_PREFIX);
            text.append(line.as_str());
            Forwarded { line: Some((LogLevel::Info, text)), listening: true }
        },
        BackendEvent::Stderr(line) => {
            let mut text = String::from_str(BACKEND_PREFIX);
            text.append(line.as_str());
            Forwarded { line: Some((LogLevel::Warn, text)), listening: true }
        },
        BackendEvent::Terminated(status) => {
            let mut text = String::from_str(BACKEND_PREFIX);
            text.append(TERMINATED_WORDS);
            text.append(status.as_str());
            Forwarded { line: Some((LogLevel::Error, text)), listening: false }
        },
        BackendEvent::Other => Forwarded { line: None, listening: true },
    }
}

} // verus!
