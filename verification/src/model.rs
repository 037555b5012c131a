//! The task controller as a mathematical state machine: what each entry
//! point does to the state and which effects it asks for.

use crate::effect::{done, reveal_effect, surface_plan, EffectModel, EventModel, ReplyModel, TaskError};
use crate::script::TaskModel;
use crate::url_check::url_well_formed;
use vstd::prelude::*;

verus! {

/// Where the controller stands.
///
/// A started task loads its page and is at once `Observing`; a delivered
/// result closes the session in the same step, so neither loading nor
/// delivered is a state in which the controller can be found.
#[derive(Debug, Clone, Copy, PartialEq, Eq, Structural)]
pub enum Phase {
    /// No session: none was started yet, or the last start was refused.
    Idle,
    /// A session is live and its page is being observed.
    Observing,
    /// A session is live and shown, waiting for the user to log in. Once
    /// logged in, the page goes on being observed; the controller hears of
    /// it with the next report.
    AuthRequired,
    /// The session was closed after its result was delivered.
    Closed,
    /// The session was cancelled.
    Cancelled,
}

/// The mathematical value of a session.
pub struct SessionModel {
    /// Source of the task that the session was started for.
    pub source_id: Seq<char>,
    /// Page that the session was opened on.
    pub url: Seq<char>,
    /// Whether the surface has been shown to the user.
    pub revealed: bool,
}

/// The mathematical value of the controller's state.
pub struct StateModel {
    /// Sources whose result was delivered since their task was last started.
    pub delivered: Set<Seq<char>>,
    /// The one live session, if any.
    pub session: Option<SessionModel>,
    pub phase: Phase,
}

impl StateModel {
    /// A session is live exactly in the two live phases, and a session that
    /// waits for a login has been shown.
    pub open spec fn wf(self) -> bool {
        &&& self.session is Some <==> (self.phase is Observing || self.phase is AuthRequired)
        &&& self.phase is AuthRequired ==> self.session->0.revealed
    }

    /// The state before any task.
    pub open spec fn initial() -> StateModel {
        StateModel { delivered: Set::empty(), session: None, phase: Phase::Idle }
    }

    /// The request to close the surface, if a session is live.
    pub open spec fn teardown(self) -> Seq<EffectModel> {
        if self.session is Some {
            seq![EffectModel::CloseSurface]
        } else {
            Seq::empty()
        }
    }
}

/// Prefix of every line of the diagnostics sink.
pub const LOG_PREFIX: &'static str = "[Scraper JS Debug] ";

/// Starting a task: its source becomes deliverable again, a live session is
/// torn down, and, if the URL is accepted, a fresh session is opened.
pub open spec fn start_step(s: StateModel, task: TaskModel, url_ok: bool) -> (StateModel, ReplyModel) {
    let delivered = s.delivered.remove(task.source_id);
    if url_ok {
        (
            StateModel {
                delivered,
                session: Some(
                    SessionModel { source_id: task.source_id, url: task.url, revealed: false },
                ),
                phase: Phase::Observing,
            },
            done(s.teardown() + seq![EffectModel::OpenSurface(surface_plan(task))]),
        )
    } else {
        (
            StateModel { delivered, session: None, phase: Phase::Idle },
            ReplyModel { status: Err(TaskError::InvalidTaskInput), effects: s.teardown() },
        )
    }
}

/// A captured payload: published and recorded unless one was delivered for
/// the source already; delivery closes the session.
pub open spec fn result_step(
    s: StateModel,
    source_id: Seq<char>,
    secret_key: Seq<char>,
    data: serde_json::Value,
) -> (StateModel, ReplyModel) {
    if s.delivered.contains(source_id) {
        (s, done(Seq::empty()))
    } else {
        (
            StateModel {
                delivered: s.delivered.insert(source_id),
                session: None,
                phase: if s.session is Some {
                    Phase::Closed
                } else {
                    s.phase
                },
            },
            done(
                seq![EffectModel::Publish(EventModel::Result { source_id, secret_key, data })]
                    + s.teardown(),
            ),
        )
    }
}

/// An authentication failure: always published; a live session is shown.
pub open spec fn auth_step(s: StateModel, source_id: Seq<char>, target_url: Seq<char>) -> (
    StateModel,
    ReplyModel,
) {
    let event = EffectModel::Publish(EventModel::AuthRequired { source_id, target_url });
    match s.session {
        Some(session) => (
            StateModel {
                delivered: s.delivered,
                session: Some(
                    SessionModel { source_id: session.source_id, url: session.url, revealed: true },
                ),
                phase: Phase::AuthRequired,
            },
            done(seq![event, reveal_effect()]),
        ),
        None => (s, done(seq![event])),
    }
}

/// Showing the session on request: the task goes on as it was.
pub open spec fn reveal_step(s: StateModel) -> (StateModel, ReplyModel) {
    match s.session {
        Some(session) => (
            StateModel {
                delivered: s.delivered,
                session: Some(
                    SessionModel { source_id: session.source_id, url: session.url, revealed: true },
                ),
                phase: s.phase,
            },
            done(seq![reveal_effect()]),
        ),
        None => (s, done(Seq::empty())),
    }
}

/// Cancelling: a live session is torn down; nothing is published.
pub open spec fn cancel_step(s: StateModel) -> (StateModel, ReplyModel) {
    if s.session is Some {
        (
            StateModel { delivered: s.delivered, session: None, phase: Phase::Cancelled },
            done(seq![EffectModel::CloseSurface]),
        )
    } else {
        (s, done(Seq::empty()))
    }
}

/// A diagnostic line from the page: logged, and never a failure.
pub open spec fn log_reply(message: Seq<char>) -> ReplyModel {
    done(seq![EffectModel::Log(LOG_PREFIX@ + message)])
}

/// A call of one of the entry points.
pub enum Command {
    StartTask { task: TaskModel },
    ReportResult { source_id: Seq<char>, secret_key: Seq<char>, data: serde_json::Value },
    ReportAuthRequired { source_id: Seq<char>, target_url: Seq<char> },
    ShowSession,
    CancelTask,
    Log { message: Seq<char> },
}

/// What one call does.
pub open spec fn step(s: StateModel, command: Command) -> (StateModel, ReplyModel) {
    match command {
        Command::StartTask { task } => start_step(s, task, url_well_formed(task.url)),
        Command::ReportResult { source_id, secret_key, data } => result_step(
            s,
            source_id,
            secret_key,
            data,
        ),
        Command::ReportAuthRequired { source_id, target_url } => auth_step(s, source_id, target_url),
        Command::ShowSession => reveal_step(s),
        Command::CancelTask => cancel_step(s),
        Command::Log { message } => (s, log_reply(message)),
    }
}

/// What a series of calls does, one after the other as the lock admits
/// them: the last state and all effects asked for, in order.
pub open spec fn run(s: StateModel, commands: Seq<Command>) -> (StateModel, Seq<EffectModel>)
    decreases commands.len(),
{
    if commands.len() == 0 {
        (s, Seq::empty())
    } else {
        let (next, reply) = step(s, commands[0]);
        let (last, effects) = run(next, commands.drop_first());
        (last, reply.effects + effects)
    }
}

} // verus!
