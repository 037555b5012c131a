//! The task controller: its state, and the entry points that the host
//! calls for its commands and for the reports of the page script.

use crate::dedup::DedupRecord;
use crate::effect::{
    effects_model, reveal_plan, surface_plan, Effect, EffectModel, Reply, RevealPlan, ScraperEvent,
    SurfacePlan, TaskError, HIDDEN_HEIGHT, HIDDEN_WIDTH, HIDDEN_X, HIDDEN_Y, REVEALED_HEIGHT,
    REVEALED_WIDTH, SURFACE_TITLE,
};
use crate::model::{
    auth_step, cancel_step, log_reply, result_step, reveal_step, start_step, step, Command, Phase,
    SessionModel, StateModel, LOG_PREFIX,
};
use crate::script::{interception_script, ScrapeTask, TaskModel};
use crate::url_check::{parses_as_url, url_well_formed};
use vstd::prelude::*;

verus! {

/// How far a live session has been shown to the user.
#[derive(Debug, Clone, Copy, PartialEq, Eq, Structural)]
enum Showing {
    /// Not at all: the surface is where it was created, out of sight.
    Hidden,
    /// On the caller's request.
    OnRequest,
    /// For the user to log in, after an authentication failure.
    ForLogin,
}

/// What became of the last session, while none is live.
#[derive(Debug, Clone, Copy, PartialEq, Eq, Structural)]
enum Rest {
    Idle,
    Closed,
    Cancelled,
}

/// The live automation surface of a task.
#[derive(Debug, PartialEq)]
pub struct Session {
    source_id: String,
    url: String,
    showing: Showing,
}

impl View for Session {
    type V = SessionModel;

    closed spec fn view(&self) -> SessionModel {
        SessionModel {
            source_id: self.source_id@,
            url: self.url@,
            revealed: self.showing != Showing::Hidden,
        }
    }
}

impl Session {
    /// Source of the task that the session was started for.
    pub fn source_id(&self) -> (source_id: &String)
        ensures
            source_id@ == self@.source_id,
    {
        &self.source_id
    }

    /// Page that the session was opened on.
    pub fn url(&self) -> (url: &String)
        ensures
            url@ == self@.url,
    {
        &self.url
    }

    /// Whether the surface has been shown to the user.
    pub fn revealed(&self) -> (revealed: bool)
        ensures
            revealed == self@.revealed,
    {
        match self.showing {
            Showing::Hidden => false,
            Showing::OnRequest => true,
            Showing::ForLogin => true,
        }
    }
}

/// State of the task controller. A host keeps one, behind one lock, and
/// passes it to every entry point: each call then sees and leaves the
/// record and the session as one unit.
#[derive(Debug)]
pub struct ScraperState {
    handled_results: DedupRecord,
    session: Option<Session>,
    rest: Rest,
}

impl View for ScraperState {
    type V = StateModel;

    closed spec fn view(&self) -> StateModel {
        StateModel {
            delivered: self.handled_results@,
            session: match self.session {
                Some(live) => Some(live@),
                None => None,
            },
            phase: match self.session {
                Some(live) => if live.showing == Showing::ForLogin {
                    Phase::AuthRequired
                } else {
                    Phase::Observing
                },
                None => match self.rest {
                    Rest::Idle => Phase::Idle,
                    Rest::Closed => Phase::Closed,
                    Rest::Cancelled => Phase::Cancelled,
                },
            },
        }
    }
}

impl ScraperState {
    /// Every state has a well-formed value: a session is live exactly in
    /// the two live phases, and one that waits for a login has been shown.
    pub proof fn lemma_well_formed(&self)
        ensures
            self@.wf(),
    {
    }

    /// The state before any task: nothing delivered, no session.
    pub fn new() -> (state: Self)
        ensures
            state@ == StateModel::initial(),
    {
        ScraperState { handled_results: DedupRecord::new(), session: None, rest: Rest::Idle }
    }

    /// Whether a result for `source_id` was delivered since its task was
    /// last started.
    pub fn is_handled(&self, source_id: &String) -> (handled: bool)
        ensures
            handled == self@.delivered.contains(source_id@),
    {
        self.handled_results.contains(source_id)
    }

    /// The live session, if any.
    pub fn session(&self) -> (session: Option<&Session>)
        ensures
            match session {
                Some(live) => self@.session == Some(live@),
                None => self@.session is None,
            },
    {
        self.session.as_ref()
    }

    /// Where the controller stands.
    pub fn phase(&self) -> (phase: Phase)
        ensures
            phase == self@.phase,
    {
        match &self.session {
            Some(live) => match live.showing {
                Showing::ForLogin => Phase::AuthRequired,
                _ => Phase::Observing,
            },
            None => match self.rest {
                Rest::Idle => Phase::Idle,
                Rest::Closed => Phase::Closed,
                Rest::Cancelled => Phase::Cancelled,
            },
        }
    }
}

impl Default for ScraperState {
    fn default() -> (state: Self)
        ensures
            state@ == StateModel::initial(),
    {
        ScraperState::new()
    }
}

/// The plan by which a session is shown.
fn revealed() -> (plan: RevealPlan)
    ensures
        plan == reveal_plan(),
{
    RevealPlan {
        decorated: true,
        width: REVEALED_WIDTH,
        height: REVEALED_HEIGHT,
        centered: true,
        focused: true,
    }
}

/// The request to close the surface, if a session is live.
fn teardown(live: bool) -> (effects: Vec<Effect>)
    ensures
        effects_model(effects@) == if live {
            seq![EffectModel::CloseSurface]
        } else {
            Seq::empty()
        },
{
    let mut effects: Vec<Effect> = Vec::new();
    if live {
        effects.push(Effect::CloseSurface);
    }
    assert(effects_model(effects@) =~= if live {
        seq![EffectModel::CloseSurface]
    } else {
        Seq::empty()
    });
    effects
}

/// Starts `task`, given whether its URL was accepted.
///
/// The source of the task becomes deliverable again and a live session is
/// torn down in either case. With an accepted URL a new session is opened,
/// out of the user's sight, on the task's page with the interception script
/// installed; otherwise the call fails with
/// [`TaskError::InvalidTaskInput`] and no session is left.
pub fn start_task(state: &mut ScraperState, task: ScrapeTask, url_ok: bool) -> (reply: Reply)
    ensures
        (final(state)@, reply@) == start_step(old(state)@, task@, url_ok),
{
    let _ = state.handled_results.remove(&task.source_id);
    let mut effects = teardown(state.session.is_some());
    let ghost closing = effects_model(effects@);
    if url_ok {
        let plan = SurfacePlan {
            title: String::from_str(SURFACE_TITLE),
            url: task.url.clone(),
            init_script: interception_script(&task),
            visible: true,
            width: HIDDEN_WIDTH,
            height: HIDDEN_HEIGHT,
            x: HIDDEN_X,
            y: HIDDEN_Y,
        };
        effects.push(Effect::OpenSurface(plan));
        assert(effects_model(effects@) =~= closing + seq![
            EffectModel::OpenSurface(surface_plan(task@)),
        ]);
        state.session = Some(
            Session { source_id: task.source_id, url: task.url, showing: Showing::Hidden },
        );
        Reply { status: Ok(()), effects }
    } else {
        state.session = None;
        state.rest = Rest::Idle;
        Reply { status: Err(TaskError::InvalidTaskInput), effects }
    }
}

/// Starts a task: `StartTask`.
///
/// The URL is checked by the `url` crate; see [`start_task`] for what
/// follows from its answer.
pub fn push_scraper_task(
    state: &mut ScraperState,
    source_id: String,
    url: String,
    inject_script: String,
    intercept_api: String,
    secret_key: String,
) -> (reply: Reply)
    ensures
        (final(state)@, reply@) == start_step(
            old(state)@,
            TaskModel {
                source_id: source_id@,
                url: url@,
                inject_script: inject_script@,
                intercept_api: intercept_api@,
                secret_key: secret_key@,
            },
            url_well_formed(url@),
        ),
{
    let task = ScrapeTask { source_id, url, inject_script, intercept_api, secret_key };
    let url_ok = parses_as_url(task.url.as_str());
    start_task(state, task, url_ok)
}

/// Accepts a captured payload from the page script: `ReportResult`.
///
/// The first payload for a source since its task was started is published
/// and closes the session; every later one is dropped without a trace.
pub fn handle_scraped_data(
    state: &mut ScraperState,
    source_id: String,
    secret_key: String,
    data: serde_json::Value,
) -> (reply: Reply)
    ensures
        (final(state)@, reply@) == result_step(old(state)@, source_id@, secret_key@, data),
{
    if state.handled_results.contains(&source_id) {
        let effects: Vec<Effect> = Vec::new();
        assert(effects_model(effects@) =~= Seq::empty());
        return Reply { status: Ok(()), effects };
    }
    let ghost id = source_id@;
    let _ = state.handled_results.insert(source_id.clone());
    let mut effects: Vec<Effect> = Vec::new();
    effects.push(Effect::Publish(ScraperEvent::Result { source_id, secret_key, data }));
    if state.session.is_some() {
        effects.push(Effect::CloseSurface);
        state.session = None;
        state.rest = Rest::Closed;
    }
    assert(effects_model(effects@) =~= result_step(
        old(state)@,
        id,
        secret_key@,
        data,
    ).1.effects);
    Reply { status: Ok(()), effects }
}

/// Accepts an authentication failure from the page script:
/// `ReportAuthRequired`.
///
/// The event is published every time; a live session is shown so that the
/// user can log in.
pub fn handle_scraper_auth(state: &mut ScraperState, source_id: String, target_url: String) -> (reply:
    Reply)
    ensures
        (final(state)@, reply@) == auth_step(old(state)@, source_id@, target_url@),
{
    let mut effects: Vec<Effect> = Vec::new();
    effects.push(Effect::Publish(ScraperEvent::AuthRequired { source_id, target_url }));
    match &mut state.session {
        Some(session) => {
            session.showing = Showing::ForLogin;
            effects.push(Effect::RevealSurface(revealed()));
        },
        None => {},
    }
    assert(effects_model(effects@) =~= auth_step(
        old(state)@,
        source_id@,
        target_url@,
    ).1.effects);
    Reply { status: Ok(()), effects }
}

/// Shows the session to the user on request: `ShowSession`.
pub fn show_scraper_window(state: &mut ScraperState) -> (reply: Reply)
    ensures
        (final(state)@, reply@) == reveal_step(old(state)@),
{
    let mut effects: Vec<Effect> = Vec::new();
    match &mut state.session {
        Some(session) => {
            if session.showing == Showing::Hidden {
                session.showing = Showing::OnRequest;
            }
            effects.push(Effect::RevealSurface(revealed()));
        },
        None => {},
    }
    assert(effects_model(effects@) =~= reveal_step(old(state)@).1.effects);
    Reply { status: Ok(()), effects }
}

/// Cancels the task under way: `CancelTask`. Without a session nothing
/// happens.
pub fn cancel_scraper_task(state: &mut ScraperState) -> (reply: Reply)
    ensures
        (final(state)@, reply@) == cancel_step(old(state)@),
{
    let mut effects: Vec<Effect> = Vec::new();
    if state.session.is_some() {
        effects.push(Effect::CloseSurface);
        state.session = None;
        state.rest = Rest::Cancelled;
    }
    assert(effects_model(effects@) =~= cancel_step(old(state)@).1.effects);
    Reply { status: Ok(()), effects }
}

/// Takes a diagnostic line from the page script: `Log`. The call always
/// succeeds; the line goes to the operational log under a fixed prefix.
pub fn scraper_log(message: String) -> (reply: Reply)
    ensures
        reply@ == log_reply(message@),
{
    let mut line = String::from_str(LOG_PREFIX);
    line.append(message.as_str());
    let mut effects: Vec<Effect> = Vec::new();
    effects.push(Effect::Log(line));
    assert(effects_model(effects@) =~= log_reply(message@).effects);
    Reply { status: Ok(()), effects }
}

/// A call of one of the entry points, as a value: the three commands of the
/// application layer and the three reports of the page script.
#[derive(Debug, PartialEq)]
pub enum HostCall {
    StartTask { task: ScrapeTask },
    ReportResult { source_id: String, secret_key: String, data: serde_json::Value },
    ReportAuthRequired { source_id: String, target_url: String },
    ShowSession,
    CancelTask,
    Log { message: String },
}

impl View for HostCall {
    type V = Command;

    open spec fn view(&self) -> Command {
        match self {
            HostCall::StartTask { task } => Command::StartTask { task: task@ },
            HostCall::ReportResult { source_id, secret_key, data } => Command::ReportResult {
                source_id: source_id@,
                secret_key: secret_key@,
                data: *data,
            },
            HostCall::ReportAuthRequired { source_id, target_url } => Command::ReportAuthRequired {
                source_id: source_id@,
                target_url: target_url@,
            },
            HostCall::ShowSession => Command::ShowSession,
            HostCall::CancelTask => Command::CancelTask,
            HostCall::Log { message } => Command::Log { message: message@ },
        }
    }
}

/// Makes the call that `call` stands for.
pub fn dispatch(state: &mut ScraperState, call: HostCall) -> (reply: Reply)
    ensures
        (final(state)@, reply@) == step(old(state)@, call@),
{
    match call {
        HostCall::StartTask { task } => {
            let url_ok = parses_as_url(task.url.as_str());
            start_task(state, task, url_ok)
        },
        HostCall::ReportResult { source_id, secret_key, data } => handle_scraped_data(
            state,
            source_id,
            secret_key,
            data,
        ),
        HostCall::ReportAuthRequired { source_id, target_url } => handle_scraper_auth(
            state,
            source_id,
            target_url,
        ),
        HostCall::ShowSession => show_scraper_window(state),
        HostCall::CancelTask => cancel_scraper_task(state),
        HostCall::Log { message } => scraper_log(message),
    }
}

} // verus!
